//! Value types describing disks, partitions and their health, together with
//! the layout invariant that every disk snapshot is expected to satisfy.

use vstd::prelude::*;
use vstd::string::StrSliceExecFns;

verus! {

/// Type of partition table.
#[derive(Debug, Clone, Copy, PartialEq, Eq, Structural)]
pub enum PartitionTableType {
    /// Master Boot Record (legacy, max 2TB)
    MBR,
    /// GUID Partition Table (modern, supports >2TB)
    GPT,
    /// Unknown or unsupported
    Unknown,
}

/// Type of partition.
#[derive(Debug, Clone, Copy, PartialEq, Eq, Structural)]
pub enum PartitionType {
    /// Primary partition (MBR)
    Primary,
    /// Extended partition (MBR)
    Extended,
    /// Logical partition (MBR, inside extended)
    Logical,
    /// GPT partition (all partitions in GPT are "primary-like")
    Normal,
    /// Unknown type
    Unknown,
}

/// Filesystem type.
#[derive(Debug, Clone, Copy, PartialEq, Eq, Structural)]
pub enum FilesystemType {
    /// NTFS (Windows)
    NTFS,
    /// ext2 filesystem (Linux)
    Ext2,
    /// ext3 filesystem (Linux)
    Ext3,
    /// ext4 filesystem (Linux)
    Ext4,
    /// FAT32 filesystem
    FAT32,
    /// exFAT filesystem
    ExFAT,
    /// APFS (macOS)
    APFS,
    /// HFS+ (older macOS)
    HFSPlus,
    /// Unformatted/RAW
    RAW,
    /// Unknown filesystem
    Unknown,
}

/// Partition flags.
#[derive(Debug, Clone, Copy, PartialEq, Eq, Structural)]
pub enum PartitionFlag {
    /// Boot/Active partition
    Boot,
    /// Hidden partition
    Hidden,
    /// System partition
    System,
    /// Read-only
    ReadOnly,
    /// EFI system partition (ESP)
    Efi,
}

/// Health status.
#[derive(Debug, Clone, Copy, PartialEq, Eq, Structural)]
pub enum HealthStatus {
    /// Healthy, no issues
    Good,
    /// Warning, some issues detected
    Warning,
    /// Critical, imminent failure
    Critical,
    /// Unknown status
    Unknown,
}

/// SMART status information.
#[derive(Debug, Clone)]
pub struct SmartStatus {
    /// Overall health assessment
    pub health: HealthStatus,
    /// Temperature in whole degrees Celsius (if available)
    pub temperature: Option<i32>,
    /// Power-on hours (if available)
    pub power_on_hours: Option<u64>,
}

/// Disk health status.
#[derive(Debug, Clone)]
pub struct DiskStatus {
    /// Whether the disk is online and accessible
    pub is_online: bool,
    /// Whether the disk has any errors
    pub has_errors: bool,
    /// SMART status (if available)
    pub smart_status: Option<SmartStatus>,
}

/// Represents a partition on a disk.
#[derive(Debug, Clone)]
pub struct PartitionInfo {
    /// Unique identifier for the partition
    pub id: String,
    /// Partition number (1-based)
    pub number: u32,
    /// Device path (e.g., "/dev/sda1", "D:")
    pub device_path: String,
    /// Partition label/name (if any)
    pub label: Option<String>,
    /// Start offset in bytes
    pub start_offset: u64,
    /// Total size in bytes
    pub total_size: u64,
    /// Used space in bytes (if available)
    pub used_space: Option<u64>,
    /// Partition type
    pub partition_type: PartitionType,
    /// Filesystem type
    pub filesystem: FilesystemType,
    /// Mount point (e.g., "/" on Linux, "C:\" on Windows)
    pub mount_point: Option<String>,
    /// Whether the partition is mounted
    pub is_mounted: bool,
    /// Partition flags
    pub flags: Vec<PartitionFlag>,
}

/// Represents a physical disk: an immutable snapshot of its layout.
#[derive(Debug, Clone)]
pub struct DiskInfo {
    /// Unique identifier for the disk
    pub id: String,
    /// Device path (e.g., "/dev/sda" on Linux, "\\\\.\\PhysicalDrive0" on Windows)
    pub device_path: String,
    /// Disk model name
    pub model: String,
    /// Total size in bytes
    pub total_size: u64,
    /// Partition table type
    pub table_type: PartitionTableType,
    /// List of partitions on this disk, ordered by start offset
    pub partitions: Vec<PartitionInfo>,
    /// Disk serial number (if available)
    pub serial_number: Option<String>,
    /// Health status
    pub status: DiskStatus,
}

impl PartitionInfo {
    /// First byte past the end of the partition's extent.
    pub open spec fn spec_end(self) -> int {
        self.start_offset + self.total_size
    }

    /// Whether the partition holds live data.
    pub open spec fn spec_has_data(self) -> bool {
        match self.used_space {
            Some(u) => u > 0,
            None => false,
        }
    }

    /// Whether the partition carries the given flag.
    pub open spec fn spec_has_flag(self, flag: PartitionFlag) -> bool {
        self.flags@.contains(flag)
    }

    /// Whether the partition carries the given flag.
    pub fn has_flag(&self, flag: PartitionFlag) -> (r: bool)
        ensures
            r == self.spec_has_flag(flag),
    {
        let mut i: usize = 0;
        while i < self.flags.len()
            invariant
                i <= self.flags@.len(),
                forall|j: int| 0 <= j < i ==> self.flags@[j] != flag,
            decreases self.flags@.len() - i,
        {
            if self.flags[i] == flag {
                return true;
            }
            i = i + 1;
        }
        false
    }
}

/// Layout invariant of a partition list on a disk of `total` bytes: every
/// partition lies within the disk, and partitions are ordered by start
/// offset without overlap.
pub open spec fn spec_parts_wf(parts: Seq<PartitionInfo>, total: int) -> bool {
    &&& forall|i: int|
        0 <= i < parts.len() ==> (#[trigger] parts[i]).spec_end() <= total
    &&& forall|i: int, j: int|
        0 <= i < j < parts.len() ==> (#[trigger] parts[i]).spec_end() <= (
        #[trigger] parts[j]).start_offset
}

impl DiskInfo {
    /// Layout invariant of a disk snapshot: every partition lies within the
    /// disk, and partitions are ordered by start offset without overlap.
    pub open spec fn wf(self) -> bool {
        spec_parts_wf(self.partitions@, self.total_size as int)
    }
}

/// Every partition of a well-formed disk ends within the disk's extent:
/// `start_offset + total_size` never exceeds the disk's `total_size`.
pub proof fn lemma_partition_within_disk(disk: DiskInfo, i: int)
    requires
        disk.wf(),
        0 <= i < disk.partitions@.len(),
    ensures
        disk.partitions@[i].start_offset + disk.partitions@[i].total_size <= disk.total_size,
{
    assert(disk.partitions@[i].spec_end() <= disk.total_size);
}

/// The used space recorded for a partition, zero when unknown.
pub open spec fn spec_used_space(p: PartitionInfo) -> u64 {
    match p.used_space {
        Some(u) => u,
        None => 0,
    }
}

/// Meaning of `supports_resize`: exactly NTFS and the ext family.
pub open spec fn fs_supports_resize(fs: FilesystemType) -> bool {
    fs == FilesystemType::NTFS || fs == FilesystemType::Ext2 || fs == FilesystemType::Ext3
        || fs == FilesystemType::Ext4
}

/// The human-readable name of a filesystem, as `display_name` returns it.
pub open spec fn spec_fs_display_name(fs: FilesystemType) -> Seq<char> {
    match fs {
        FilesystemType::NTFS => "NTFS"@,
        FilesystemType::Ext2 => "ext2"@,
        FilesystemType::Ext3 => "ext3"@,
        FilesystemType::Ext4 => "ext4"@,
        FilesystemType::FAT32 => "FAT32"@,
        FilesystemType::ExFAT => "exFAT"@,
        FilesystemType::APFS => "APFS"@,
        FilesystemType::HFSPlus => "HFS+"@,
        FilesystemType::RAW => "Unformatted"@,
        FilesystemType::Unknown => "Unknown"@,
    }
}

impl FilesystemType {
    /// Get a human-readable name for the filesystem.
    pub fn display_name(&self) -> (r: &'static str)
        ensures
            r@ == spec_fs_display_name(*self),
    {
        match self {
            FilesystemType::NTFS => "NTFS",
            FilesystemType::Ext2 => "ext2",
            FilesystemType::Ext3 => "ext3",
            FilesystemType::Ext4 => "ext4",
            FilesystemType::FAT32 => "FAT32",
            FilesystemType::ExFAT => "exFAT",
            FilesystemType::APFS => "APFS",
            FilesystemType::HFSPlus => "HFS+",
            FilesystemType::RAW => "Unformatted",
            FilesystemType::Unknown => "Unknown",
        }
    }

    /// Check if this filesystem supports resize operations: true exactly for
    /// NTFS, ext2, ext3 and ext4.
    pub fn supports_resize(&self) -> (r: bool)
        ensures
            r == fs_supports_resize(*self),
    {
        matches!(
            self,
            FilesystemType::NTFS | FilesystemType::Ext2 | FilesystemType::Ext3
                | FilesystemType::Ext4
        )
    }
}

/// ASCII uppercase of a character; everything else is unchanged.
pub open spec fn spec_upper_char(c: char) -> char {
    if 'a' <= c && c <= 'z' {
        (((c as u32) - 32) as char)
    } else {
        c
    }
}

/// ASCII uppercase of a character sequence.
pub open spec fn spec_upper(s: Seq<char>) -> Seq<char> {
    s.map_values(|c: char| spec_upper_char(c))
}

/// The filesystem a backend's filesystem string denotes, compared ASCII
/// case-insensitively: NTFS, FAT32 (also plain FAT), exFAT and RAW are
/// recognized; everything else is unknown.
pub open spec fn spec_parse_filesystem(s: Seq<char>) -> FilesystemType {
    let u = spec_upper(s);
    if u == "NTFS"@ {
        FilesystemType::NTFS
    } else if u == "FAT32"@ {
        FilesystemType::FAT32
    } else if u == "EXFAT"@ {
        FilesystemType::ExFAT
    } else if u == "FAT"@ {
        FilesystemType::FAT32
    } else if u == "RAW"@ {
        FilesystemType::RAW
    } else {
        FilesystemType::Unknown
    }
}

/// ASCII uppercase of a character.
fn upper_char(c: char) -> (r: char)
    ensures
        r == spec_upper_char(c),
{
    if 'a' <= c && c <= 'z' {
        (((c as u32) - 32) as u8) as char
    } else {
        c
    }
}

/// Whether `s`, uppercased ASCII-wise, equals `t`.
fn eq_upper(s: &str, t: &str) -> (r: bool)
    ensures
        r == (spec_upper(s@) == t@),
{
    let sl = s.unicode_len();
    let tl = t.unicode_len();
    if sl != tl {
        proof {
            assert(spec_upper(s@).len() == s@.len());
        }
        return false;
    }
    let mut i: usize = 0;
    while i < sl
        invariant
            sl == s@.len(),
            tl == t@.len(),
            sl == tl,
            i <= sl,
            forall|j: int| 0 <= j < i ==> spec_upper_char(s@[j]) == t@[j],
        decreases sl - i,
    {
        if upper_char(s.get_char(i)) != t.get_char(i) {
            proof {
                assert(spec_upper(s@)[i as int] != t@[i as int]);
            }
            return false;
        }
        i = i + 1;
    }
    proof {
        assert(spec_upper(s@) =~= t@);
    }
    true
}

/// Parse a backend's filesystem string to the filesystem enum, ignoring
/// ASCII case.
pub fn parse_filesystem_type(fs_str: &str) -> (r: FilesystemType)
    ensures
        r == spec_parse_filesystem(fs_str@),
{
    if eq_upper(fs_str, "NTFS") {
        FilesystemType::NTFS
    } else if eq_upper(fs_str, "FAT32") {
        FilesystemType::FAT32
    } else if eq_upper(fs_str, "EXFAT") {
        FilesystemType::ExFAT
    } else if eq_upper(fs_str, "FAT") {
        FilesystemType::FAT32
    } else if eq_upper(fs_str, "RAW") {
        FilesystemType::RAW
    } else {
        FilesystemType::Unknown
    }
}

impl PartitionTableType {
    /// Get a human-readable name for the partition table type.
    pub fn display_name(&self) -> (r: &'static str)
        ensures
            r@ == match *self {
                PartitionTableType::MBR => "MBR"@,
                PartitionTableType::GPT => "GPT"@,
                PartitionTableType::Unknown => "Unknown"@,
            },
    {
        match self {
            PartitionTableType::MBR => "MBR",
            PartitionTableType::GPT => "GPT",
            PartitionTableType::Unknown => "Unknown",
        }
    }
}

} // verus!
