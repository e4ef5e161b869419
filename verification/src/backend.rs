//! The boundary to the platform-native disk-management backend: the
//! platforms the library plans for, and the literal command forms it hands
//! to the surrounding application for execution.  The library only decides
//! and sequences; executing a command is the caller's job.

use vstd::prelude::*;
use crate::types::FilesystemType;

verus! {

/// The platform whose backend executes the destructive commands.  Selected
/// once at process start by the caller and passed in explicitly.
#[derive(Debug, Clone, Copy, PartialEq, Eq, Structural)]
pub enum Platform {
    /// Backend addressing mounted volumes by drive letter (diskpart-style).
    Windows,
    /// Backend addressing disks by device path and partition number
    /// (parted-style).
    Linux,
    /// Backend erasing volumes by device path (diskutil-style).
    MacOs,
}

/// A single request to the platform backend, in the literal forms the
/// backend takes.
#[derive(Debug, Clone, PartialEq, Eq)]
pub enum BackendCommand {
    /// Resize the partition-table entry of the volume to `size_mb`
    /// megabytes (a table-extend request when growing).
    TableResize { volume: String, size_mb: u64 },
    /// Delete the partition-table entry of the volume.
    TableDelete { volume: String },
    /// Erase the device at the given path.
    EraseVolume { device_path: String },
    /// Remove partition `partition_number` from the disk device.
    RemoveByNumber { disk_device: String, partition_number: String },
    /// Grow the filesystem on the device to fill its partition.
    FilesystemGrow { filesystem: FilesystemType, device_path: String, dry_run: bool },
    /// Shrink the filesystem on the device to `size_mb` megabytes.
    FilesystemShrink { filesystem: FilesystemType, device_path: String, size_mb: u64, dry_run: bool },
}

} // verus!
