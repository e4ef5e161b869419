//! The resize orchestrator: turns an expand or shrink request into the
//! ordered sequence of progress events and backend commands that drives the
//! operation.  Expand is table-first (extend the table entry, then grow the
//! filesystem); shrink is filesystem-first.  Any platform/filesystem
//! combination without a backend implementation is rejected as unsupported
//! before any command is issued.

use vstd::prelude::*;
use vstd::string::StrSliceExecFns;
use vstd::string::StringExecFns;
use crate::backend::{BackendCommand, Platform};
use crate::errors::PartitionError;
use crate::format::{format_bytes, spec_format_bytes, MIB};
use crate::progress::{spec_can_cancel, spec_phase_index, ResizePhase, ResizeProgress};
use crate::types::{fs_supports_resize, spec_fs_display_name, spec_used_space, FilesystemType,
    PartitionInfo};

verus! {

/// One step of a resize run: the progress event to publish, and the backend
/// command (if any) to execute before moving on.  A command failure aborts
/// the run; the caller then publishes an error event.
#[derive(Debug, Clone)]
pub struct ResizeStep {
    /// The progress event for this step.
    pub progress: ResizeProgress,
    /// The backend command this step executes, if any.
    pub command: Option<BackendCommand>,
}

/// A step with the given phase, percent and message, carrying no command.
pub open spec fn spec_step_plain(s: ResizeStep, phase: ResizePhase, percent: int, msg: Seq<
    char,
>) -> bool {
    &&& s.progress.phase == phase
    &&& s.progress.percent == percent
    &&& s.progress.message@ == msg
    &&& s.progress.can_cancel == spec_can_cancel(phase)
    &&& s.command is None
}

/// The progress fields of a step, leaving its command open.
pub open spec fn spec_step_progress(s: ResizeStep, phase: ResizePhase, percent: int, msg: Seq<
    char,
>) -> bool {
    &&& s.progress.phase == phase
    &&& s.progress.percent == percent
    &&& s.progress.message@ == msg
    &&& s.progress.can_cancel == spec_can_cancel(phase)
}

pub open spec fn spec_table_expand_unsupported_msg() -> Seq<char> {
    "Partition table expansion not yet implemented for this platform"@
}

pub open spec fn spec_table_shrink_unsupported_msg() -> Seq<char> {
    "Partition table resize not yet implemented for this platform"@
}

pub open spec fn spec_no_drive_letter_msg() -> Seq<char> {
    "No drive letter found for partition"@
}

pub open spec fn spec_ext_expand_platform_msg() -> Seq<char> {
    "ext4 resize is only supported on Linux"@
}

pub open spec fn spec_ext_shrink_platform_msg() -> Seq<char> {
    "ext4 shrink is only supported on Linux"@
}

pub open spec fn spec_fs_expand_unsupported_msg(fs: FilesystemType) -> Seq<char> {
    "Filesystem expansion not supported for "@ + spec_fs_display_name(fs)
}

/// Whether the partition is addressable by a drive letter: mounted at a
/// non-empty mount point.
pub open spec fn spec_has_drive_letter(p: PartitionInfo) -> bool {
    match p.mount_point {
        Some(mp) => mp@.len() > 0,
        None => false,
    }
}

pub open spec fn spec_expanding_msg(p: PartitionInfo, target_size: u64) -> Seq<char> {
    "Expanding partition "@ + p.device_path@ + " to "@ + spec_format_bytes(target_size) + "..."@
}

pub open spec fn spec_shrinking_msg(p: PartitionInfo, target_size: u64) -> Seq<char> {
    "Shrinking partition "@ + p.device_path@ + " to "@ + spec_format_bytes(target_size) + "..."@
}

/// The step sequence of a successful expand: table entry first, then the
/// filesystem (a no-op for NTFS on its native platform), with strictly
/// ordered phases.
pub open spec fn spec_expand_steps(p: PartitionInfo, target_size: u64, steps: Seq<
    ResizeStep,
>) -> bool {
    let mp = p.mount_point.unwrap()@;
    &&& steps.len() == 6
    &&& spec_step_plain(steps[0], ResizePhase::Validating, 5, "Starting validation..."@)
    &&& spec_step_plain(
        steps[1],
        ResizePhase::CheckingFilesystem,
        15,
        "Checking filesystem integrity..."@,
    )
    &&& spec_step_progress(
        steps[2],
        ResizePhase::UpdatingPartitionTable,
        70,
        "Updating partition table..."@,
    )
    &&& (steps[2].command matches Some(BackendCommand::TableResize { volume, size_mb })
        && volume@ == mp.subrange(0, 1) && size_mb == target_size / MIB)
    &&& spec_step_plain(
        steps[3],
        ResizePhase::ExpandingFilesystem,
        70,
        spec_expanding_msg(p, target_size),
    )
    &&& spec_step_plain(steps[4], ResizePhase::Verifying, 95, "Verifying resize..."@)
    &&& spec_step_plain(
        steps[5],
        ResizePhase::Complete,
        100,
        "Partition expanded successfully!"@,
    )
}

/// The step sequence of a successful shrink: the filesystem is shrunk
/// before the table entry.
pub open spec fn spec_shrink_steps(p: PartitionInfo, target_size: u64, steps: Seq<
    ResizeStep,
>) -> bool {
    let mp = p.mount_point.unwrap()@;
    &&& steps.len() == 6
    &&& spec_step_plain(steps[0], ResizePhase::Validating, 5, "Starting validation..."@)
    &&& spec_step_plain(
        steps[1],
        ResizePhase::CheckingFilesystem,
        15,
        "Checking filesystem integrity..."@,
    )
    &&& spec_step_progress(
        steps[2],
        ResizePhase::ResizingFilesystem,
        30,
        spec_shrinking_msg(p, target_size),
    )
    &&& (steps[2].command matches Some(BackendCommand::FilesystemShrink {
        filesystem,
        device_path,
        size_mb,
        dry_run,
    }) && filesystem == p.filesystem && device_path@ == p.device_path@ && size_mb == target_size
        / MIB && dry_run == false)
    &&& spec_step_progress(
        steps[3],
        ResizePhase::UpdatingPartitionTable,
        70,
        "Updating partition table..."@,
    )
    &&& (steps[3].command matches Some(BackendCommand::TableResize { volume, size_mb })
        && volume@ == mp.subrange(0, 1) && size_mb == target_size / MIB)
    &&& spec_step_plain(steps[4], ResizePhase::Verifying, 95, "Verifying resize..."@)
    &&& spec_step_plain(steps[5], ResizePhase::Complete, 100, "Partition shrunk successfully!"@)
}

/// What `expand_partition` decides, as a total description of its result.
pub open spec fn spec_expand_decision(p: PartitionInfo, target_size: u64, platform: Platform, r:
    Result<Vec<ResizeStep>, PartitionError>) -> bool {
    if platform != Platform::Windows {
        r matches Err(PartitionError::Unsupported { reason }) && reason@
            == spec_table_expand_unsupported_msg()
    } else if !spec_has_drive_letter(p) {
        r matches Err(PartitionError::Unsupported { reason }) && reason@
            == spec_no_drive_letter_msg()
    } else if p.filesystem == FilesystemType::NTFS {
        r matches Ok(steps) && spec_expand_steps(p, target_size, steps@)
    } else if fs_supports_resize(p.filesystem) {
        r matches Err(PartitionError::Unsupported { reason }) && reason@
            == spec_ext_expand_platform_msg()
    } else {
        r matches Err(PartitionError::Unsupported { reason }) && reason@
            == spec_fs_expand_unsupported_msg(p.filesystem)
    }
}

/// What `shrink_partition` decides, as a total description of its result.
pub open spec fn spec_shrink_decision(p: PartitionInfo, target_size: u64, platform: Platform, r:
    Result<Vec<ResizeStep>, PartitionError>) -> bool {
    if platform != Platform::Windows {
        r matches Err(PartitionError::Unsupported { reason }) && reason@
            == spec_table_shrink_unsupported_msg()
    } else if !spec_has_drive_letter(p) {
        r matches Err(PartitionError::Unsupported { reason }) && reason@
            == spec_no_drive_letter_msg()
    } else if p.filesystem == FilesystemType::NTFS {
        r matches Ok(steps) && spec_shrink_steps(p, target_size, steps@)
    } else {
        r matches Err(PartitionError::Unsupported { reason }) && reason@
            == spec_ext_shrink_platform_msg()
    }
}

/// Phases strictly increase and percent never decreases along `steps`.
pub open spec fn spec_steps_ordered(steps: Seq<ResizeStep>) -> bool {
    forall|i: int, j: int|
        0 <= i < j < steps.len() ==> #[trigger] spec_phase_index(steps[i].progress.phase)
            < #[trigger] spec_phase_index(steps[j].progress.phase) && steps[i].progress.percent
            <= steps[j].progress.percent
}

/// Plan the expansion of `partition` to `target_size` bytes.
///
/// Two ordered sub-steps, both of which must succeed: extend the
/// partition-table entry (a table resize naming the drive letter, supported
/// on the Windows-style backend only), then expand the filesystem to fill
/// the new extent.  NTFS is grown by the table step itself on that backend
/// and needs no separate command; the ext family would need the Linux-only
/// grow tool; every other filesystem has no implementation.  The returned
/// steps carry strictly ordered phases with non-decreasing percent.
pub fn expand_partition(partition: &PartitionInfo, target_size: u64, platform: Platform) -> (r:
    Result<Vec<ResizeStep>, PartitionError>)
    ensures
        spec_expand_decision(*partition, target_size, platform, r),
        r matches Ok(steps) ==> spec_steps_ordered(steps@),
{
    if !matches!(platform, Platform::Windows) {
        return Err(
            PartitionError::Unsupported {
                reason: String::from_str(
                    "Partition table expansion not yet implemented for this platform",
                ),
            },
        );
    }
    let volume = match drive_letter(partition) {
        Some(v) => v,
        None => {
            return Err(
                PartitionError::Unsupported {
                    reason: String::from_str("No drive letter found for partition"),
                },
            );
        },
    };
    if !matches!(partition.filesystem, FilesystemType::NTFS) {
        if partition.filesystem.supports_resize() {
            return Err(
                PartitionError::Unsupported {
                    reason: String::from_str("ext4 resize is only supported on Linux"),
                },
            );
        }
        let mut reason = String::from_str("Filesystem expansion not supported for ");
        reason.append(partition.filesystem.display_name());
        proof {
            assert(reason@ =~= spec_fs_expand_unsupported_msg(partition.filesystem));
        }
        return Err(PartitionError::Unsupported { reason });
    }
    let size_mb = target_size / MIB;
    let mut expanding_msg = String::from_str("Expanding partition ");
    expanding_msg.append(partition.device_path.as_str());
    expanding_msg.append(" to ");
    expanding_msg.append(format_bytes(target_size).as_str());
    expanding_msg.append("...");
    proof {
        assert(expanding_msg@ =~= spec_expanding_msg(*partition, target_size));
    }
    let mut steps: Vec<ResizeStep> = Vec::new();
    steps.push(
        ResizeStep {
            progress: ResizeProgress::validating("Starting validation..."),
            command: None,
        },
    );
    steps.push(
        ResizeStep {
            progress: ResizeProgress::checking_filesystem("Checking filesystem integrity..."),
            command: None,
        },
    );
    steps.push(
        ResizeStep {
            progress: ResizeProgress::updating_partition_table("Updating partition table..."),
            command: Some(BackendCommand::TableResize { volume, size_mb }),
        },
    );
    steps.push(
        ResizeStep {
            progress: ResizeProgress::expanding_filesystem(0, expanding_msg.as_str()),
            command: None,
        },
    );
    steps.push(
        ResizeStep {
            progress: ResizeProgress::verifying("Verifying resize..."),
            command: None,
        },
    );
    steps.push(
        ResizeStep {
            progress: ResizeProgress::complete("Partition expanded successfully!"),
            command: None,
        },
    );
    Ok(steps)
}

/// Plan the shrink of `partition` to `target_size` bytes.
///
/// Callers must have validated the request first (`validate_shrink`): the
/// target is below the current size, does not cut into live data, and the
/// filesystem supports resizing.  The filesystem is shrunk before the table
/// entry; only the Windows-style backend with a drive-lettered NTFS volume
/// has an implementation.
pub fn shrink_partition(partition: &PartitionInfo, target_size: u64, platform: Platform) -> (r:
    Result<Vec<ResizeStep>, PartitionError>)
    requires
        target_size < partition.total_size,
        target_size >= spec_used_space(*partition),
        fs_supports_resize(partition.filesystem),
    ensures
        spec_shrink_decision(*partition, target_size, platform, r),
        r matches Ok(steps) ==> spec_steps_ordered(steps@),
{
    if !matches!(platform, Platform::Windows) {
        return Err(
            PartitionError::Unsupported {
                reason: String::from_str(
                    "Partition table resize not yet implemented for this platform",
                ),
            },
        );
    }
    let volume = match drive_letter(partition) {
        Some(v) => v,
        None => {
            return Err(
                PartitionError::Unsupported {
                    reason: String::from_str("No drive letter found for partition"),
                },
            );
        },
    };
    if !matches!(partition.filesystem, FilesystemType::NTFS) {
        return Err(
            PartitionError::Unsupported {
                reason: String::from_str("ext4 shrink is only supported on Linux"),
            },
        );
    }
    let size_mb = target_size / MIB;
    let mut shrinking_msg = String::from_str("Shrinking partition ");
    shrinking_msg.append(partition.device_path.as_str());
    shrinking_msg.append(" to ");
    shrinking_msg.append(format_bytes(target_size).as_str());
    shrinking_msg.append("...");
    proof {
        assert(shrinking_msg@ =~= spec_shrinking_msg(*partition, target_size));
    }
    let mut steps: Vec<ResizeStep> = Vec::new();
    steps.push(
        ResizeStep {
            progress: ResizeProgress::validating("Starting validation..."),
            command: None,
        },
    );
    steps.push(
        ResizeStep {
            progress: ResizeProgress::checking_filesystem("Checking filesystem integrity..."),
            command: None,
        },
    );
    steps.push(
        ResizeStep {
            progress: ResizeProgress::resizing_filesystem(0, shrinking_msg.as_str()),
            command: Some(
                BackendCommand::FilesystemShrink {
                    filesystem: partition.filesystem,
                    device_path: partition.device_path.clone(),
                    size_mb,
                    dry_run: false,
                },
            ),
        },
    );
    steps.push(
        ResizeStep {
            progress: ResizeProgress::updating_partition_table("Updating partition table..."),
            command: Some(BackendCommand::TableResize { volume, size_mb }),
        },
    );
    steps.push(
        ResizeStep {
            progress: ResizeProgress::verifying("Verifying resize..."),
            command: None,
        },
    );
    steps.push(
        ResizeStep {
            progress: ResizeProgress::complete("Partition shrunk successfully!"),
            command: None,
        },
    );
    Ok(steps)
}

/// The drive letter of a mounted partition: the first character of its
/// mount point, as a volume name for the table backend.
fn drive_letter(partition: &PartitionInfo) -> (r: Option<String>)
    ensures
        match r {
            Some(v) => spec_has_drive_letter(*partition) && v@
                == partition.mount_point.unwrap()@.subrange(0, 1),
            None => !spec_has_drive_letter(*partition),
        },
{
    match &partition.mount_point {
        Some(mp) => {
            if mp.as_str().unicode_len() == 0 {
                None
            } else {
                Some(String::from_str(mp.as_str().substring_char(0, 1)))
            }
        },
        None => None,
    }
}

} // verus!
