//! Partition deletion: the safety advisory for a pending delete, the
//! platform-specific command a delete request turns into, and the
//! classification of the backend tool's output.
//!
//! Deleting a partition destroys all data on it; the advisory never blocks
//! the caller, it only warns.

use vstd::prelude::*;
use vstd::string::StrSliceExecFns;
use vstd::string::StringExecFns;
use crate::backend::{BackendCommand, Platform};
use crate::errors::PartitionError;
use crate::format::{spec_scaled_two_dec, GIB};
use crate::text::{spec_contains_sub, spec_digit_suffix_len, digit_suffix_start, str_contains};
use crate::types::{spec_used_space, PartitionFlag, PartitionInfo};

verus! {

pub open spec fn spec_boot_warning() -> Seq<char> {
    "CRITICAL: This is a BOOT partition! Deleting it will make your system UNBOOTABLE!"@
}

pub open spec fn spec_system_warning() -> Seq<char> {
    "CRITICAL: This is a SYSTEM partition! Deleting it may make your system UNBOOTABLE!"@
}

pub open spec fn spec_efi_warning() -> Seq<char> {
    "CRITICAL: This is an EFI partition! Deleting it will make your system UNBOOTABLE!"@
}

pub open spec fn spec_data_loss_warning(used: u64) -> Seq<char> {
    "This partition contains "@ + spec_scaled_two_dec(used, GIB)
        + " GB of data. ALL DATA WILL BE LOST!"@
}

pub open spec fn spec_mounted_warning(mount: Seq<char>) -> Seq<char> {
    "Partition is currently mounted at "@ + mount + ". It will be unmounted during deletion."@
}

/// The warnings a pending delete of `p` produces, in order: Boot flag,
/// System flag, EFI flag, live data, mounted.
pub open spec fn spec_delete_warnings(p: PartitionInfo) -> Seq<Seq<char>> {
    (if p.spec_has_flag(PartitionFlag::Boot) {
        seq![spec_boot_warning()]
    } else {
        Seq::<Seq<char>>::empty()
    }) + (if p.spec_has_flag(PartitionFlag::System) {
        seq![spec_system_warning()]
    } else {
        Seq::<Seq<char>>::empty()
    }) + (if p.spec_has_flag(PartitionFlag::Efi) {
        seq![spec_efi_warning()]
    } else {
        Seq::<Seq<char>>::empty()
    }) + (if p.spec_has_data() {
        seq![spec_data_loss_warning(spec_used_space(p))]
    } else {
        Seq::<Seq<char>>::empty()
    }) + (if p.is_mounted && p.mount_point is Some {
        seq![spec_mounted_warning(p.mount_point.unwrap()@)]
    } else {
        Seq::<Seq<char>>::empty()
    })
}

/// Produce the ordered advisory warnings for deleting `partition`: one per
/// triggered condition, in the fixed order flags (Boot, System, EFI), then
/// live data (with the size in GB to two decimals), then mount point.  An
/// empty list means no condition triggered.  Advisory only: never blocks.
pub fn validate_delete(partition: &PartitionInfo) -> (warnings: Vec<String>)
    ensures
        warnings.deep_view() == spec_delete_warnings(*partition),
{
    let mut warnings: Vec<String> = Vec::new();
    if partition.has_flag(PartitionFlag::Boot) {
        warnings.push(String::from_str(
            "CRITICAL: This is a BOOT partition! Deleting it will make your system UNBOOTABLE!",
        ));
    }
    if partition.has_flag(PartitionFlag::System) {
        warnings.push(String::from_str(
            "CRITICAL: This is a SYSTEM partition! Deleting it may make your system UNBOOTABLE!",
        ));
    }
    if partition.has_flag(PartitionFlag::Efi) {
        warnings.push(String::from_str(
            "CRITICAL: This is an EFI partition! Deleting it will make your system UNBOOTABLE!",
        ));
    }
    let used = match &partition.used_space {
        Some(u) => *u,
        None => 0,
    };
    if used > 0 {
        let mut msg = String::from_str("This partition contains ");
        msg.append(crate::format::scaled_two_dec(used, GIB).as_str());
        msg.append(" GB of data. ALL DATA WILL BE LOST!");
        proof {
            assert(msg@ =~= spec_data_loss_warning(used));
        }
        warnings.push(msg);
    }
    if partition.is_mounted {
        if let Some(mount) = &partition.mount_point {
            let mut msg = String::from_str("Partition is currently mounted at ");
            msg.append(mount.as_str());
            msg.append(". It will be unmounted during deletion.");
            proof {
                assert(msg@ =~= spec_mounted_warning(mount@));
            }
            warnings.push(msg);
        }
    }
    proof {
        assert(warnings.deep_view() =~~= spec_delete_warnings(*partition));
    }
    warnings
}

pub open spec fn spec_unmounted_delete_msg() -> Seq<char> {
    "Cannot delete unmounted partition on Windows. Please assign a drive letter first or use Disk Management."@
}

pub open spec fn spec_invalid_mount_msg() -> Seq<char> {
    "Invalid mount point format"@
}

/// What `delete_partition` decides for each platform, as a total
/// description of its result.
pub open spec fn spec_delete_decision(p: PartitionInfo, platform: Platform, r: Result<
    BackendCommand,
    PartitionError,
>) -> bool {
    match platform {
        Platform::Windows => match p.mount_point {
            Some(mp) => if mp@.len() == 0 {
                r matches Err(PartitionError::Unsupported { reason })
                    && reason@ == spec_invalid_mount_msg()
            } else {
                r matches Ok(BackendCommand::TableDelete { volume }) && volume@ == mp@.subrange(
                    0,
                    1,
                )
            },
            None => r matches Err(PartitionError::Unsupported { reason }) && reason@
                == spec_unmounted_delete_msg(),
        },
        Platform::MacOs => r matches Ok(BackendCommand::EraseVolume { device_path })
            && device_path@ == p.device_path@,
        Platform::Linux => {
            let dp = p.device_path@;
            let cut = dp.len() - spec_digit_suffix_len(dp);
            r matches Ok(BackendCommand::RemoveByNumber { disk_device, partition_number })
                && disk_device@ == dp.subrange(0, cut) && partition_number@ == dp.subrange(
                cut,
                dp.len() as int,
            )
        },
    }
}

/// Turn a delete request into the platform backend's command.
///
/// On the Windows-style backend the partition must be mounted: the command
/// addresses the volume by its drive letter (the mount point's first
/// character); an unmounted partition is rejected as unsupported.  The
/// macOS-style backend erases the device by path.  The Linux-style backend
/// derives the partition number from the trailing digits of the device path
/// and the disk device from the rest.
pub fn delete_partition(partition: &PartitionInfo, platform: Platform) -> (r: Result<
    BackendCommand,
    PartitionError,
>)
    ensures
        spec_delete_decision(*partition, platform, r),
{
    match platform {
        Platform::Windows => {
            match &partition.mount_point {
                Some(mp) => {
                    let mplen = mp.as_str().unicode_len();
                    if mplen == 0 {
                        Err(
                            PartitionError::Unsupported {
                                reason: String::from_str("Invalid mount point format"),
                            },
                        )
                    } else {
                        let volume = String::from_str(mp.as_str().substring_char(0, 1));
                        Ok(BackendCommand::TableDelete { volume })
                    }
                },
                None => Err(
                    PartitionError::Unsupported {
                        reason: String::from_str(
                            "Cannot delete unmounted partition on Windows. Please assign a drive letter first or use Disk Management.",
                        ),
                    },
                ),
            }
        },
        Platform::MacOs => Ok(
            BackendCommand::EraseVolume { device_path: partition.device_path.clone() },
        ),
        Platform::Linux => {
            let dp = partition.device_path.as_str();
            let len = dp.unicode_len();
            let cut = digit_suffix_start(dp);
            let disk_device = String::from_str(dp.substring_char(0, cut));
            let partition_number = String::from_str(dp.substring_char(cut, len));
            Ok(BackendCommand::RemoveByNumber { disk_device, partition_number })
        },
    }
}

/// Texts whose presence in the tool's output indicates success.
pub open spec fn spec_delete_output_success(out: Seq<char>) -> bool {
    spec_contains_sub(out, "successfully"@) || spec_contains_sub(out, "deleted"@)
        || spec_contains_sub(out, "removed"@)
}

/// Texts whose presence in the tool's output indicates failure.
pub open spec fn spec_delete_output_failure(out: Seq<char>) -> bool {
    spec_contains_sub(out, "error"@) || spec_contains_sub(out, "failed"@)
}

/// Classify the backend tool's outcome for a delete.  A nonzero exit status
/// is a failure carrying the captured output verbatim.  On a zero exit
/// status the output is searched heuristically: success keywords accept,
/// failure keywords reject, and an output with neither is accepted.
pub fn classify_delete_output(exit_success: bool, stdout: String, stderr: String) -> (r: Result<
    (),
    PartitionError,
>)
    ensures
        !exit_success ==> (r matches Err(PartitionError::ExternalToolFailure {
            stdout: so,
            stderr: se,
        }) && so@ == stdout@ && se@ == stderr@),
        exit_success && spec_delete_output_success(stdout@) ==> r is Ok,
        exit_success && !spec_delete_output_success(stdout@) && spec_delete_output_failure(stdout@)
            ==> (r matches Err(PartitionError::ExternalToolFailure { stdout: so, stderr: se })
            && so@ == stdout@ && se@ == stderr@),
        exit_success && !spec_delete_output_success(stdout@) && !spec_delete_output_failure(
            stdout@,
        ) ==> r is Ok,
{
    if !exit_success {
        return Err(PartitionError::ExternalToolFailure { stdout, stderr });
    }
    if str_contains(stdout.as_str(), "successfully") || str_contains(stdout.as_str(), "deleted")
        || str_contains(stdout.as_str(), "removed") {
        return Ok(());
    }
    if str_contains(stdout.as_str(), "error") || str_contains(stdout.as_str(), "failed") {
        return Err(PartitionError::ExternalToolFailure { stdout, stderr });
    }
    Ok(())
}

} // verus!
