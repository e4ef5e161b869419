use partition_core::backend::{BackendCommand, Platform};
use partition_core::errors::PartitionError;
use partition_core::progress::{ResizePhase, ResizeProgress};
use partition_core::resize::{expand_partition, shrink_partition};
use partition_core::types::{FilesystemType, PartitionInfo, PartitionType};

const GB: u64 = 1024 * 1024 * 1024;
const MB: u64 = 1024 * 1024;

fn ntfs_volume() -> PartitionInfo {
    PartitionInfo {
        id: "p1".to_string(),
        number: 1,
        device_path: "C:".to_string(),
        label: Some("System".to_string()),
        start_offset: MB,
        total_size: 50 * GB,
        used_space: Some(10 * GB),
        partition_type: PartitionType::Primary,
        filesystem: FilesystemType::NTFS,
        mount_point: Some("C:".to_string()),
        is_mounted: true,
        flags: vec![],
    }
}

fn phase_index(p: &ResizePhase) -> u32 {
    match p {
        ResizePhase::Validating => 0,
        ResizePhase::CheckingFilesystem => 1,
        ResizePhase::CreatingBackup => 2,
        ResizePhase::ResizingFilesystem => 3,
        ResizePhase::UpdatingPartitionTable => 4,
        ResizePhase::ExpandingFilesystem => 5,
        ResizePhase::Verifying => 6,
        ResizePhase::Complete => 7,
        ResizePhase::Error => 8,
    }
}

#[test]
fn constructor_percents_follow_the_state_machine() {
    assert_eq!(ResizeProgress::validating("v").percent, 5);
    assert_eq!(ResizeProgress::checking_filesystem("c").percent, 15);
    assert_eq!(ResizeProgress::creating_backup("b").percent, 25);
    assert_eq!(ResizeProgress::resizing_filesystem(0, "r").percent, 30);
    assert_eq!(ResizeProgress::resizing_filesystem(100, "r").percent, 60);
    assert_eq!(ResizeProgress::updating_partition_table("u").percent, 70);
    assert_eq!(ResizeProgress::expanding_filesystem(0, "e").percent, 70);
    assert_eq!(ResizeProgress::expanding_filesystem(100, "e").percent, 90);
    assert_eq!(ResizeProgress::verifying("v").percent, 95);
    assert_eq!(ResizeProgress::complete("c").percent, 100);
}

#[test]
fn cancellation_is_offered_only_before_destructive_work() {
    assert!(ResizeProgress::validating("v").can_cancel);
    assert!(ResizeProgress::checking_filesystem("c").can_cancel);
    assert!(!ResizeProgress::creating_backup("b").can_cancel);
    assert!(!ResizeProgress::resizing_filesystem(50, "r").can_cancel);
    assert!(!ResizeProgress::updating_partition_table("u").can_cancel);
    assert!(!ResizeProgress::expanding_filesystem(50, "e").can_cancel);
    assert!(!ResizeProgress::verifying("v").can_cancel);
    assert!(!ResizeProgress::complete("c").can_cancel);
}

#[test]
fn error_event_resets_percent_to_zero() {
    let e = ResizeProgress::error("diskpart failed");
    assert!(matches!(e.phase, ResizePhase::Error));
    assert_eq!(e.percent, 0);
    assert!(!e.can_cancel);
    assert_eq!(e.message, "diskpart failed");
}

#[test]
fn successful_expand_is_strictly_phase_ordered_with_nondecreasing_percent() {
    let steps = expand_partition(&ntfs_volume(), 60 * GB, Platform::Windows).unwrap();
    assert!(steps.len() >= 2);
    assert!(matches!(steps[0].progress.phase, ResizePhase::Validating));
    assert!(matches!(steps[steps.len() - 1].progress.phase, ResizePhase::Complete));
    assert_eq!(steps[steps.len() - 1].progress.percent, 100);
    for w in steps.windows(2) {
        assert!(phase_index(&w[0].progress.phase) < phase_index(&w[1].progress.phase));
        assert!(w[0].progress.percent <= w[1].progress.percent);
    }
}

#[test]
fn expand_issues_the_table_extend_command_for_the_volume() {
    let steps = expand_partition(&ntfs_volume(), 60 * GB, Platform::Windows).unwrap();
    let cmds: Vec<&BackendCommand> = steps.iter().filter_map(|s| s.command.as_ref()).collect();
    assert_eq!(cmds.len(), 1);
    assert_eq!(
        *cmds[0],
        BackendCommand::TableResize { volume: "C".to_string(), size_mb: 60 * 1024 }
    );
    // The table step is the UpdatingPartitionTable phase.
    let table_step = steps.iter().find(|s| s.command.is_some()).unwrap();
    assert!(matches!(table_step.progress.phase, ResizePhase::UpdatingPartitionTable));
}

#[test]
fn expand_is_unsupported_off_the_windows_backend() {
    let r = expand_partition(&ntfs_volume(), 60 * GB, Platform::Linux);
    assert_eq!(
        r.unwrap_err(),
        PartitionError::Unsupported {
            reason: "Partition table expansion not yet implemented for this platform".to_string()
        }
    );
}

#[test]
fn expand_requires_a_drive_letter() {
    let mut p = ntfs_volume();
    p.mount_point = None;
    let r = expand_partition(&p, 60 * GB, Platform::Windows);
    assert_eq!(
        r.unwrap_err(),
        PartitionError::Unsupported { reason: "No drive letter found for partition".to_string() }
    );
}

#[test]
fn expand_of_ext_needs_the_linux_grow_tool() {
    let mut p = ntfs_volume();
    p.filesystem = FilesystemType::Ext4;
    let r = expand_partition(&p, 60 * GB, Platform::Windows);
    assert_eq!(
        r.unwrap_err(),
        PartitionError::Unsupported { reason: "ext4 resize is only supported on Linux".to_string() }
    );
}

#[test]
fn expand_of_other_filesystems_is_unsupported() {
    let mut p = ntfs_volume();
    p.filesystem = FilesystemType::APFS;
    let r = expand_partition(&p, 60 * GB, Platform::Windows);
    assert_eq!(
        r.unwrap_err(),
        PartitionError::Unsupported {
            reason: "Filesystem expansion not supported for APFS".to_string()
        }
    );
}

#[test]
fn shrink_is_filesystem_first() {
    let steps = shrink_partition(&ntfs_volume(), 40 * GB, Platform::Windows).unwrap();
    let cmd_phases: Vec<&ResizePhase> = steps
        .iter()
        .filter(|s| s.command.is_some())
        .map(|s| &s.progress.phase)
        .collect();
    assert_eq!(cmd_phases.len(), 2);
    assert!(matches!(cmd_phases[0], ResizePhase::ResizingFilesystem));
    assert!(matches!(cmd_phases[1], ResizePhase::UpdatingPartitionTable));

    let fs_cmd = steps.iter().find_map(|s| s.command.as_ref()).unwrap();
    assert_eq!(
        *fs_cmd,
        BackendCommand::FilesystemShrink {
            filesystem: FilesystemType::NTFS,
            device_path: "C:".to_string(),
            size_mb: 40 * 1024,
            dry_run: false,
        }
    );

    for w in steps.windows(2) {
        assert!(phase_index(&w[0].progress.phase) < phase_index(&w[1].progress.phase));
        assert!(w[0].progress.percent <= w[1].progress.percent);
    }
}

#[test]
fn shrink_is_unsupported_off_the_windows_backend() {
    let r = shrink_partition(&ntfs_volume(), 40 * GB, Platform::MacOs);
    assert_eq!(
        r.unwrap_err(),
        PartitionError::Unsupported {
            reason: "Partition table resize not yet implemented for this platform".to_string()
        }
    );
}

#[test]
fn progress_messages_name_the_partition_and_size() {
    let steps = expand_partition(&ntfs_volume(), 60 * GB, Platform::Windows).unwrap();
    let expanding = steps
        .iter()
        .find(|s| matches!(s.progress.phase, ResizePhase::ExpandingFilesystem))
        .unwrap();
    assert_eq!(expanding.progress.message, "Expanding partition C: to 60.00 GB...");
}
