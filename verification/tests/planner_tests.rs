use partition_core::errors::PartitionError;
use partition_core::planner::{create_reallocation_plan, SourcePartitionAction, StepActionType};
use partition_core::types::{DiskInfo, DiskStatus, FilesystemType, PartitionFlag, PartitionInfo,
    PartitionTableType, PartitionType};

const GB: u64 = 1024 * 1024 * 1024;

fn test_disk() -> DiskInfo {
    DiskInfo {
        id: "disk-0".to_string(),
        device_path: "\\\\.\\PhysicalDrive0".to_string(),
        model: "Test Disk".to_string(),
        total_size: 100 * 1024 * 1024 * 1024,
        table_type: PartitionTableType::GPT,
        partitions: vec![
            PartitionInfo {
                id: "part-c".to_string(),
                number: 1,
                device_path: "C:".to_string(),
                label: Some("System".to_string()),
                start_offset: 1024 * 1024,
                total_size: 50 * 1024 * 1024 * 1024,
                used_space: Some(50 * 1024 * 1024 * 1024),
                partition_type: PartitionType::Primary,
                filesystem: FilesystemType::NTFS,
                mount_point: Some("C:".to_string()),
                is_mounted: true,
                flags: vec![PartitionFlag::Boot, PartitionFlag::System],
            },
            PartitionInfo {
                id: "part-e".to_string(),
                number: 2,
                device_path: "E:".to_string(),
                label: Some("Data".to_string()),
                start_offset: 50 * 1024 * 1024 * 1024 + 1024 * 1024,
                total_size: 20 * 1024 * 1024 * 1024,
                used_space: Some(1 * 1024 * 1024 * 1024),
                partition_type: PartitionType::Primary,
                filesystem: FilesystemType::NTFS,
                mount_point: Some("E:".to_string()),
                is_mounted: true,
                flags: vec![],
            },
        ],
        serial_number: None,
        status: DiskStatus { is_online: true, has_errors: false, smart_status: None },
    }
}

#[test]
fn test_simple_reallocation_plan() {
    let disk = test_disk();

    let plan = create_reallocation_plan(&disk, "part-c", 15 * 1024 * 1024 * 1024).unwrap();

    assert_eq!(plan.source_partitions.len(), 1);
    assert_eq!(plan.source_partitions[0].partition_id, "part-e");
    assert!(plan.warnings.len() > 0); // Should warn about data on E:
    assert!(plan.steps.len() >= 3); // Backup warning + delete + expand
}

#[test]
fn trailing_case_details() {
    let disk = test_disk();
    let plan = create_reallocation_plan(&disk, "part-c", 15 * GB).unwrap();

    assert_eq!(plan.target_partition_id, "part-c");
    assert_eq!(plan.total_space_freed, 20 * GB);
    assert_eq!(plan.target_new_size, 65 * GB);
    assert_eq!(plan.source_partitions[0].partition_label, "Data");
    assert_eq!(plan.source_partitions[0].current_size, 20 * GB);
    assert_eq!(plan.source_partitions[0].used_space, Some(1 * GB));
    assert!(matches!(plan.source_partitions[0].action, SourcePartitionAction::DeleteEntirely));

    assert_eq!(plan.warnings.len(), 1);
    assert_eq!(
        plan.warnings[0],
        "Partition E: (Data) contains 1.00 GB of data. \
         YOU MUST BACKUP THIS DATA before proceeding!"
    );

    assert_eq!(plan.steps.len(), 3);
    let backup = &plan.steps[0];
    assert_eq!(backup.step_number, 1);
    assert_eq!(backup.title, "BACKUP YOUR DATA");
    assert_eq!(
        backup.description,
        "The following partitions will be deleted: Data. Back up any important data NOW!"
    );
    assert!(matches!(backup.action_type, StepActionType::UserManual));
    assert!(!backup.can_automate);

    let del = &plan.steps[1];
    assert_eq!(del.step_number, 2);
    assert_eq!(del.title, "Delete partition Data");
    assert_eq!(del.description, "Delete Data (frees 20.00 GB of space)");
    assert!(matches!(del.action_type, StepActionType::AppAssistedManual));
    assert!(del.can_automate);

    let expand = &plan.steps[2];
    assert_eq!(expand.step_number, 3);
    assert_eq!(expand.title, "Expand C:");
    assert_eq!(
        expand.description,
        "Expand C: from 50.00 GB to 65.00 GB (+15.00 GB)"
    );
    assert!(matches!(expand.action_type, StepActionType::AppAutomated));
    assert!(expand.can_automate);
}

#[test]
fn no_trailing_partition_case() {
    // Disk total 100 GB, target partition [0, 50 GB), request +15 GB.
    let disk = DiskInfo {
        id: "disk-1".to_string(),
        device_path: "/dev/sda".to_string(),
        model: "Test".to_string(),
        total_size: 100 * GB,
        table_type: PartitionTableType::GPT,
        partitions: vec![PartitionInfo {
            id: "p1".to_string(),
            number: 1,
            device_path: "/dev/sda1".to_string(),
            label: None,
            start_offset: 0,
            total_size: 50 * GB,
            used_space: Some(10 * GB),
            partition_type: PartitionType::Primary,
            filesystem: FilesystemType::Ext4,
            mount_point: Some("/".to_string()),
            is_mounted: true,
            flags: vec![],
        }],
        serial_number: None,
        status: DiskStatus { is_online: true, has_errors: false, smart_status: None },
    };

    let plan = create_reallocation_plan(&disk, "p1", 15 * GB).unwrap();
    assert!(plan.source_partitions.is_empty());
    assert_eq!(plan.target_new_size, 65 * GB);
    assert_eq!(plan.total_space_freed, 50 * GB);
    assert!(plan.warnings.is_empty());
    assert_eq!(plan.steps.len(), 1);
    assert_eq!(plan.steps[0].step_number, 1);
    assert_eq!(plan.steps[0].title, "Expand partition");
    assert_eq!(
        plan.steps[0].description,
        "Expand /dev/sda1 from 50.00 GB to 65.00 GB"
    );
    assert!(matches!(plan.steps[0].action_type, StepActionType::AppAutomated));
    assert!(plan.steps[0].can_automate);
}

#[test]
fn no_trailing_partition_insufficient_space() {
    let disk = DiskInfo {
        id: "disk-1".to_string(),
        device_path: "/dev/sda".to_string(),
        model: "Test".to_string(),
        total_size: 100 * GB,
        table_type: PartitionTableType::GPT,
        partitions: vec![PartitionInfo {
            id: "p1".to_string(),
            number: 1,
            device_path: "/dev/sda1".to_string(),
            label: None,
            start_offset: 0,
            total_size: 50 * GB,
            used_space: None,
            partition_type: PartitionType::Primary,
            filesystem: FilesystemType::Ext4,
            mount_point: None,
            is_mounted: false,
            flags: vec![],
        }],
        serial_number: None,
        status: DiskStatus { is_online: true, has_errors: false, smart_status: None },
    };

    let r = create_reallocation_plan(&disk, "p1", 60 * GB);
    assert_eq!(
        r.unwrap_err(),
        PartitionError::InsufficientSpace { needed: 60 * GB, available: 50 * GB }
    );
}

#[test]
fn trailing_insufficient_space_returns_error_and_no_plan() {
    // The sum of all eligible trailing partitions (20 GB) is below the
    // request, so no plan with steps is produced.
    let disk = test_disk();
    let r = create_reallocation_plan(&disk, "part-c", 40 * GB);
    assert_eq!(
        r.unwrap_err(),
        PartitionError::InsufficientSpace { needed: 40 * GB, available: 20 * GB }
    );
}

#[test]
fn target_not_found() {
    let disk = test_disk();
    let r = create_reallocation_plan(&disk, "nope", GB);
    assert_eq!(
        r.unwrap_err(),
        PartitionError::NotFound { what: "Target partition not found".to_string() }
    );
}

#[test]
fn consumes_only_as_many_partitions_as_needed() {
    let mut disk = test_disk();
    disk.partitions.push(PartitionInfo {
        id: "part-f".to_string(),
        number: 3,
        device_path: "F:".to_string(),
        label: None,
        start_offset: 70 * GB + 1024 * 1024,
        total_size: 20 * GB,
        used_space: Some(0),
        partition_type: PartitionType::Primary,
        filesystem: FilesystemType::NTFS,
        mount_point: None,
        is_mounted: false,
        flags: vec![],
    });

    // 15 GB is covered by E: alone; F: must not be consumed.
    let plan = create_reallocation_plan(&disk, "part-c", 15 * GB).unwrap();
    assert_eq!(plan.source_partitions.len(), 1);
    assert_eq!(plan.source_partitions[0].partition_id, "part-e");

    // 30 GB needs both; the unlabeled F: is listed under its device path.
    let plan = create_reallocation_plan(&disk, "part-c", 30 * GB).unwrap();
    assert_eq!(plan.source_partitions.len(), 2);
    assert_eq!(plan.source_partitions[1].partition_id, "part-f");
    assert_eq!(plan.source_partitions[1].partition_label, "F:");
    assert_eq!(plan.total_space_freed, 40 * GB);
    // One warning (E: has data, F: does not), so steps are:
    // backup + two deletes + expand.
    assert_eq!(plan.warnings.len(), 1);
    assert_eq!(plan.steps.len(), 4);
    assert_eq!(plan.steps[2].title, "Delete partition F:");
    assert_eq!(plan.steps[3].step_number, 4);
    assert_eq!(plan.steps[3].title, "Expand C:");
}

#[test]
fn fixture_partitions_lie_within_disk() {
    // Every partition of the fixtures satisfies the layout invariant:
    // start_offset + total_size never exceeds the disk's total size.
    let disk = test_disk();
    for p in &disk.partitions {
        assert!(p.start_offset + p.total_size <= disk.total_size);
    }
}
