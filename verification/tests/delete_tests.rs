use partition_core::backend::{BackendCommand, Platform};
use partition_core::delete::{classify_delete_output, delete_partition, validate_delete};
use partition_core::errors::PartitionError;
use partition_core::types::{FilesystemType, PartitionFlag, PartitionInfo, PartitionType};

const GB: u64 = 1024 * 1024 * 1024;

fn base_partition() -> PartitionInfo {
    PartitionInfo {
        id: "p1".to_string(),
        number: 1,
        device_path: "/dev/sda1".to_string(),
        label: None,
        start_offset: 0,
        total_size: 10 * GB,
        used_space: Some(0),
        partition_type: PartitionType::Primary,
        filesystem: FilesystemType::Ext4,
        mount_point: None,
        is_mounted: false,
        flags: vec![],
    }
}

#[test]
fn no_condition_no_warnings() {
    let p = base_partition();
    assert!(validate_delete(&p).is_empty());
}

#[test]
fn boot_flag_adds_one_warning() {
    let mut p = base_partition();
    p.flags = vec![PartitionFlag::Boot];
    let w = validate_delete(&p);
    assert_eq!(w.len(), 1);
    assert_eq!(
        w[0],
        "CRITICAL: This is a BOOT partition! Deleting it will make your system UNBOOTABLE!"
    );
}

#[test]
fn system_flag_adds_one_warning() {
    let mut p = base_partition();
    p.flags = vec![PartitionFlag::System];
    let w = validate_delete(&p);
    assert_eq!(w.len(), 1);
    assert_eq!(
        w[0],
        "CRITICAL: This is a SYSTEM partition! Deleting it may make your system UNBOOTABLE!"
    );
}

#[test]
fn efi_flag_adds_one_warning() {
    let mut p = base_partition();
    p.flags = vec![PartitionFlag::Efi];
    let w = validate_delete(&p);
    assert_eq!(w.len(), 1);
    assert_eq!(
        w[0],
        "CRITICAL: This is an EFI partition! Deleting it will make your system UNBOOTABLE!"
    );
}

#[test]
fn used_space_adds_one_warning_with_gb_two_decimals() {
    let mut p = base_partition();
    p.used_space = Some(GB + GB / 2);
    let w = validate_delete(&p);
    assert_eq!(w.len(), 1);
    assert_eq!(
        w[0],
        "This partition contains 1.50 GB of data. ALL DATA WILL BE LOST!"
    );
}

#[test]
fn mounted_adds_one_warning_naming_the_mount_point() {
    let mut p = base_partition();
    p.is_mounted = true;
    p.mount_point = Some("/mnt/data".to_string());
    let w = validate_delete(&p);
    assert_eq!(w.len(), 1);
    assert_eq!(
        w[0],
        "Partition is currently mounted at /mnt/data. It will be unmounted during deletion."
    );
}

#[test]
fn mounted_without_mount_point_adds_no_warning() {
    let mut p = base_partition();
    p.is_mounted = true;
    let w = validate_delete(&p);
    assert!(w.is_empty());
}

#[test]
fn all_conditions_in_fixed_order() {
    let mut p = base_partition();
    p.flags = vec![PartitionFlag::Boot, PartitionFlag::System, PartitionFlag::Efi];
    p.used_space = Some(2 * GB);
    p.is_mounted = true;
    p.mount_point = Some("E:".to_string());
    let w = validate_delete(&p);
    assert_eq!(w.len(), 5);
    assert!(w[0].contains("BOOT"));
    assert!(w[1].contains("SYSTEM"));
    assert!(w[2].contains("EFI"));
    assert!(w[3].contains("2.00 GB of data"));
    assert!(w[4].contains("mounted at E:"));
}

#[test]
fn windows_delete_requires_mounted_volume() {
    let p = base_partition();
    let r = delete_partition(&p, Platform::Windows);
    assert_eq!(
        r.unwrap_err(),
        PartitionError::Unsupported {
            reason: "Cannot delete unmounted partition on Windows. \
                     Please assign a drive letter first or use Disk Management."
                .to_string()
        }
    );
}

#[test]
fn windows_delete_selects_volume_by_drive_letter() {
    let mut p = base_partition();
    p.mount_point = Some("E:".to_string());
    let cmd = delete_partition(&p, Platform::Windows).unwrap();
    assert_eq!(cmd, BackendCommand::TableDelete { volume: "E".to_string() });
}

#[test]
fn windows_delete_rejects_empty_mount_point() {
    let mut p = base_partition();
    p.mount_point = Some("".to_string());
    let r = delete_partition(&p, Platform::Windows);
    assert_eq!(
        r.unwrap_err(),
        PartitionError::Unsupported { reason: "Invalid mount point format".to_string() }
    );
}

#[test]
fn macos_delete_erases_by_device_path() {
    let mut p = base_partition();
    p.device_path = "disk0s2".to_string();
    let cmd = delete_partition(&p, Platform::MacOs).unwrap();
    assert_eq!(cmd, BackendCommand::EraseVolume { device_path: "disk0s2".to_string() });
}

#[test]
fn linux_delete_derives_disk_and_number_from_device_path() {
    let mut p = base_partition();
    p.device_path = "/dev/sda12".to_string();
    let cmd = delete_partition(&p, Platform::Linux).unwrap();
    assert_eq!(
        cmd,
        BackendCommand::RemoveByNumber {
            disk_device: "/dev/sda".to_string(),
            partition_number: "12".to_string(),
        }
    );
}

#[test]
fn linux_delete_takes_only_the_trailing_digits() {
    let mut p = base_partition();
    p.device_path = "/dev/mmcblk0p3".to_string();
    let cmd = delete_partition(&p, Platform::Linux).unwrap();
    assert_eq!(
        cmd,
        BackendCommand::RemoveByNumber {
            disk_device: "/dev/mmcblk0p".to_string(),
            partition_number: "3".to_string(),
        }
    );
}

#[test]
fn linux_delete_with_no_digits_yields_empty_number() {
    let mut p = base_partition();
    p.device_path = "/dev/sda".to_string();
    let cmd = delete_partition(&p, Platform::Linux).unwrap();
    assert_eq!(
        cmd,
        BackendCommand::RemoveByNumber {
            disk_device: "/dev/sda".to_string(),
            partition_number: "".to_string(),
        }
    );
}

#[test]
fn nonzero_exit_is_tool_failure_with_verbatim_output() {
    let r = classify_delete_output(false, "out".to_string(), "boom".to_string());
    assert_eq!(
        r.unwrap_err(),
        PartitionError::ExternalToolFailure { stdout: "out".to_string(), stderr: "boom".to_string() }
    );
}

#[test]
fn success_keyword_accepts() {
    assert!(classify_delete_output(true, "Volume deleted successfully.".to_string(),
        String::new()).is_ok());
    assert!(classify_delete_output(true, "entry removed".to_string(), String::new()).is_ok());
}

#[test]
fn failure_keyword_rejects() {
    let r = classify_delete_output(true, "an error occurred".to_string(), "se".to_string());
    assert_eq!(
        r.unwrap_err(),
        PartitionError::ExternalToolFailure {
            stdout: "an error occurred".to_string(),
            stderr: "se".to_string()
        }
    );
}

#[test]
fn success_keyword_wins_over_failure_keyword() {
    assert!(classify_delete_output(true, "deleted despite error".to_string(), String::new())
        .is_ok());
}

#[test]
fn neutral_output_with_zero_exit_is_accepted() {
    assert!(classify_delete_output(true, "done".to_string(), String::new()).is_ok());
}
