use partition_core::errors::PartitionError;
use partition_core::info::{get_disk_by_path, get_partition_info, get_partitions};
use partition_core::types::{DiskInfo, DiskStatus, FilesystemType, PartitionInfo,
    PartitionTableType, PartitionType};

fn part(id: &str) -> PartitionInfo {
    PartitionInfo {
        id: id.to_string(),
        number: 1,
        device_path: format!("/dev/{}", id),
        label: None,
        start_offset: 0,
        total_size: 1024,
        used_space: None,
        partition_type: PartitionType::Primary,
        filesystem: FilesystemType::Ext4,
        mount_point: None,
        is_mounted: false,
        flags: vec![],
    }
}

fn disk(path: &str, partitions: Vec<PartitionInfo>) -> DiskInfo {
    DiskInfo {
        id: path.to_string(),
        device_path: path.to_string(),
        model: "m".to_string(),
        total_size: 1 << 40,
        table_type: PartitionTableType::GPT,
        partitions,
        serial_number: None,
        status: DiskStatus { is_online: true, has_errors: false, smart_status: None },
    }
}

fn snapshot() -> Vec<DiskInfo> {
    vec![
        disk("/dev/sda", vec![part("sda1"), part("sda2")]),
        disk("/dev/sdb", vec![part("sdb1")]),
    ]
}

#[test]
fn disk_is_found_by_device_path() {
    let d = get_disk_by_path(snapshot(), "/dev/sdb").unwrap();
    assert_eq!(d.device_path, "/dev/sdb");
    assert_eq!(d.partitions.len(), 1);
}

#[test]
fn missing_disk_is_not_found() {
    let r = get_disk_by_path(snapshot(), "/dev/sdc");
    assert_eq!(
        r.unwrap_err(),
        PartitionError::NotFound { what: "Disk not found: /dev/sdc".to_string() }
    );
}

#[test]
fn partitions_of_a_disk() {
    let parts = get_partitions(snapshot(), "/dev/sda").unwrap();
    assert_eq!(parts.len(), 2);
    assert_eq!(parts[0].id, "sda1");
    assert_eq!(parts[1].id, "sda2");
}

#[test]
fn partitions_of_a_missing_disk() {
    let r = get_partitions(snapshot(), "/dev/sdz");
    assert_eq!(
        r.unwrap_err(),
        PartitionError::NotFound { what: "Disk not found: /dev/sdz".to_string() }
    );
}

#[test]
fn partition_is_found_across_disks() {
    let p = get_partition_info(snapshot(), "sdb1").unwrap();
    assert_eq!(p.id, "sdb1");
    assert_eq!(p.device_path, "/dev/sdb1");
}

#[test]
fn missing_partition_is_not_found() {
    let r = get_partition_info(snapshot(), "sdq9");
    assert_eq!(
        r.unwrap_err(),
        PartitionError::NotFound { what: "Partition not found: sdq9".to_string() }
    );
}
