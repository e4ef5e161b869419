//! Lookups against a disk snapshot: resolving a disk by device path and a
//! partition by id.  The snapshot itself comes from the platform backend;
//! these functions only resolve identities against it.

use vstd::prelude::*;
use vstd::string::StringExecFns;
use crate::errors::PartitionError;
use crate::planner::{find_by_id, spec_find_id};
use crate::types::{DiskInfo, PartitionInfo};

verus! {

/// Index of the first disk whose device path is `path`, or -1.
pub open spec fn spec_find_disk(disks: Seq<DiskInfo>, path: Seq<char>) -> int
    decreases disks.len(),
{
    if disks.len() == 0 {
        -1
    } else if disks[0].device_path@ == path {
        0
    } else {
        let rest = spec_find_disk(disks.subrange(1, disks.len() as int), path);
        if rest < 0 {
            -1
        } else {
            1 + rest
        }
    }
}

/// Index of the first disk holding a partition with id `id`, or -1.
pub open spec fn spec_find_disk_with_partition(disks: Seq<DiskInfo>, id: Seq<char>) -> int
    decreases disks.len(),
{
    if disks.len() == 0 {
        -1
    } else if spec_find_id(disks[0].partitions@, id) >= 0 {
        0
    } else {
        let rest = spec_find_disk_with_partition(disks.subrange(1, disks.len() as int), id);
        if rest < 0 {
            -1
        } else {
            1 + rest
        }
    }
}

pub open spec fn spec_disk_not_found_msg(path: Seq<char>) -> Seq<char> {
    "Disk not found: "@ + path
}

pub open spec fn spec_partition_not_found_msg(id: Seq<char>) -> Seq<char> {
    "Partition not found: "@ + id
}

proof fn lemma_find_disk(disks: Seq<DiskInfo>, path: Seq<char>, i: int)
    requires
        0 <= i <= disks.len(),
        forall|j: int| 0 <= j < i ==> (#[trigger] disks[j]).device_path@ != path,
        i < disks.len() ==> disks[i].device_path@ == path,
    ensures
        spec_find_disk(disks, path) == if i < disks.len() {
            i
        } else {
            -1
        },
    decreases disks.len(),
{
    if disks.len() > 0 {
        if disks[0].device_path@ == path {
            assert(i == 0);
        } else {
            let rest = disks.subrange(1, disks.len() as int);
            assert(forall|j: int| 0 <= j < i - 1 ==> (#[trigger] rest[j]).device_path@ != path);
            lemma_find_disk(rest, path, i - 1);
        }
    }
}

proof fn lemma_find_disk_with_partition(disks: Seq<DiskInfo>, id: Seq<char>, i: int)
    requires
        0 <= i <= disks.len(),
        forall|j: int| 0 <= j < i ==> spec_find_id((#[trigger] disks[j]).partitions@, id) < 0,
        i < disks.len() ==> spec_find_id(disks[i].partitions@, id) >= 0,
    ensures
        spec_find_disk_with_partition(disks, id) == if i < disks.len() {
            i
        } else {
            -1
        },
    decreases disks.len(),
{
    if disks.len() > 0 {
        if spec_find_id(disks[0].partitions@, id) >= 0 {
            assert(i == 0);
        } else {
            let rest = disks.subrange(1, disks.len() as int);
            assert(forall|j: int|
                0 <= j < i - 1 ==> spec_find_id((#[trigger] rest[j]).partitions@, id) < 0);
            lemma_find_disk_with_partition(rest, id, i - 1);
        }
    }
}

/// Resolve a disk of the snapshot by its device path; the first disk with
/// that path is returned, and a missing path is `NotFound`.
pub fn get_disk_by_path(disks: Vec<DiskInfo>, path: &str) -> (r: Result<DiskInfo, PartitionError>)
    ensures
        spec_find_disk(disks@, path@) < 0 ==> (r matches Err(PartitionError::NotFound { what })
            && what@ == spec_disk_not_found_msg(path@)),
        spec_find_disk(disks@, path@) >= 0 ==> (r matches Ok(d) && d == disks@[spec_find_disk(
            disks@,
            path@,
        )]),
{
    let mut i: usize = 0;
    while i < disks.len()
        invariant
            i <= disks@.len(),
            forall|j: int| 0 <= j < i ==> (#[trigger] disks@[j]).device_path@ != path@,
        decreases disks@.len() - i,
    {
        if crate::text::str_eq(disks[i].device_path.as_str(), path) {
            proof {
                lemma_find_disk(disks@, path@, i as int);
            }
            let mut disks = disks;
            let d = disks.remove(i);
            return Ok(d);
        }
        i = i + 1;
    }
    proof {
        lemma_find_disk(disks@, path@, disks@.len() as int);
    }
    let mut what = String::from_str("Disk not found: ");
    what.append(path);
    proof {
        assert(what@ =~= spec_disk_not_found_msg(path@));
    }
    Err(PartitionError::NotFound { what })
}

/// All partitions of the disk at the given device path.
pub fn get_partitions(disks: Vec<DiskInfo>, disk_path: &str) -> (r: Result<
    Vec<PartitionInfo>,
    PartitionError,
>)
    ensures
        spec_find_disk(disks@, disk_path@) < 0 ==> (r matches Err(PartitionError::NotFound {
            what,
        }) && what@ == spec_disk_not_found_msg(disk_path@)),
        spec_find_disk(disks@, disk_path@) >= 0 ==> (r matches Ok(parts) && parts
            == disks@[spec_find_disk(disks@, disk_path@)].partitions),
{
    match get_disk_by_path(disks, disk_path) {
        Ok(d) => Ok(d.partitions),
        Err(e) => Err(e),
    }
}

/// Detailed information about the partition with the given id: the first
/// match over the snapshot's disks in order.
pub fn get_partition_info(disks: Vec<DiskInfo>, partition_id: &str) -> (r: Result<
    PartitionInfo,
    PartitionError,
>)
    ensures
        spec_find_disk_with_partition(disks@, partition_id@) < 0 ==> (r matches Err(
            PartitionError::NotFound { what },
        ) && what@ == spec_partition_not_found_msg(partition_id@)),
        spec_find_disk_with_partition(disks@, partition_id@) >= 0 ==> {
            let di = spec_find_disk_with_partition(disks@, partition_id@);
            let pi = spec_find_id(disks@[di].partitions@, partition_id@);
            r matches Ok(p) && p == disks@[di].partitions@[pi]
        },
{
    let mut i: usize = 0;
    while i < disks.len()
        invariant
            i <= disks@.len(),
            forall|j: int|
                0 <= j < i ==> spec_find_id((#[trigger] disks@[j]).partitions@, partition_id@)
                    < 0,
        decreases disks@.len() - i,
    {
        match find_by_id(&disks[i].partitions, partition_id) {
            Some(pi) => {
                proof {
                    lemma_find_disk_with_partition(disks@, partition_id@, i as int);
                }
                let mut disks = disks;
                let mut d = disks.remove(i);
                let p = d.partitions.remove(pi);
                return Ok(p);
            },
            None => {},
        }
        i = i + 1;
    }
    proof {
        lemma_find_disk_with_partition(disks@, partition_id@, disks@.len() as int);
    }
    let mut what = String::from_str("Partition not found: ");
    what.append(partition_id);
    proof {
        assert(what@ =~= spec_partition_not_found_msg(partition_id@));
    }
    Err(PartitionError::NotFound { what })
}

} // verus!
