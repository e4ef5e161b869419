//! Feasibility checks for expand and shrink requests against a disk
//! snapshot.  The checks fail fast: the first failing condition produces a
//! blocking message and the result is marked infeasible.

use vstd::prelude::*;
use vstd::string::StringExecFns;
use crate::format::{spec_dec, u64_to_string};
use crate::types::{fs_supports_resize, spec_fs_display_name, spec_used_space, DiskInfo,
    FilesystemType, PartitionInfo};

verus! {

/// Outcome of a feasibility check: a feasibility flag plus the blocking
/// reasons.  Success does not promise the absence of advisory messages.
#[derive(Debug, Clone)]
pub struct ValidationResult {
    /// Whether the request is feasible.
    pub is_valid: bool,
    /// Blocking reasons, in the order checked.
    pub messages: Vec<String>,
}

/// The lowest start offset at or past `pend` among `parts`, or `total` if no
/// partition starts there: the first byte after `pend` that is already
/// occupied, bounding the contiguous free space that follows `pend`.
pub open spec fn spec_next_start(parts: Seq<PartitionInfo>, pend: int, total: int) -> int
    decreases parts.len(),
{
    if parts.len() == 0 {
        total
    } else {
        let rest = spec_next_start(parts.drop_last(), pend, total);
        if parts.last().start_offset >= pend && parts.last().start_offset < rest {
            parts.last().start_offset as int
        } else {
            rest
        }
    }
}

/// Contiguous free space immediately following the partition ending at
/// `pend`, derived from the disk's partition layout.
pub open spec fn spec_free_after(disk: DiskInfo, pend: int) -> int {
    spec_next_start(disk.partitions@, pend, disk.total_size as int) - pend
}

pub open spec fn spec_expand_too_small_msg() -> Seq<char> {
    "Target size must be larger than the current partition size"@
}

pub open spec fn spec_no_resize_msg(fs: FilesystemType) -> Seq<char> {
    "Filesystem "@ + spec_fs_display_name(fs) + " does not support resizing"@
}

pub open spec fn spec_no_space_msg(available: u64, requested: u64) -> Seq<char> {
    "Not enough free space after the partition. Available: "@ + spec_dec(available as nat)
        + " bytes, requested: "@ + spec_dec(requested as nat) + " bytes"@
}

pub open spec fn spec_shrink_too_large_msg() -> Seq<char> {
    "Target size must be smaller than the current partition size"@
}

pub open spec fn spec_below_used_msg(used: u64) -> Seq<char> {
    "Cannot shrink below used space: "@ + spec_dec(used as nat) + " bytes are in use"@
}

/// The first occupied byte at or past `pend`, as an executable computation
/// over the disk's partition list.
fn next_start(disk: &DiskInfo, pend: u64) -> (r: u64)
    requires
        pend <= disk.total_size,
    ensures
        r as int == spec_next_start(disk.partitions@, pend as int, disk.total_size as int),
        pend <= r <= disk.total_size,
{
    let parts = &disk.partitions;
    let mut acc: u64 = disk.total_size;
    let mut i: usize = 0;
    proof {
        assert(parts@.take(0) =~= Seq::<PartitionInfo>::empty());
    }
    while i < parts.len()
        invariant
            i <= parts@.len(),
            pend <= acc <= disk.total_size,
            acc as int == spec_next_start(parts@.take(i as int), pend as int,
                disk.total_size as int),
        decreases parts@.len() - i,
    {
        let p = &parts[i];
        if p.start_offset >= pend && p.start_offset < acc {
            acc = p.start_offset;
        }
        proof {
            assert(parts@.take(i + 1).drop_last() =~= parts@.take(i as int));
            assert(parts@.take(i + 1).last() == parts@[i as int]);
        }
        i = i + 1;
    }
    proof {
        assert(parts@.take(parts@.len() as int) =~= parts@);
    }
    acc
}

/// Feasibility of expanding `partition` (a partition of `disk`) to
/// `target_size` bytes: the target must exceed the current size, the
/// filesystem must support resizing, and enough contiguous free space must
/// exist immediately after the partition on the disk.
pub fn validate_expand(partition: &PartitionInfo, disk: &DiskInfo, target_size: u64) -> (r:
    ValidationResult)
    requires
        disk.wf(),
        disk.partitions@.contains(*partition),
    ensures
        r.is_valid == (target_size > partition.total_size && fs_supports_resize(
            partition.filesystem,
        ) && spec_free_after(*disk, partition.spec_end()) >= target_size - partition.total_size),
        target_size <= partition.total_size ==> r.messages@.len() == 1 && r.messages@[0]@
            == spec_expand_too_small_msg(),
        target_size > partition.total_size && !fs_supports_resize(partition.filesystem)
            ==> r.messages@.len() == 1 && r.messages@[0]@ == spec_no_resize_msg(
            partition.filesystem,
        ),
        target_size > partition.total_size && fs_supports_resize(partition.filesystem)
            && spec_free_after(*disk, partition.spec_end()) < target_size - partition.total_size
            ==> r.messages@.len() == 1 && r.messages@[0]@ == spec_no_space_msg(
            (spec_free_after(*disk, partition.spec_end())) as u64,
            (target_size - partition.total_size) as u64,
        ),
        r.is_valid ==> r.messages@.len() == 0,
{
    proof {
        let i = choose|i: int|
            0 <= i < disk.partitions@.len() && disk.partitions@[i] == *partition;
        assert(disk.partitions@[i].spec_end() <= disk.total_size);
    }
    let pend = partition.start_offset + partition.total_size;
    if target_size <= partition.total_size {
        let mut messages: Vec<String> = Vec::new();
        messages.push(String::from_str(
            "Target size must be larger than the current partition size",
        ));
        return ValidationResult { is_valid: false, messages };
    }
    if !partition.filesystem.supports_resize() {
        let mut msg = String::from_str("Filesystem ");
        msg.append(partition.filesystem.display_name());
        msg.append(" does not support resizing");
        proof {
            assert(msg@ =~= spec_no_resize_msg(partition.filesystem));
        }
        let mut messages: Vec<String> = Vec::new();
        messages.push(msg);
        return ValidationResult { is_valid: false, messages };
    }
    let free = next_start(disk, pend) - pend;
    let needed = target_size - partition.total_size;
    if free < needed {
        let mut msg = String::from_str("Not enough free space after the partition. Available: ");
        msg.append(u64_to_string(free).as_str());
        msg.append(" bytes, requested: ");
        msg.append(u64_to_string(needed).as_str());
        msg.append(" bytes");
        proof {
            assert(msg@ =~= spec_no_space_msg(free, needed));
        }
        let mut messages: Vec<String> = Vec::new();
        messages.push(msg);
        return ValidationResult { is_valid: false, messages };
    }
    ValidationResult { is_valid: true, messages: Vec::new() }
}

/// Feasibility of shrinking `partition` to `target_size` bytes: the target
/// must be below the current size, must not cut into live data, and the
/// filesystem must support resizing.
pub fn validate_shrink(partition: &PartitionInfo, target_size: u64) -> (r: ValidationResult)
    ensures
        r.is_valid == (target_size < partition.total_size && target_size >= spec_used_space(*partition)
            && fs_supports_resize(partition.filesystem)),
        target_size >= partition.total_size ==> r.messages@.len() == 1 && r.messages@[0]@
            == spec_shrink_too_large_msg(),
        target_size < partition.total_size && target_size < spec_used_space(*partition)
            ==> r.messages@.len() == 1 && r.messages@[0]@ == spec_below_used_msg(
            spec_used_space(*partition),
        ),
        target_size < partition.total_size && target_size >= spec_used_space(*partition)
            && !fs_supports_resize(partition.filesystem) ==> r.messages@.len() == 1
            && r.messages@[0]@ == spec_no_resize_msg(partition.filesystem),
        r.is_valid ==> r.messages@.len() == 0,
{
    if target_size >= partition.total_size {
        let mut messages: Vec<String> = Vec::new();
        messages.push(String::from_str(
            "Target size must be smaller than the current partition size",
        ));
        return ValidationResult { is_valid: false, messages };
    }
    let used = match &partition.used_space {
        Some(u) => *u,
        None => 0,
    };
    if target_size < used {
        let mut msg = String::from_str("Cannot shrink below used space: ");
        msg.append(u64_to_string(used).as_str());
        msg.append(" bytes are in use");
        proof {
            assert(msg@ =~= spec_below_used_msg(used));
        }
        let mut messages: Vec<String> = Vec::new();
        messages.push(msg);
        return ValidationResult { is_valid: false, messages };
    }
    if !partition.filesystem.supports_resize() {
        let mut msg = String::from_str("Filesystem ");
        msg.append(partition.filesystem.display_name());
        msg.append(" does not support resizing");
        proof {
            assert(msg@ =~= spec_no_resize_msg(partition.filesystem));
        }
        let mut messages: Vec<String> = Vec::new();
        messages.push(msg);
        return ValidationResult { is_valid: false, messages };
    }
    ValidationResult { is_valid: true, messages: Vec::new() }
}

} // verus!
