//! The reallocation planner: computes a sequenced plan that frees space for
//! a target partition by consuming the partitions physically after it.
//!
//! The planner only plans.  The plan is an execution guide for the caller;
//! each of its steps still flows through the resize orchestrator or the
//! delete executor individually, and nothing here touches a disk.

use vstd::prelude::*;
use vstd::string::StringExecFns;
use crate::errors::PartitionError;
use crate::format::{format_bytes, spec_format_bytes};
use crate::text::str_eq;
use crate::types::{spec_parts_wf, spec_used_space, DiskInfo, PartitionInfo};

verus! {

/// Plan for reallocating space from trailing partitions to a target
/// partition.
#[derive(Debug, Clone)]
pub struct ReallocationPlan {
    /// The partition that needs more space
    pub target_partition_id: String,
    /// The partitions that will be consumed to free space
    pub source_partitions: Vec<SourcePartitionPlan>,
    /// Total space that will be freed (bytes)
    pub total_space_freed: u64,
    /// New size for the target partition after reallocation (bytes)
    pub target_new_size: u64,
    /// Steps the user must follow
    pub steps: Vec<ReallocationStep>,
    /// Warnings about this operation
    pub warnings: Vec<String>,
}

/// One partition the plan consumes.
#[derive(Debug, Clone)]
pub struct SourcePartitionPlan {
    pub partition_id: String,
    pub partition_label: String,
    pub current_size: u64,
    pub used_space: Option<u64>,
    pub action: SourcePartitionAction,
}

/// What the plan does with a source partition.  The planner itself only
/// ever chooses whole-partition deletion; the other actions are part of the
/// data model for callers that plan differently.
#[derive(Debug, Clone, Copy, PartialEq, Eq, Structural)]
pub enum SourcePartitionAction {
    /// Shrink partition to this size, then delete
    ShrinkAndDelete { shrink_to: u64 },
    /// Delete partition entirely
    DeleteEntirely,
    /// Keep partition but shrink it
    ShrinkOnly { new_size: u64 },
}

/// One step of the plan.
#[derive(Debug, Clone)]
pub struct ReallocationStep {
    pub step_number: usize,
    pub title: String,
    pub description: String,
    pub action_type: StepActionType,
    pub can_automate: bool,
}

/// Who performs a step.
#[derive(Debug, Clone, Copy, PartialEq, Eq, Structural)]
pub enum StepActionType {
    /// User must do this manually
    UserManual,
    /// App can do this automatically
    AppAutomated,
    /// App guides but user confirms each action
    AppAssistedManual,
}

/// Index of the first partition whose id is `id`, or -1 if none has it.
pub open spec fn spec_find_id(parts: Seq<PartitionInfo>, id: Seq<char>) -> int
    decreases parts.len(),
{
    if parts.len() == 0 {
        -1
    } else if parts[0].id@ == id {
        0
    } else {
        let rest = spec_find_id(parts.subrange(1, parts.len() as int), id);
        if rest < 0 {
            -1
        } else {
            1 + rest
        }
    }
}

/// The partitions starting at or past `pend`, in their stored order (which
/// a well-formed disk keeps ascending by start offset).
pub open spec fn spec_trailing(parts: Seq<PartitionInfo>, pend: int) -> Seq<PartitionInfo>
    decreases parts.len(),
{
    if parts.len() == 0 {
        Seq::empty()
    } else {
        spec_trailing(parts.drop_last(), pend) + (if parts.last().start_offset >= pend {
            seq![parts.last()]
        } else {
            Seq::empty()
        })
    }
}

/// Total byte size of a partition list.
pub open spec fn spec_sum_sizes(parts: Seq<PartitionInfo>) -> int
    decreases parts.len(),
{
    if parts.len() == 0 {
        0
    } else {
        spec_sum_sizes(parts.drop_last()) + parts.last().total_size
    }
}

/// How many partitions the planner consumes, walking `parts` in order and
/// stopping as soon as the accumulated size reaches `desired`.
pub open spec fn spec_consumed_count(parts: Seq<PartitionInfo>, desired: int) -> int
    decreases parts.len(),
{
    if desired <= 0 {
        0
    } else if parts.len() == 0 {
        0
    } else {
        1 + spec_consumed_count(
            parts.subrange(1, parts.len() as int),
            desired - parts[0].total_size,
        )
    }
}

/// The label a source partition is shown under: its label, or its device
/// path when it has none.
pub open spec fn spec_label_of(p: PartitionInfo) -> Seq<char> {
    match p.label {
        Some(l) => l@,
        None => p.device_path@,
    }
}

/// The label a data-loss warning names: the label, or "Unlabeled".
pub open spec fn spec_warn_label_of(p: PartitionInfo) -> Seq<char> {
    match p.label {
        Some(l) => l@,
        None => "Unlabeled"@,
    }
}

pub open spec fn spec_planner_data_warning(p: PartitionInfo) -> Seq<char> {
    "Partition "@ + p.device_path@ + " ("@ + spec_warn_label_of(p) + ") contains "@
        + spec_format_bytes(spec_used_space(p))
        + " of data. YOU MUST BACKUP THIS DATA before proceeding!"@
}

/// The data-loss warnings for the consumed partitions, in consumption
/// order: one for each that holds live data.
pub open spec fn spec_plan_warnings(parts: Seq<PartitionInfo>) -> Seq<Seq<char>>
    decreases parts.len(),
{
    if parts.len() == 0 {
        Seq::empty()
    } else {
        spec_plan_warnings(parts.drop_last()) + (if parts.last().spec_has_data() {
            seq![spec_planner_data_warning(parts.last())]
        } else {
            Seq::empty()
        })
    }
}

/// The labels of the consumed partitions joined with ", ".
pub open spec fn spec_join_labels(parts: Seq<PartitionInfo>) -> Seq<char>
    decreases parts.len(),
{
    if parts.len() == 0 {
        Seq::empty()
    } else if parts.len() == 1 {
        spec_label_of(parts[0])
    } else {
        spec_join_labels(parts.drop_last()) + ", "@ + spec_label_of(parts.last())
    }
}

pub open spec fn spec_backup_desc(parts: Seq<PartitionInfo>) -> Seq<char> {
    "The following partitions will be deleted: "@ + spec_join_labels(parts)
        + ". Back up any important data NOW!"@
}

pub open spec fn spec_delete_step_title(p: PartitionInfo) -> Seq<char> {
    "Delete partition "@ + spec_label_of(p)
}

pub open spec fn spec_delete_step_desc(p: PartitionInfo) -> Seq<char> {
    "Delete "@ + spec_label_of(p) + " (frees "@ + spec_format_bytes(p.total_size)
        + " of space)"@
}

pub open spec fn spec_expand_step_title(target: PartitionInfo) -> Seq<char> {
    "Expand "@ + target.device_path@
}

pub open spec fn spec_expand_simple_desc(target: PartitionInfo, desired: u64) -> Seq<char>
    recommends
        target.total_size + desired <= u64::MAX,
{
    "Expand "@ + target.device_path@ + " from "@ + spec_format_bytes(target.total_size) + " to "@
        + spec_format_bytes((target.total_size + desired) as u64)
}

pub open spec fn spec_expand_full_desc(target: PartitionInfo, desired: u64) -> Seq<char>
    recommends
        target.total_size + desired <= u64::MAX,
{
    spec_expand_simple_desc(target, desired) + " (+"@ + spec_format_bytes(desired) + ")"@
}

/// The fields of one plan step.
pub open spec fn spec_realloc_step(s: ReallocationStep, num: int, title: Seq<char>, desc: Seq<
    char,
>, action: StepActionType, can_automate: bool) -> bool {
    &&& s.step_number == num
    &&& s.title@ == title
    &&& s.description@ == desc
    &&& s.action_type == action
    &&& s.can_automate == can_automate
}

/// A consumed partition's entry in the plan: recorded for whole-partition
/// deletion, regardless of how much of it is needed.
pub open spec fn spec_source_matches(sp: SourcePartitionPlan, p: PartitionInfo) -> bool {
    &&& sp.partition_id@ == p.id@
    &&& sp.partition_label@ == spec_label_of(p)
    &&& sp.current_size == p.total_size
    &&& sp.used_space == p.used_space
    &&& sp.action == SourcePartitionAction::DeleteEntirely
}

/// The plan for a target with nothing after it: expand into the free tail
/// of the disk, one automated step, no sources, no warnings.
pub open spec fn spec_simple_plan(target: PartitionInfo, id: Seq<char>, desired: u64,
    available: u64, plan: ReallocationPlan) -> bool {
    &&& plan.target_partition_id@ == id
    &&& plan.source_partitions@.len() == 0
    &&& plan.total_space_freed == available
    &&& plan.target_new_size == target.total_size + desired
    &&& plan.warnings@.len() == 0
    &&& plan.steps@.len() == 1
    &&& spec_realloc_step(
        plan.steps@[0],
        1,
        "Expand partition"@,
        spec_expand_simple_desc(target, desired),
        StepActionType::AppAutomated,
        true,
    )
}

/// The plan when trailing partitions are consumed: sources and warnings in
/// consumption order, then a backup step (if any warning), one assisted
/// delete step per source, and a final automated expand step.
pub open spec fn spec_full_plan(target: PartitionInfo, id: Seq<char>, desired: u64, after: Seq<
    PartitionInfo,
>, k: int, freed: u64, plan: ReallocationPlan) -> bool {
    let consumed = after.take(k);
    let warnings = spec_plan_warnings(consumed);
    let wn: int = if warnings.len() > 0 {
        1
    } else {
        0
    };
    &&& plan.target_partition_id@ == id
    &&& plan.source_partitions@.len() == k
    &&& forall|m: int|
        0 <= m < k ==> spec_source_matches(#[trigger] plan.source_partitions@[m], consumed[m])
    &&& plan.total_space_freed == freed
    &&& plan.target_new_size == target.total_size + desired
    &&& plan.warnings.deep_view() == warnings
    &&& plan.steps@.len() == wn + k + 1
    &&& (warnings.len() > 0 ==> spec_realloc_step(
        plan.steps@[0],
        1,
        "BACKUP YOUR DATA"@,
        spec_backup_desc(consumed),
        StepActionType::UserManual,
        false,
    ))
    &&& forall|si: int|
        wn <= si < wn + k ==> spec_realloc_step(
            #[trigger] plan.steps@[si],
            si + 1,
            spec_delete_step_title(consumed[si - wn]),
            spec_delete_step_desc(consumed[si - wn]),
            StepActionType::AppAssistedManual,
            true,
        )
    &&& spec_realloc_step(
        plan.steps@[wn + k],
        wn + k + 1,
        spec_expand_step_title(target),
        spec_expand_full_desc(target, desired),
        StepActionType::AppAutomated,
        true,
    )
}

/// Everything `create_reallocation_plan` decides, as a total description
/// of its result.
pub open spec fn spec_plan_decision(disk: DiskInfo, id: Seq<char>, desired: u64, r: Result<
    ReallocationPlan,
    PartitionError,
>) -> bool {
    let parts = disk.partitions@;
    let ti = spec_find_id(parts, id);
    if ti < 0 {
        r matches Err(PartitionError::NotFound { what }) && what@
            == "Target partition not found"@
    } else {
        let target = parts[ti];
        let pend = target.spec_end();
        let after = spec_trailing(parts, pend);
        if after.len() == 0 {
            let available = disk.total_size - pend;
            if available < desired {
                r matches Err(PartitionError::InsufficientSpace { needed, available: av })
                    && needed == desired && av == available
            } else {
                r matches Ok(plan) && spec_simple_plan(
                    target,
                    id,
                    desired,
                    available as u64,
                    plan,
                )
            }
        } else {
            let k = spec_consumed_count(after, desired as int);
            let freed = spec_sum_sizes(after.take(k));
            if freed < desired {
                r matches Err(PartitionError::InsufficientSpace { needed, available })
                    && needed == desired && available == freed
            } else {
                r matches Ok(plan) && spec_full_plan(
                    target,
                    id,
                    desired,
                    after,
                    k,
                    freed as u64,
                    plan,
                )
            }
        }
    }
}

proof fn lemma_find_id(parts: Seq<PartitionInfo>, id: Seq<char>, i: int)
    requires
        0 <= i <= parts.len(),
        forall|j: int| 0 <= j < i ==> (#[trigger] parts[j]).id@ != id,
        i < parts.len() ==> parts[i].id@ == id,
    ensures
        spec_find_id(parts, id) == if i < parts.len() {
            i
        } else {
            -1
        },
    decreases parts.len(),
{
    if parts.len() > 0 {
        if parts[0].id@ == id {
            assert(i == 0);
        } else {
            let rest = parts.subrange(1, parts.len() as int);
            assert(forall|j: int| 0 <= j < i - 1 ==> (#[trigger] rest[j]).id@ != id);
            lemma_find_id(rest, id, i - 1);
        }
    }
}

/// Prefix sums never exceed the sum of the whole list.
proof fn lemma_sum_take_le(parts: Seq<PartitionInfo>, m: int)
    requires
        0 <= m <= parts.len(),
    ensures
        spec_sum_sizes(parts.take(m)) <= spec_sum_sizes(parts),
    decreases parts.len(),
{
    if m == parts.len() {
        assert(parts.take(m) =~= parts);
    } else {
        assert(parts.take(m) =~= parts.drop_last().take(m));
        lemma_sum_take_le(parts.drop_last(), m);
    }
}

/// On a well-formed layout, everything at or past `pend` fits between
/// `pend` and the end of the disk.
proof fn lemma_trailing_sum_bound(parts: Seq<PartitionInfo>, pend: int, total: int)
    requires
        spec_parts_wf(parts, total),
        0 <= pend <= total,
    ensures
        spec_sum_sizes(spec_trailing(parts, pend)) <= total - pend,
    decreases parts.len(),
{
    if parts.len() > 0 {
        let dl = parts.drop_last();
        let last = parts.last();
        if last.start_offset >= pend {
            assert(spec_parts_wf(dl, last.start_offset as int));
            lemma_trailing_sum_bound(dl, pend, last.start_offset as int);
            let t = spec_trailing(dl, pend).push(last);
            assert(spec_trailing(parts, pend) =~= t);
            assert(t.drop_last() =~= spec_trailing(dl, pend));
            assert(spec_sum_sizes(t) == spec_sum_sizes(spec_trailing(dl, pend))
                + last.total_size);
        } else {
            assert(spec_parts_wf(dl, total));
            lemma_trailing_sum_bound(dl, pend, total);
            assert(spec_trailing(parts, pend) =~= spec_trailing(dl, pend));
        }
    }
}

/// Locate the first partition with the given id.
pub(crate) fn find_by_id<'a>(parts: &'a Vec<PartitionInfo>, id: &str) -> (r: Option<usize>)
    ensures
        match r {
            Some(i) => 0 <= i < parts@.len() && i == spec_find_id(parts@, id@),
            None => spec_find_id(parts@, id@) < 0,
        },
{
    let mut i: usize = 0;
    while i < parts.len()
        invariant
            i <= parts@.len(),
            forall|j: int| 0 <= j < i ==> (#[trigger] parts@[j]).id@ != id@,
        decreases parts@.len() - i,
    {
        if str_eq(parts[i].id.as_str(), id) {
            proof {
                lemma_find_id(parts@, id@, i as int);
            }
            return Some(i);
        }
        i = i + 1;
    }
    proof {
        lemma_find_id(parts@, id@, parts@.len() as int);
    }
    None
}

/// Analyze the disk layout and create a space reallocation plan giving
/// `desired_additional_space` more bytes to the target partition.
///
/// Only partitions physically after the target are candidates.  If none
/// exist, the plan expands into the disk's free tail, or fails with
/// `InsufficientSpace` when that tail is too small.  Otherwise trailing
/// partitions are consumed in order of start offset, each recorded for
/// whole-partition deletion, until the freed space reaches the request;
/// if even consuming all of them is not enough, the planner fails with
/// `InsufficientSpace` and no plan is produced.
#[verifier::rlimit(100)]
pub fn create_reallocation_plan(disk: &DiskInfo, target_partition_id: &str,
    desired_additional_space: u64) -> (r: Result<ReallocationPlan, PartitionError>)
    requires
        disk.wf(),
        disk.partitions@.len() + 2 <= usize::MAX,
    ensures
        spec_plan_decision(*disk, target_partition_id@, desired_additional_space, r),
{
    let desired = desired_additional_space;
    let parts = &disk.partitions;
    let ti = match find_by_id(parts, target_partition_id) {
        Some(i) => i,
        None => {
            return Err(
                PartitionError::NotFound {
                    what: String::from_str("Target partition not found"),
                },
            );
        },
    };
    let target = &parts[ti];
    proof {
        assert(parts@[ti as int].spec_end() <= disk.total_size);
    }
    let pend = target.start_offset + target.total_size;

    // Collect the partitions after the target, in stored order; a
    // well-formed disk keeps that order ascending by start offset.
    let mut after: Vec<&PartitionInfo> = Vec::new();
    let mut i: usize = 0;
    proof {
        assert(parts@.take(0) =~= Seq::<PartitionInfo>::empty());
    }
    while i < parts.len()
        invariant
            i <= parts@.len(),
            after@.len() == spec_trailing(parts@.take(i as int), pend as int).len(),
            after@.len() <= i,
            forall|m: int|
                0 <= m < after@.len() ==> *(#[trigger] after@[m]) == spec_trailing(
                    parts@.take(i as int),
                    pend as int,
                )[m],
        decreases parts@.len() - i,
    {
        if parts[i].start_offset >= pend {
            after.push(&parts[i]);
        }
        proof {
            assert(parts@.take(i + 1).drop_last() =~= parts@.take(i as int));
            assert(parts@.take(i + 1).last() == parts@[i as int]);
        }
        i = i + 1;
    }
    proof {
        assert(parts@.take(parts@.len() as int) =~= parts@);
    }
    let ghost afterspec = spec_trailing(parts@, pend as int);

    if after.len() == 0 {
        // The target is the last partition: expand into the disk's tail.
        let available = disk.total_size - pend;
        if available < desired {
            return Err(
                PartitionError::InsufficientSpace { needed: desired, available },
            );
        }
        let new_size = target.total_size + desired;
        let mut desc = String::from_str("Expand ");
        desc.append(target.device_path.as_str());
        desc.append(" from ");
        desc.append(format_bytes(target.total_size).as_str());
        desc.append(" to ");
        desc.append(format_bytes(new_size).as_str());
        proof {
            assert(desc@ =~= spec_expand_simple_desc(parts@[ti as int], desired));
        }
        let mut steps: Vec<ReallocationStep> = Vec::new();
        steps.push(
            ReallocationStep {
                step_number: 1,
                title: String::from_str("Expand partition"),
                description: desc,
                action_type: StepActionType::AppAutomated,
                can_automate: true,
            },
        );
        return Ok(
            ReallocationPlan {
                target_partition_id: String::from_str(target_partition_id),
                source_partitions: Vec::new(),
                total_space_freed: available,
                target_new_size: new_size,
                steps,
                warnings: Vec::new(),
            },
        );
    }

    // Consume trailing partitions in order until the request is covered.
    proof {
        lemma_trailing_sum_bound(parts@, pend as int, disk.total_size as int);
    }
    let mut sources: Vec<SourcePartitionPlan> = Vec::new();
    let mut warnings: Vec<String> = Vec::new();
    let mut freed: u64 = 0;
    let mut k: usize = 0;
    proof {
        assert(afterspec.take(0) =~= Seq::<PartitionInfo>::empty());
        assert(afterspec.skip(0) =~= afterspec);
        assert(warnings.deep_view() =~~= spec_plan_warnings(afterspec.take(0)));
    }
    while k < after.len() && freed < desired
        invariant
            after@.len() == afterspec.len(),
            forall|m: int| 0 <= m < after@.len() ==> *(#[trigger] after@[m]) == afterspec[m],
            k <= afterspec.len(),
            freed as int == spec_sum_sizes(afterspec.take(k as int)),
            spec_consumed_count(afterspec, desired as int) == k + spec_consumed_count(
                afterspec.skip(k as int),
                desired - freed,
            ),
            sources@.len() == k,
            forall|m: int|
                0 <= m < k ==> spec_source_matches(#[trigger] sources@[m], afterspec[m]),
            warnings.deep_view() == spec_plan_warnings(afterspec.take(k as int)),
            spec_sum_sizes(afterspec) <= disk.total_size - pend,
        decreases after@.len() - k,
    {
        let p: &PartitionInfo = after[k];
        let has_data = match &p.used_space {
            Some(u) => *u > 0,
            None => false,
        };
        if has_data {
            let mut msg = String::from_str("Partition ");
            msg.append(p.device_path.as_str());
            msg.append(" (");
            match &p.label {
                Some(l) => msg.append(l.as_str()),
                None => msg.append("Unlabeled"),
            };
            msg.append(") contains ");
            let used = match &p.used_space {
                Some(u) => *u,
                None => 0,
            };
            msg.append(format_bytes(used).as_str());
            msg.append(" of data. YOU MUST BACKUP THIS DATA before proceeding!");
            proof {
                assert(msg@ =~= spec_planner_data_warning(afterspec[k as int]));
            }
            warnings.push(msg);
        }
        let label = match &p.label {
            Some(l) => l.clone(),
            None => p.device_path.clone(),
        };
        sources.push(
            SourcePartitionPlan {
                partition_id: p.id.clone(),
                partition_label: label,
                current_size: p.total_size,
                used_space: p.used_space,
                action: SourcePartitionAction::DeleteEntirely,
            },
        );
        proof {
            assert(afterspec.take(k + 1).drop_last() =~= afterspec.take(k as int));
            assert(afterspec.take(k + 1).last() == afterspec[k as int]);
            lemma_sum_take_le(afterspec, k + 1);
            assert(afterspec.skip(k as int).subrange(1, afterspec.skip(k as int).len() as int)
                =~= afterspec.skip(k + 1));
            assert(afterspec.skip(k as int)[0] == afterspec[k as int]);
            assert(warnings.deep_view() =~~= spec_plan_warnings(afterspec.take(k + 1)));
        }
        freed = freed + p.total_size;
        k = k + 1;
    }
    proof {
        if freed >= desired {
            assert(spec_consumed_count(afterspec.skip(k as int), desired - freed) == 0);
        } else {
            assert(k == afterspec.len());
            assert(afterspec.skip(k as int) =~= Seq::<PartitionInfo>::empty());
        }
        assert(spec_consumed_count(afterspec, desired as int) == k);
    }

    if freed < desired {
        return Err(PartitionError::InsufficientSpace { needed: desired, available: freed });
    }

    // Build the ordered steps: backup warning, assisted deletes, final
    // automated expand.
    let ghost consumed = afterspec.take(k as int);
    let has_warnings = warnings.len() > 0;
    let wn: usize = if has_warnings {
        1
    } else {
        0
    };
    let mut steps: Vec<ReallocationStep> = Vec::new();
    if has_warnings {
        let mut joined = String::new();
        let mut m: usize = 0;
        proof {
            assert(afterspec.take(0) =~= Seq::<PartitionInfo>::empty());
            assert(joined@ =~= spec_join_labels(afterspec.take(0)));
        }
        while m < sources.len()
            invariant
                m <= k,
                sources@.len() == k,
                k <= afterspec.len(),
                forall|mm: int|
                    0 <= mm < k ==> spec_source_matches(#[trigger] sources@[mm], afterspec[mm]),
                joined@ == spec_join_labels(afterspec.take(m as int)),
            decreases sources@.len() - m,
        {
            if m > 0 {
                joined.append(", ");
            }
            joined.append(sources[m].partition_label.as_str());
            proof {
                assert(afterspec.take(m + 1).drop_last() =~= afterspec.take(m as int));
                assert(afterspec.take(m + 1).last() == afterspec[m as int]);
                if m > 0 {
                    assert(joined@ =~= spec_join_labels(afterspec.take(m + 1)));
                } else {
                    assert(afterspec.take(1)[0] == afterspec[0]);
                    assert(joined@ =~= spec_join_labels(afterspec.take(1)));
                }
            }
            m = m + 1;
        }
        let mut desc = String::from_str("The following partitions will be deleted: ");
        desc.append(joined.as_str());
        desc.append(". Back up any important data NOW!");
        proof {
            assert(desc@ =~= spec_backup_desc(consumed));
        }
        steps.push(
            ReallocationStep {
                step_number: 1,
                title: String::from_str("BACKUP YOUR DATA"),
                description: desc,
                action_type: StepActionType::UserManual,
                can_automate: false,
            },
        );
    }
    let mut m: usize = 0;
    while m < sources.len()
        invariant
            m <= k,
            sources@.len() == k,
            k <= afterspec.len(),
            k + 2 <= usize::MAX,
            wn == if has_warnings {
                1int
            } else {
                0int
            },
            consumed == afterspec.take(k as int),
            forall|mm: int|
                0 <= mm < k ==> spec_source_matches(#[trigger] sources@[mm], afterspec[mm]),
            steps@.len() == wn + m,
            has_warnings ==> spec_realloc_step(
                steps@[0],
                1,
                "BACKUP YOUR DATA"@,
                spec_backup_desc(consumed),
                StepActionType::UserManual,
                false,
            ),
            forall|si: int|
                wn <= si < wn + m ==> spec_realloc_step(
                    #[trigger] steps@[si],
                    si + 1,
                    spec_delete_step_title(consumed[si - wn]),
                    spec_delete_step_desc(consumed[si - wn]),
                    StepActionType::AppAssistedManual,
                    true,
                ),
        decreases sources@.len() - m,
    {
        let label = sources[m].partition_label.clone();
        let mut title = String::from_str("Delete partition ");
        title.append(label.as_str());
        let mut desc = String::from_str("Delete ");
        desc.append(label.as_str());
        desc.append(" (frees ");
        desc.append(format_bytes(sources[m].current_size).as_str());
        desc.append(" of space)");
        proof {
            assert(consumed[m as int] == afterspec[m as int]);
            assert(title@ =~= spec_delete_step_title(consumed[m as int]));
            assert(desc@ =~= spec_delete_step_desc(consumed[m as int]));
        }
        steps.push(
            ReallocationStep {
                step_number: wn + m + 1,
                title,
                description: desc,
                action_type: StepActionType::AppAssistedManual,
                can_automate: true,
            },
        );
        m = m + 1;
    }
    proof {
        assert(desired <= freed);
        assert(freed as int <= spec_sum_sizes(afterspec)) by {
            lemma_sum_take_le(afterspec, k as int);
        }
        assert(parts@[ti as int].total_size + desired <= disk.total_size);
    }
    let new_size = target.total_size + desired;
    let mut title = String::from_str("Expand ");
    title.append(target.device_path.as_str());
    let mut desc = String::from_str("Expand ");
    desc.append(target.device_path.as_str());
    desc.append(" from ");
    desc.append(format_bytes(target.total_size).as_str());
    desc.append(" to ");
    desc.append(format_bytes(new_size).as_str());
    desc.append(" (+");
    desc.append(format_bytes(desired).as_str());
    desc.append(")");
    proof {
        assert(title@ =~= spec_expand_step_title(parts@[ti as int]));
        assert(desc@ =~= spec_expand_full_desc(parts@[ti as int], desired));
    }
    steps.push(
        ReallocationStep {
            step_number: wn + sources.len() + 1,
            title,
            description: desc,
            action_type: StepActionType::AppAutomated,
            can_automate: true,
        },
    );
    Ok(
        ReallocationPlan {
            target_partition_id: String::from_str(target_partition_id),
            source_partitions: sources,
            total_space_freed: freed,
            target_new_size: new_size,
            steps,
            warnings,
        },
    )
}

} // verus!
