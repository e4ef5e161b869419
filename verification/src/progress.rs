//! Progress reporting for resize operations: the phase state machine, the
//! progress records emitted per phase, and the law that percent never
//! decreases across the phases of a successful run.

use vstd::prelude::*;
use vstd::string::StringExecFns;

verus! {

/// Phases of a resize operation, in the order a successful run passes
/// through them.  `Error` is reachable from any phase.
#[derive(Debug, Clone, Copy, PartialEq, Eq, Structural)]
pub enum ResizePhase {
    /// Validating resize parameters
    Validating,
    /// Checking filesystem integrity
    CheckingFilesystem,
    /// Creating backup/snapshot
    CreatingBackup,
    /// Resizing filesystem (if shrinking)
    ResizingFilesystem,
    /// Updating partition table
    UpdatingPartitionTable,
    /// Expanding filesystem (if growing)
    ExpandingFilesystem,
    /// Verifying result
    Verifying,
    /// Operation complete
    Complete,
    /// Operation failed
    Error,
}

/// Progress update for a resize operation.
#[derive(Debug, Clone)]
pub struct ResizeProgress {
    /// Current operation phase
    pub phase: ResizePhase,
    /// Overall progress percentage (0-100)
    pub percent: u32,
    /// Current status message
    pub message: String,
    /// Whether the operation can be cancelled at this point
    pub can_cancel: bool,
}

/// Position of a phase in the success order; `Error` stands apart, after
/// all of them.
pub open spec fn spec_phase_index(p: ResizePhase) -> int {
    match p {
        ResizePhase::Validating => 0,
        ResizePhase::CheckingFilesystem => 1,
        ResizePhase::CreatingBackup => 2,
        ResizePhase::ResizingFilesystem => 3,
        ResizePhase::UpdatingPartitionTable => 4,
        ResizePhase::ExpandingFilesystem => 5,
        ResizePhase::Verifying => 6,
        ResizePhase::Complete => 7,
        ResizePhase::Error => 8,
    }
}

/// The lowest percent a phase reports.
pub open spec fn spec_phase_min_percent(p: ResizePhase) -> int {
    match p {
        ResizePhase::Validating => 5,
        ResizePhase::CheckingFilesystem => 15,
        ResizePhase::CreatingBackup => 25,
        ResizePhase::ResizingFilesystem => 30,
        ResizePhase::UpdatingPartitionTable => 70,
        ResizePhase::ExpandingFilesystem => 70,
        ResizePhase::Verifying => 95,
        ResizePhase::Complete => 100,
        ResizePhase::Error => 0,
    }
}

/// The highest percent a phase reports.
pub open spec fn spec_phase_max_percent(p: ResizePhase) -> int {
    match p {
        ResizePhase::Validating => 5,
        ResizePhase::CheckingFilesystem => 15,
        ResizePhase::CreatingBackup => 25,
        ResizePhase::ResizingFilesystem => 60,
        ResizePhase::UpdatingPartitionTable => 70,
        ResizePhase::ExpandingFilesystem => 90,
        ResizePhase::Verifying => 95,
        ResizePhase::Complete => 100,
        ResizePhase::Error => 0,
    }
}

/// Cancellation is offered only before destructive action begins.
pub open spec fn spec_can_cancel(p: ResizePhase) -> bool {
    p == ResizePhase::Validating || p == ResizePhase::CheckingFilesystem
}

impl ResizeProgress {
    /// A progress record as the constructors produce it: percent within the
    /// phase's band, cancellation flag matching the phase.
    pub open spec fn wf(self) -> bool {
        &&& spec_phase_min_percent(self.phase) <= self.percent <= spec_phase_max_percent(
            self.phase,
        )
        &&& self.can_cancel == spec_can_cancel(self.phase)
    }

    /// Create a new progress update; cancellation is derived from the
    /// phase.
    pub fn new(phase: ResizePhase, percent: u32, message: String) -> (r: Self)
        ensures
            r.phase == phase,
            r.percent == percent,
            r.message == message,
            r.can_cancel == spec_can_cancel(phase),
            spec_phase_min_percent(phase) <= percent <= spec_phase_max_percent(phase) ==> r.wf(),
    {
        let can_cancel = matches!(
            phase,
            ResizePhase::Validating | ResizePhase::CheckingFilesystem
        );
        ResizeProgress { phase, percent, message, can_cancel }
    }

    /// Create a validation progress update.
    pub fn validating(message: &str) -> (r: Self)
        ensures
            r.phase == ResizePhase::Validating,
            r.percent == 5,
            r.message@ == message@,
            r.wf(),
    {
        Self::new(ResizePhase::Validating, 5, String::from_str(message))
    }

    /// Create a filesystem check progress update.
    pub fn checking_filesystem(message: &str) -> (r: Self)
        ensures
            r.phase == ResizePhase::CheckingFilesystem,
            r.percent == 15,
            r.message@ == message@,
            r.wf(),
    {
        Self::new(ResizePhase::CheckingFilesystem, 15, String::from_str(message))
    }

    /// Create a backup progress update.
    pub fn creating_backup(message: &str) -> (r: Self)
        ensures
            r.phase == ResizePhase::CreatingBackup,
            r.percent == 25,
            r.message@ == message@,
            r.wf(),
    {
        Self::new(ResizePhase::CreatingBackup, 25, String::from_str(message))
    }

    /// Create a filesystem resize progress update; `sub_percent` is the
    /// resize tool's own progress, mapped proportionally into 30-60%.
    pub fn resizing_filesystem(sub_percent: u32, message: &str) -> (r: Self)
        requires
            sub_percent <= 100,
        ensures
            r.phase == ResizePhase::ResizingFilesystem,
            r.percent == 30 + sub_percent * 3 / 10,
            r.message@ == message@,
            r.wf(),
    {
        Self::new(
            ResizePhase::ResizingFilesystem,
            30 + sub_percent * 3 / 10,
            String::from_str(message),
        )
    }

    /// Create a partition table update progress.
    pub fn updating_partition_table(message: &str) -> (r: Self)
        ensures
            r.phase == ResizePhase::UpdatingPartitionTable,
            r.percent == 70,
            r.message@ == message@,
            r.wf(),
    {
        Self::new(ResizePhase::UpdatingPartitionTable, 70, String::from_str(message))
    }

    /// Create an expand filesystem progress update; `sub_percent` is the
    /// grow tool's own progress, mapped proportionally into 70-90%.
    pub fn expanding_filesystem(sub_percent: u32, message: &str) -> (r: Self)
        requires
            sub_percent <= 100,
        ensures
            r.phase == ResizePhase::ExpandingFilesystem,
            r.percent == 70 + sub_percent * 2 / 10,
            r.message@ == message@,
            r.wf(),
    {
        Self::new(
            ResizePhase::ExpandingFilesystem,
            70 + sub_percent * 2 / 10,
            String::from_str(message),
        )
    }

    /// Create a verification progress update.
    pub fn verifying(message: &str) -> (r: Self)
        ensures
            r.phase == ResizePhase::Verifying,
            r.percent == 95,
            r.message@ == message@,
            r.wf(),
    {
        Self::new(ResizePhase::Verifying, 95, String::from_str(message))
    }

    /// Create a completion progress update.
    pub fn complete(message: &str) -> (r: Self)
        ensures
            r.phase == ResizePhase::Complete,
            r.percent == 100,
            r.message@ == message@,
            r.wf(),
    {
        Self::new(ResizePhase::Complete, 100, String::from_str(message))
    }

    /// Create an error progress update: percent resets to 0 and
    /// cancellation is no longer offered.
    pub fn error(message: &str) -> (r: Self)
        ensures
            r.phase == ResizePhase::Error,
            r.percent == 0,
            r.message@ == message@,
            r.can_cancel == false,
            r.wf(),
    {
        Self::new(ResizePhase::Error, 0, String::from_str(message))
    }
}

/// Percent is non-decreasing along the success order: of two well-formed,
/// non-error progress records whose phases are strictly ordered, the later
/// phase never reports a lower percent.
pub proof fn lemma_percent_monotonic(a: ResizeProgress, b: ResizeProgress)
    requires
        a.wf(),
        b.wf(),
        a.phase != ResizePhase::Error,
        b.phase != ResizePhase::Error,
        spec_phase_index(a.phase) < spec_phase_index(b.phase),
    ensures
        a.percent <= b.percent,
{
    assert(spec_phase_max_percent(a.phase) <= spec_phase_min_percent(b.phase));
}

} // verus!
