//! Error taxonomy of the library.

use vstd::prelude::*;

verus! {

/// Every failure of this library surfaces as one of these.
#[derive(Debug, Clone, PartialEq, Eq)]
pub enum PartitionError {
    /// A disk or partition id does not resolve against the given snapshot.
    NotFound { what: String },
    /// The platform/filesystem combination has no backend implementation, or
    /// the topology precludes addressing the target.
    Unsupported { reason: String },
    /// The platform backend's invocation returned nonzero status; carries the
    /// captured output verbatim.
    ExternalToolFailure { stdout: String, stderr: String },
    /// Requested growth exceeds what the disk or a reallocation plan can
    /// free.
    InsufficientSpace { needed: u64, available: u64 },
}

} // verus!
