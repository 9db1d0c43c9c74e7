//! The fatal conditions a scenario run can end with.
//!
//! None of these is retried: an execution failure aborts the operation, a
//! reconfiguration timeout or an invariant violation aborts the whole run,
//! and a layout-resolution failure is non-recoverable for that lookup.
use vstd::prelude::*;

verus! {

/// A fatal condition raised by the harness.
#[derive(Debug)]
pub enum HarnessError {
    /// Transaction submission failed to reach quorum or was rejected.
    ExecutionFailed,
    /// Cluster-wide convergence was not reached within the timeout.
    ReconfigurationTimeout,
    /// A logic-level invariant of a generator or predicate was violated;
    /// carries the type name whose uniqueness was broken.
    InvariantViolation(String),
    /// An object's declared type could not be resolved to a structured
    /// layout; carries the offending type's description.
    LayoutResolutionFailed(String),
}

impl HarnessError {
    /// A short human-readable description of the condition.
    pub fn describe(&self) -> (r: String)
        ensures
            r@.len() > 0,
    {
        let r = match self {
            HarnessError::ExecutionFailed => "transaction execution failed",
            HarnessError::ReconfigurationTimeout => "timed out waiting for reconfiguration to complete",
            HarnessError::InvariantViolation(_) => "multiple objects of one type found",
            HarnessError::LayoutResolutionFailed(_) => "failed to resolve object layout",
        };
        proof {
            reveal_strlit("transaction execution failed");
            reveal_strlit("timed out waiting for reconfiguration to complete");
            reveal_strlit("multiple objects of one type found");
            reveal_strlit("failed to resolve object layout");
        }
        r.to_string()
    }
}

} // verus!
