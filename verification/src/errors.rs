//! The error taxonomy of the orchestrator.
//!
//! Configuration errors are reported before any filesystem mutation; stage
//! failures abort the run at the stage that raised them and are never
//! retried internally.

use vstd::prelude::*;

use crate::stage::StageId;

verus! {

/// A fault found while assembling the run configuration.
#[derive(Clone, Copy, Debug, PartialEq, Eq, Structural)]
pub enum ConfigError {
    /// One of the triple components (build, host or target) is empty.
    EmptyTripleComponent,
    /// No output directory was given and the user's home directory, which
    /// the default output directory lives under, could not be located.
    NoHomeDir,
}

/// Why a stage aborted the run. Every failure names the stage it arose at,
/// so the operator can attribute it and resume.
#[derive(Debug)]
pub enum StageFailure {
    /// A precondition check failed: an artifact required from a prior stage
    /// is absent at its expected path. Indicates out-of-order state or
    /// external tampering; the stage's build step is not attempted.
    MissingDependency { stage: StageId, missing_path: String },
    /// The delegated external build/install step itself failed; the detail
    /// is surfaced verbatim from the collaborator.
    ExternalBuildFailed { stage: StageId, detail: String },
    /// The external step reported success but an expected output artifact is
    /// absent. Treated as a defect signal, never silently accepted.
    PostconditionUnmet { stage: StageId, expected_path: String },
    /// The completion marker for a finished stage could not be persisted.
    MarkerWriteFailed { stage: StageId },
}

impl StageFailure {
    /// The stage a failure is attributed to.
    pub open spec fn spec_stage(&self) -> StageId {
        match self {
            StageFailure::MissingDependency { stage, .. } => *stage,
            StageFailure::ExternalBuildFailed { stage, .. } => *stage,
            StageFailure::PostconditionUnmet { stage, .. } => *stage,
            StageFailure::MarkerWriteFailed { stage } => *stage,
        }
    }

    pub fn stage(&self) -> (s: StageId)
        ensures
            s == self.spec_stage(),
    {
        match self {
            StageFailure::MissingDependency { stage, .. } => *stage,
            StageFailure::ExternalBuildFailed { stage, .. } => *stage,
            StageFailure::PostconditionUnmet { stage, .. } => *stage,
            StageFailure::MarkerWriteFailed { stage } => *stage,
        }
    }
}

} // verus!
