//! What the user interface shows of a build.

use crate::services::pipeline::RunState;
use vstd::prelude::*;

verus! {

/// The four things that a build can be shown as.
#[derive(Clone, Copy, Debug, PartialEq, Eq, Structural)]
pub enum BuildStatus {
    Idle,
    Building,
    Success,
    Failed,
}

/// A request to build the project at a path.
#[derive(Clone, Debug, PartialEq, Eq)]
pub struct BuildRequest {
    pub project_path: String,
}

/// What a run in `state` is shown as. A run that could not start a stage is
/// shown as failed.
pub open spec fn shown_as(state: RunState) -> BuildStatus {
    match state {
        RunState::Idle => BuildStatus::Idle,
        RunState::Running(_) => BuildStatus::Building,
        RunState::Succeeded => BuildStatus::Success,
        RunState::Failed(_, _) => BuildStatus::Failed,
        RunState::SpawnFailed(_) => BuildStatus::Failed,
    }
}

/// Computes [`shown_as`].
pub fn build_status(state: RunState) -> (status: BuildStatus)
    ensures
        status == shown_as(state),
{
    match state {
        RunState::Idle => BuildStatus::Idle,
        RunState::Running(_) => BuildStatus::Building,
        RunState::Succeeded => BuildStatus::Success,
        RunState::Failed(_, _) => BuildStatus::Failed,
        RunState::SpawnFailed(_) => BuildStatus::Failed,
    }
}

} // verus!
