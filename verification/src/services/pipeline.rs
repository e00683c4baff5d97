//! Pipelines: ordered stages, each one invocation of an external program,
//! and the result that a run of them reduces to.

use crate::views::views;
use vstd::prelude::*;

verus! {

/// One environment variable that a stage sets for its process.
#[derive(Clone, Debug, PartialEq, Eq)]
pub struct EnvOverride {
    pub name: String,
    pub value: String,
}

impl View for EnvOverride {
    type V = (Seq<char>, Seq<char>);

    open spec fn view(&self) -> (Seq<char>, Seq<char>) {
        (self.name@, self.value@)
    }
}

/// One external program invocation within a pipeline.
#[derive(Clone, Debug, PartialEq, Eq)]
pub struct PipelineStage {
    /// The name under which the stage's events are reported.
    pub label: String,
    /// The program, as a path or a name to look up on the search path.
    pub program: String,
    /// The arguments, in order.
    pub args: Vec<String>,
    /// The directory that the program runs in.
    pub working_directory: String,
    /// The variables set on top of the inherited environment.
    pub env: Vec<EnvOverride>,
}

/// A [`PipelineStage`] as a mathematical value.
pub struct StageView {
    pub label: Seq<char>,
    pub program: Seq<char>,
    pub args: Seq<Seq<char>>,
    pub working_directory: Seq<char>,
    pub env: Seq<(Seq<char>, Seq<char>)>,
}

impl View for PipelineStage {
    type V = StageView;

    open spec fn view(&self) -> StageView {
        StageView {
            label: self.label@,
            program: self.program@,
            args: views(self.args@),
            working_directory: self.working_directory@,
            env: views(self.env@),
        }
    }
}

/// A [`Pipeline`] as a mathematical value.
pub struct PipelineView {
    pub name: Seq<char>,
    pub stages: Seq<StageView>,
}

/// Why a pipeline could not be made.
#[derive(Clone, Copy, Debug, PartialEq, Eq, Structural)]
pub enum PipelineError {
    /// A pipeline needs at least one stage.
    NoStages,
}

/// A named, non-empty sequence of stages. Once made it does not change.
#[derive(Debug)]
pub struct Pipeline {
    name: String,
    stages: Vec<PipelineStage>,
}

impl View for Pipeline {
    type V = PipelineView;

    closed spec fn view(&self) -> PipelineView {
        PipelineView { name: self.name@, stages: views(self.stages@) }
    }
}

impl Pipeline {
    /// A pipeline has at least one stage.
    #[verifier::type_invariant]
    spec fn has_a_stage(&self) -> bool {
        self.stages@.len() > 0
    }

    /// Makes a pipeline of `stages`, in their order. Two stages may carry the
    /// same label. Without a stage there is no pipeline.
    pub fn new(name: String, stages: Vec<PipelineStage>) -> (made: Result<Pipeline, PipelineError>)
        ensures
            stages@.len() == 0 ==> made == Err::<Pipeline, PipelineError>(PipelineError::NoStages),
            stages@.len() > 0 ==> made is Ok && made->Ok_0@ == (PipelineView {
                name: name@,
                stages: views(stages@),
            }),
    {
        if stages.len() == 0 {
            Err(PipelineError::NoStages)
        } else {
            Ok(Pipeline { name, stages })
        }
    }

    /// Makes a pipeline of one stage.
    pub fn single(name: String, stage: PipelineStage) -> (made: Pipeline)
        ensures
            made@ == (PipelineView { name: name@, stages: seq![stage@] }),
    {
        let mut stages: Vec<PipelineStage> = Vec::new();
        stages.push(stage);
        assert(views(stages@) =~= seq![stage@]);
        Pipeline { name, stages }
    }

    /// The name of the pipeline.
    pub fn name(&self) -> (name: &String)
        ensures
            name@ == self@.name,
    {
        &self.name
    }

    /// The number of stages, which is never zero.
    pub fn len(&self) -> (len: usize)
        ensures
            len == self@.stages.len(),
            len > 0,
    {
        proof {
            use_type_invariant(self);
        }
        self.stages.len()
    }

    /// The stage at `index`, counted from zero.
    pub fn stage(&self, index: usize) -> (stage: Option<&PipelineStage>)
        ensures
            index >= self@.stages.len() ==> stage is None,
            index < self@.stages.len() ==> stage is Some && stage->0@ == self@.stages[index as int],
    {
        if index < self.stages.len() {
            Some(&self.stages[index])
        } else {
            None
        }
    }
}

/// Why a stage that ran did not succeed.
#[derive(Clone, Copy, Debug, PartialEq, Eq, Structural)]
pub enum ExitReason {
    /// The process exited with this code, which is not zero.
    Code(i32),
    /// The process ended without an exit code.
    Signal,
    /// The process was terminated on request, by a cancel or by a newer start.
    Cancelled,
}

/// How the process of a stage ended.
#[derive(Clone, Copy, Debug, PartialEq, Eq, Structural)]
pub enum StageExit {
    /// It exited with code zero.
    Succeeded,
    /// It did not.
    Failed(ExitReason),
}

/// The exit of a process, from the code it exited with, if it had one, and
/// from whether it had lost the slot before it exited.
///
/// Code zero is success. Any other exit of a process that had lost the slot
/// counts as cancelled, whatever code it left.
pub open spec fn classify_exit(code: Option<i32>, cancelled: bool) -> StageExit {
    if code == Some(0i32) {
        StageExit::Succeeded
    } else if cancelled {
        StageExit::Failed(ExitReason::Cancelled)
    } else {
        match code {
            Some(c) => StageExit::Failed(ExitReason::Code(c)),
            None => StageExit::Failed(ExitReason::Signal),
        }
    }
}

/// Computes [`classify_exit`].
pub fn stage_exit(code: Option<i32>, cancelled: bool) -> (exit: StageExit)
    ensures
        exit == classify_exit(code, cancelled),
{
    match code {
        Some(c) => {
            if c == 0 {
                StageExit::Succeeded
            } else if cancelled {
                StageExit::Failed(ExitReason::Cancelled)
            } else {
                StageExit::Failed(ExitReason::Code(c))
            }
        },
        None => {
            if cancelled {
                StageExit::Failed(ExitReason::Cancelled)
            } else {
                StageExit::Failed(ExitReason::Signal)
            }
        },
    }
}

/// Where a run stands.
#[derive(Clone, Copy, Debug, PartialEq, Eq, Structural)]
pub enum RunState {
    /// Nothing has been started.
    Idle,
    /// The stage with this index is the current one.
    Running(usize),
    /// Every stage exited with code zero.
    Succeeded,
    /// The stage with this index ran and did not succeed.
    Failed(usize, ExitReason),
    /// The process of the stage with this index could not be started.
    SpawnFailed(usize),
}

impl RunState {
    /// Whether the run is over. A run that is over stays as it is.
    pub open spec fn is_terminal(self) -> bool {
        self is Succeeded || self is Failed || self is SpawnFailed
    }
}

/// The three ways in which a run ends.
#[derive(Clone, Copy, Debug, PartialEq, Eq, Structural)]
pub enum Outcome {
    /// Every stage succeeded.
    Success,
    /// A stage ran and did not succeed.
    Failed,
    /// A stage could not be started.
    Aborted,
}

/// What a run came to.
#[derive(Clone, Copy, Debug, PartialEq, Eq)]
pub struct PipelineResult {
    pub outcome: Outcome,
    /// The stage at which the run stopped, unless it succeeded.
    pub failing_stage_index: Option<usize>,
    /// The code that the failing stage exited with, if it ran, left a code
    /// and was not cancelled.
    pub exit_code: Option<i32>,
    /// Whether the failing stage was terminated on request.
    pub cancelled: bool,
}

/// The result that a state stands for, if the state ends a run.
pub open spec fn result_of(state: RunState) -> Option<PipelineResult> {
    match state {
        RunState::Idle => None,
        RunState::Running(_) => None,
        RunState::Succeeded => Some(
            PipelineResult {
                outcome: Outcome::Success,
                failing_stage_index: None,
                exit_code: None,
                cancelled: false,
            },
        ),
        RunState::Failed(index, reason) => Some(
            PipelineResult {
                outcome: Outcome::Failed,
                failing_stage_index: Some(index),
                exit_code: match reason {
                    ExitReason::Code(code) => Some(code),
                    _ => None,
                },
                cancelled: reason is Cancelled,
            },
        ),
        RunState::SpawnFailed(index) => Some(
            PipelineResult {
                outcome: Outcome::Aborted,
                failing_stage_index: Some(index),
                exit_code: None,
                cancelled: false,
            },
        ),
    }
}

impl RunState {
    /// Computes [`result_of`].
    pub fn result(self) -> (result: Option<PipelineResult>)
        ensures
            result == result_of(self),
    {
        match self {
            RunState::Idle => None,
            RunState::Running(_) => None,
            RunState::Succeeded => Some(
                PipelineResult {
                    outcome: Outcome::Success,
                    failing_stage_index: None,
                    exit_code: None,
                    cancelled: false,
                },
            ),
            RunState::Failed(index, reason) => {
                let (exit_code, cancelled) = match reason {
                    ExitReason::Code(code) => (Some(code), false),
                    ExitReason::Signal => (None, false),
                    ExitReason::Cancelled => (None, true),
                };
                Some(
                    PipelineResult {
                        outcome: Outcome::Failed,
                        failing_stage_index: Some(index),
                        exit_code,
                        cancelled,
                    },
                )
            },
            RunState::SpawnFailed(index) => Some(
                PipelineResult {
                    outcome: Outcome::Aborted,
                    failing_stage_index: Some(index),
                    exit_code: None,
                    cancelled: false,
                },
            ),
        }
    }
}

} // verus!
