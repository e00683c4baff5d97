//! A run of a pipeline as a state machine over mathematical values.
//!
//! The machine is driven from outside: something starts the processes, reads
//! their streams and waits for them, and tells the machine what happened.
//! Each step yields the next state and the events for the sink. Steps that
//! make no sense in a state change nothing and yield nothing, so a run that
//! is over stays over.

use crate::services::events::{LifecycleEventView, SinkEventView};
use crate::services::pipeline::{
    classify_exit, result_of, ExitReason, Outcome, PipelineResult, PipelineView, RunState,
    StageExit,
};
use crate::services::process_store::{ProcessHandle, SpawnError, SupervisorView};
use crate::services::process_stream::{MuxView, OutputEventView, StreamSource};
use vstd::prelude::*;

verus! {

/// What the driver of a run has to do next.
#[derive(Clone, Copy, Debug, PartialEq, Eq)]
pub enum Action {
    /// Begin the run.
    Begin,
    /// Start the process of the stage with this index, and report how that
    /// went.
    Spawn(usize),
    /// Read the streams of this process and wait for its exit.
    Wait(ProcessHandle),
    /// Nothing: the run is over, with this result.
    Finished(PipelineResult),
}

/// The state of a run as a mathematical value.
pub struct RunnerView {
    pub pipeline: PipelineView,
    pub working_directory: Seq<char>,
    pub state: RunState,
    /// The process of the current stage, once it has been started.
    pub handle: Option<ProcessHandle>,
    /// How that process exited, while its streams have not both ended.
    pub exit: Option<StageExit>,
    /// The line reader attached to that process.
    pub mux: MuxView,
}

impl RunnerView {
    /// A run that has not begun.
    pub open spec fn fresh(pipeline: PipelineView, working_directory: Seq<char>) -> RunnerView {
        RunnerView {
            pipeline,
            working_directory,
            state: RunState::Idle,
            handle: None,
            exit: None,
            mux: MuxView::attached(),
        }
    }

    /// What holds of every state that a run can reach.
    pub open spec fn wf(self) -> bool {
        &&& 0 < self.pipeline.stages.len() <= usize::MAX
        &&& match self.state {
            RunState::Idle => true,
            RunState::Running(index) => index < self.pipeline.stages.len(),
            RunState::Succeeded => true,
            RunState::Failed(index, reason) => {
                &&& index < self.pipeline.stages.len()
                &&& reason != ExitReason::Code(0)
            },
            RunState::SpawnFailed(index) => index < self.pipeline.stages.len(),
        }
        &&& self.handle is Some ==> self.state is Running
        &&& self.exit is Some ==> self.handle is Some && !self.mux.drained()
        &&& self.exit != Some(StageExit::Failed(ExitReason::Code(0)))
    }

    /// The label of the stage with this index.
    pub open spec fn label(self, index: usize) -> Seq<char> {
        self.pipeline.stages[index as int].label
    }

    /// What the driver has to do in this state.
    pub open spec fn action(self) -> Action {
        match self.state {
            RunState::Idle => Action::Begin,
            RunState::Running(index) => match self.handle {
                None => Action::Spawn(index),
                Some(handle) => Action::Wait(handle),
            },
            RunState::Succeeded => Action::Finished(result_of(self.state)->0),
            RunState::Failed(_, _) => Action::Finished(result_of(self.state)->0),
            RunState::SpawnFailed(_) => Action::Finished(result_of(self.state)->0),
        }
    }

    /// The lines of the stage `index`, as the sink gets them: each with the
    /// index and the label of the stage.
    pub open spec fn labelled(self, index: usize, outputs: Seq<OutputEventView>) -> Seq<
        SinkEventView,
    > {
        Seq::new(
            outputs.len(),
            |i: int|
                SinkEventView::Output {
                    stage_index: index,
                    label: self.label(index),
                    event: outputs[i],
                },
        )
    }

    /// The run begins: the first stage becomes the current one.
    pub open spec fn begin(self) -> (RunnerView, Seq<SinkEventView>) {
        if self.state is Idle {
            (
                RunnerView { state: RunState::Running(0), ..self },
                seq![
                    SinkEventView::Lifecycle(
                        LifecycleEventView::PipelineStarted { name: self.pipeline.name },
                    ),
                ],
            )
        } else {
            (self, Seq::empty())
        }
    }

    /// The attempt to start the process of the current stage ended as
    /// `started`. A started process gets a fresh line reader. A failed start
    /// ends the run at this stage.
    pub open spec fn on_spawn(self, started: Result<ProcessHandle, SpawnError>) -> (
        RunnerView,
        Seq<SinkEventView>,
    ) {
        match self.state {
            RunState::Running(index) if self.handle is None => match started {
                Ok(handle) => (
                    RunnerView {
                        handle: Some(handle),
                        exit: None,
                        mux: MuxView::attached(),
                        ..self
                    },
                    seq![
                        SinkEventView::Lifecycle(
                            LifecycleEventView::StageStarted {
                                stage_index: index,
                                label: self.label(index),
                            },
                        ),
                    ],
                ),
                Err(_) => {
                    let state = RunState::SpawnFailed(index);
                    (
                        RunnerView { state, ..self },
                        seq![
                            SinkEventView::Lifecycle(
                                LifecycleEventView::PipelineFinished {
                                    result: result_of(state)->0,
                                },
                            ),
                        ],
                    )
                },
            },
            _ => (self, Seq::empty()),
        }
    }

    /// The current stage ends with `exit`: its process has exited and both
    /// its streams have ended. After a success the next stage becomes the
    /// current one, or the run succeeds if there is none, and then the
    /// artifacts are announced. After a failure the run is over.
    pub open spec fn finish(self, index: usize, exit: StageExit) -> (RunnerView, Seq<
        SinkEventView,
    >) {
        let finished = SinkEventView::Lifecycle(
            LifecycleEventView::StageFinished { stage_index: index, exit },
        );
        let state = match exit {
            StageExit::Succeeded => if index + 1 < self.pipeline.stages.len() {
                RunState::Running((index + 1) as usize)
            } else {
                RunState::Succeeded
            },
            StageExit::Failed(reason) => RunState::Failed(index, reason),
        };
        let after = RunnerView { state, handle: None, exit: None, ..self };
        match result_of(state) {
            None => (after, seq![finished]),
            Some(result) => {
                let over = SinkEventView::Lifecycle(LifecycleEventView::PipelineFinished { result });
                if result.outcome is Success {
                    (
                        after,
                        seq![
                            finished,
                            over,
                            SinkEventView::Lifecycle(
                                LifecycleEventView::ArtifactsReady {
                                    working_directory: self.working_directory,
                                },
                            ),
                        ],
                    )
                } else {
                    (after, seq![finished, over])
                }
            },
        }
    }

    /// Ends the current stage if its exit is known and both its streams have
    /// ended. `events` are the events of the step so far.
    pub open spec fn settle(self, events: Seq<SinkEventView>) -> (RunnerView, Seq<SinkEventView>) {
        match (self.state, self.exit) {
            (RunState::Running(index), Some(exit)) if self.mux.drained() => {
                let (after, more) = self.finish(index, exit);
                (after, events + more)
            },
            _ => (self, events),
        }
    }

    /// A chunk was read from a stream of the current process.
    pub open spec fn on_output(self, source: StreamSource, chunk: Seq<u8>) -> (RunnerView, Seq<
        SinkEventView,
    >) {
        match (self.state, self.handle) {
            (RunState::Running(index), Some(_)) => {
                let (mux, outputs) = self.mux.feed(source, chunk);
                (RunnerView { mux, ..self }, self.labelled(index, outputs))
            },
            _ => (self, Seq::empty()),
        }
    }

    /// A stream of the current process ended.
    pub open spec fn on_stream_end(self, source: StreamSource) -> (RunnerView, Seq<SinkEventView>) {
        match (self.state, self.handle) {
            (RunState::Running(index), Some(_)) => {
                let (mux, outputs) = self.mux.close(source);
                (RunnerView { mux, ..self }).settle(self.labelled(index, outputs))
            },
            _ => (self, Seq::empty()),
        }
    }

    /// Reading a stream of the current process failed.
    pub open spec fn on_stream_fault(self, source: StreamSource, description: Seq<char>) -> (
        RunnerView,
        Seq<SinkEventView>,
    ) {
        match (self.state, self.handle) {
            (RunState::Running(index), Some(_)) => {
                let (mux, outputs) = self.mux.fault(source, description);
                (RunnerView { mux, ..self }).settle(self.labelled(index, outputs))
            },
            _ => (self, Seq::empty()),
        }
    }

    /// The current process exited. `cancelled` says that it had lost the
    /// slot before. Only the first report of an exit counts.
    pub open spec fn on_exit(self, code: Option<i32>, cancelled: bool) -> (RunnerView, Seq<
        SinkEventView,
    >) {
        match (self.state, self.handle) {
            (RunState::Running(_), Some(_)) if self.exit is None => (RunnerView {
                exit: Some(classify_exit(code, cancelled)),
                ..self
            }).settle(Seq::empty()),
            _ => (self, Seq::empty()),
        }
    }
}

impl RunnerView {
    /// The driver tried to create the process of the current stage, which
    /// ended as `spawned`. The supervisor takes the slot over and issues the
    /// handle, and the run learns of it. The process that held the slot
    /// before is handed out, to be terminated. Where the run asked for no
    /// start, nothing happens.
    pub open spec fn start_stage(
        self,
        supervisor: SupervisorView,
        spawned: Result<u32, SpawnError>,
    ) -> (RunnerView, SupervisorView, Option<ProcessHandle>, Seq<SinkEventView>) {
        if self.action() is Spawn {
            let (slot, outcome) = supervisor.start(spawned);
            let (run, events) = self.on_spawn(outcome.result);
            (run, slot, outcome.displaced, events)
        } else {
            (self, supervisor, None, Seq::empty())
        }
    }

    /// The process of the current stage exited with `code`. It counts as
    /// cancelled if the slot no longer holds it; if the slot still does, the
    /// slot is cleared. Only the first report of an exit counts.
    pub open spec fn finish_stage(self, supervisor: SupervisorView, code: Option<i32>) -> (
        RunnerView,
        SupervisorView,
        Seq<SinkEventView>,
    ) {
        match self.handle {
            Some(handle) if self.exit is None => {
                let (slot, held) = supervisor.release(handle);
                let (run, events) = self.on_exit(code, !held);
                (run, slot, events)
            },
            _ => (self, supervisor, Seq::empty()),
        }
    }
}

/// One thing that the driver tells the machine.
pub enum RunInput {
    /// The run is to begin.
    Begin,
    /// The start of the current stage's process went like this.
    Spawned(Result<ProcessHandle, SpawnError>),
    /// This chunk was read from this stream.
    Output(StreamSource, Seq<u8>),
    /// This stream ended.
    StreamEnd(StreamSource),
    /// Reading this stream failed, as described.
    StreamFault(StreamSource, Seq<char>),
    /// The process exited with this code; it had lost the slot or not.
    Exited(Option<i32>, bool),
}

impl RunnerView {
    /// One step of the machine.
    pub open spec fn step(self, input: RunInput) -> (RunnerView, Seq<SinkEventView>) {
        match input {
            RunInput::Begin => self.begin(),
            RunInput::Spawned(started) => self.on_spawn(started),
            RunInput::Output(source, chunk) => self.on_output(source, chunk),
            RunInput::StreamEnd(source) => self.on_stream_end(source),
            RunInput::StreamFault(source, description) => self.on_stream_fault(source, description),
            RunInput::Exited(code, cancelled) => self.on_exit(code, cancelled),
        }
    }

    /// The steps for `inputs`, one after the other: the state they lead to,
    /// and all the events that they yield, in order.
    pub open spec fn replay(self, inputs: Seq<RunInput>) -> (RunnerView, Seq<SinkEventView>)
        decreases inputs.len(),
    {
        if inputs.len() == 0 {
            (self, Seq::empty())
        } else {
            let (reached, events) = self.replay(inputs.drop_last());
            let (after, more) = reached.step(inputs.last());
            (after, events + more)
        }
    }
}

} // verus!
