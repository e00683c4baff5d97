//! The executable run of a pipeline.
//!
//! A [`PipelineRunner`] decides; its driver acts. The driver asks
//! [`PipelineRunner::next_action`] what to do, does it, and reports what came
//! of it through the `on_` methods. Each of them hands back the events for
//! the sink, in the order in which the sink is to receive them.

use crate::services::events::{LifecycleEvent, SinkEvent, SinkEventView};
use crate::services::pipeline::{
    result_of, stage_exit, Pipeline, PipelineResult, RunState, StageExit,
};
use crate::services::process_store::{ProcessHandle, ProcessSupervisor, SpawnError};
use crate::services::process_stream::{OutputEvent, OutputMultiplexer, StreamSource};
use crate::services::run_model::{Action, RunnerView};
use crate::views::views;
use vstd::prelude::*;

verus! {

/// One run of one pipeline.
pub struct PipelineRunner {
    pipeline: Pipeline,
    working_directory: String,
    state: RunState,
    handle: Option<ProcessHandle>,
    exit: Option<StageExit>,
    mux: OutputMultiplexer,
}

impl View for PipelineRunner {
    type V = RunnerView;

    closed spec fn view(&self) -> RunnerView {
        RunnerView {
            pipeline: self.pipeline@,
            working_directory: self.working_directory@,
            state: self.state,
            handle: self.handle,
            exit: self.exit,
            mux: self.mux@,
        }
    }
}

/// What the start of a stage came to.
#[derive(Debug)]
pub struct StageStart {
    /// The process that held the slot before, for the driver to terminate.
    pub displaced: Option<ProcessHandle>,
    /// The events for the sink.
    pub events: Vec<SinkEvent>,
}

/// Puts the index and the label of a stage on each of its lines.
fn labelled(index: usize, label: &String, outputs: Vec<OutputEvent>) -> (events: Vec<SinkEvent>)
    ensures
        events@.len() == outputs@.len(),
        forall|i: int|
            0 <= i < outputs@.len() ==> (#[trigger] events@[i])@ == (SinkEventView::Output {
                stage_index: index,
                label: label@,
                event: outputs@[i]@,
            }),
{
    let mut events: Vec<SinkEvent> = Vec::new();
    for event in iter: outputs
        invariant
            events@.len() == iter.index(),
            forall|i: int|
                0 <= i < events@.len() ==> (#[trigger] events@[i])@ == (SinkEventView::Output {
                    stage_index: index,
                    label: label@,
                    event: iter.seq()[i]@,
                }),
    {
        events.push(SinkEvent::Output { stage_index: index, label: label.clone(), event });
    }
    events
}

impl PipelineRunner {
    /// A runner is only ever in a state that a run can reach.
    #[verifier::type_invariant]
    spec fn reachable(&self) -> bool {
        self@.wf()
    }

    /// A run of `pipeline` that has not begun. `working_directory` is where
    /// the artifacts of a successful run are announced to be.
    pub fn new(pipeline: Pipeline, working_directory: String) -> (runner: PipelineRunner)
        ensures
            runner@ == RunnerView::fresh(pipeline@, working_directory@),
            runner@.wf(),
    {
        let _ = pipeline.len();
        PipelineRunner {
            pipeline,
            working_directory,
            state: RunState::Idle,
            handle: None,
            exit: None,
            mux: OutputMultiplexer::attach(),
        }
    }

    /// Where the run stands.
    pub fn state(&self) -> (state: RunState)
        ensures
            state == self@.state,
            self@.wf(),
    {
        proof {
            use_type_invariant(self);
        }
        self.state
    }

    /// The pipeline that is run.
    pub fn pipeline(&self) -> (pipeline: &Pipeline)
        ensures
            pipeline@ == self@.pipeline,
    {
        &self.pipeline
    }

    /// The result, once the run is over.
    pub fn result(&self) -> (result: Option<PipelineResult>)
        ensures
            result == result_of(self@.state),
    {
        self.state.result()
    }

    /// What the driver has to do next.
    pub fn next_action(&self) -> (action: Action)
        ensures
            action == self@.action(),
    {
        match self.state {
            RunState::Idle => Action::Begin,
            RunState::Running(index) => match self.handle {
                None => Action::Spawn(index),
                Some(handle) => Action::Wait(handle),
            },
            _ => match self.state.result() {
                Some(result) => Action::Finished(result),
                None => Action::Begin,
            },
        }
    }

    /// The label of the stage with this index.
    fn label_of(&self, index: usize) -> (label: String)
        requires
            index < self@.pipeline.stages.len(),
        ensures
            label@ == self@.label(index),
    {
        match self.pipeline.stage(index) {
            Some(stage) => stage.label.clone(),
            None => String::new(),
        }
    }

    /// Begins the run. A run that has begun is left as it is.
    pub fn begin(&mut self) -> (events: Vec<SinkEvent>)
        ensures
            (final(self)@, views(events@)) == old(self)@.begin(),
            final(self)@.wf(),
    {
        proof {
            use_type_invariant(&*self);
        }
        let mut events: Vec<SinkEvent> = Vec::new();
        match self.state {
            RunState::Idle => {
                self.state = RunState::Running(0);
                events.push(
                    SinkEvent::Lifecycle(
                        LifecycleEvent::PipelineStarted { name: self.pipeline.name().clone() },
                    ),
                );
                assert(views(events@) =~= old(self)@.begin().1);
            },
            _ => {
                assert(views(events@) =~= old(self)@.begin().1);
            },
        }
        events
    }

    /// Reports how the start of the current stage's process went. Where no
    /// start was asked for, the report is ignored.
    pub fn on_spawn(&mut self, started: Result<ProcessHandle, SpawnError>) -> (events: Vec<
        SinkEvent,
    >)
        ensures
            (final(self)@, views(events@)) == old(self)@.on_spawn(started),
            final(self)@.wf(),
    {
        proof {
            use_type_invariant(&*self);
        }
        let mut events: Vec<SinkEvent> = Vec::new();
        match (self.state, self.handle) {
            (RunState::Running(index), None) => match started {
                Ok(handle) => {
                    let label = self.label_of(index);
                    self.mux = OutputMultiplexer::attach();
                    self.handle = Some(handle);
                    events.push(
                        SinkEvent::Lifecycle(
                            LifecycleEvent::StageStarted { stage_index: index, label },
                        ),
                    );
                    assert(views(events@) =~= old(self)@.on_spawn(started).1);
                },
                Err(_) => {
                    let state = RunState::SpawnFailed(index);
                    self.state = state;
                    match state.result() {
                        Some(result) => {
                            events.push(
                                SinkEvent::Lifecycle(LifecycleEvent::PipelineFinished { result }),
                            );
                        },
                        None => {},
                    }
                    assert(views(events@) =~= old(self)@.on_spawn(started).1);
                },
            },
            _ => {
                assert(views(events@) =~= old(self)@.on_spawn(started).1);
            },
        }
        events
    }

    /// Whether a chunk of `len` bytes can be reported with
    /// [`PipelineRunner::on_output`]: the lines it may complete must all get
    /// a number.
    pub fn has_room(&self, len: usize) -> (room: bool)
        ensures
            room == (self@.handle is Some ==> self@.mux.next_sequence + len + 2 <= u64::MAX),
    {
        match self.handle {
            Some(_) => self.mux.has_room(len),
            None => true,
        }
    }

    /// Ends the current stage if its exit is known and `mux`, its line
    /// reader, has seen both streams end. Puts `mux` back either way.
    fn settle(&mut self, index: usize, mux: OutputMultiplexer, events: &mut Vec<SinkEvent>)
        requires
            old(self)@.state == RunState::Running(index),
            old(self)@.handle is Some,
        ensures
            (final(self)@, views(final(events)@)) == (RunnerView { mux: mux@, ..old(self)@ }).settle(
                views(old(events)@),
            ),
            final(self)@.wf(),
    {
        proof {
            use_type_invariant(&*self);
        }
        let ghost before = RunnerView { mux: mux@, ..old(self)@ };
        let ghost earlier = views(events@);
        match self.exit {
            Some(exit) => {
                if mux.drained() {
                    let count = self.pipeline.len();
                    let state = match exit {
                        StageExit::Succeeded => if index + 1 < count {
                            RunState::Running(index + 1)
                        } else {
                            RunState::Succeeded
                        },
                        StageExit::Failed(reason) => RunState::Failed(index, reason),
                    };
                    self.exit = None;
                    self.handle = None;
                    self.state = state;
                    self.mux = mux;
                    events.push(
                        SinkEvent::Lifecycle(
                            LifecycleEvent::StageFinished { stage_index: index, exit },
                        ),
                    );
                    match state.result() {
                        Some(result) => {
                            events.push(
                                SinkEvent::Lifecycle(LifecycleEvent::PipelineFinished { result }),
                            );
                            match state {
                                RunState::Succeeded => {
                                    events.push(
                                        SinkEvent::Lifecycle(
                                            LifecycleEvent::ArtifactsReady {
                                                working_directory: self.working_directory.clone(),
                                            },
                                        ),
                                    );
                                },
                                _ => {},
                            }
                        },
                        None => {},
                    }
                    assert(views(events@) =~= earlier + before.finish(index, exit).1);
                } else {
                    self.mux = mux;
                }
            },
            None => {
                self.mux = mux;
            },
        }
    }

    /// Reports a chunk read from a stream of the current process, and hands
    /// back one event for each line that the chunk completes. Without a
    /// current process the chunk is ignored.
    pub fn on_output(&mut self, source: StreamSource, chunk: &[u8]) -> (events: Vec<SinkEvent>)
        requires
            old(self)@.handle is Some ==> old(self)@.mux.next_sequence + chunk@.len() + 2
                <= u64::MAX,
        ensures
            (final(self)@, views(events@)) == old(self)@.on_output(source, chunk@),
            final(self)@.wf(),
    {
        proof {
            use_type_invariant(&*self);
        }
        match (self.state, self.handle) {
            (RunState::Running(index), Some(_)) => {
                let mut mux = OutputMultiplexer::attach();
                core::mem::swap(&mut mux, &mut self.mux);
                let outputs = mux.feed(source, chunk);
                self.mux = mux;
                let label = self.label_of(index);
                let events = labelled(index, &label, outputs);
                assert(views(events@) =~= old(self)@.on_output(source, chunk@).1);
                events
            },
            _ => {
                let events: Vec<SinkEvent> = Vec::new();
                assert(views(events@) =~= old(self)@.on_output(source, chunk@).1);
                events
            },
        }
    }

    /// Reports that a stream of the current process has ended. A last line
    /// without terminator is handed back; and if the exit of the process is
    /// known and the other stream has ended too, the stage is over.
    pub fn on_stream_end(&mut self, source: StreamSource) -> (events: Vec<SinkEvent>)
        ensures
            (final(self)@, views(events@)) == old(self)@.on_stream_end(source),
            final(self)@.wf(),
    {
        proof {
            use_type_invariant(&*self);
        }
        match (self.state, self.handle) {
            (RunState::Running(index), Some(_)) => {
                let mut mux = OutputMultiplexer::attach();
                core::mem::swap(&mut mux, &mut self.mux);
                let outputs = mux.close(source);
                let label = self.label_of(index);
                let mut events = labelled(index, &label, outputs);
                assert(views(events@) =~= old(self)@.labelled(index, old(self)@.mux.close(source).1));
                self.settle(index, mux, &mut events);
                events
            },
            _ => {
                let events: Vec<SinkEvent> = Vec::new();
                assert(views(events@) =~= old(self)@.on_stream_end(source).1);
                events
            },
        }
    }

    /// Reports that reading a stream of the current process has failed. The
    /// stream counts as ended, and the fault is handed back as one line of
    /// that stream.
    pub fn on_stream_fault(&mut self, source: StreamSource, description: String) -> (events: Vec<
        SinkEvent,
    >)
        ensures
            (final(self)@, views(events@)) == old(self)@.on_stream_fault(source, description@),
            final(self)@.wf(),
    {
        proof {
            use_type_invariant(&*self);
        }
        match (self.state, self.handle) {
            (RunState::Running(index), Some(_)) => {
                let mut mux = OutputMultiplexer::attach();
                core::mem::swap(&mut mux, &mut self.mux);
                let ghost told = description@;
                let outputs = mux.fault(source, description);
                let label = self.label_of(index);
                let mut events = labelled(index, &label, outputs);
                assert(views(events@) =~= old(self)@.labelled(
                    index,
                    old(self)@.mux.fault(source, told).1,
                ));
                self.settle(index, mux, &mut events);
                events
            },
            _ => {
                let events: Vec<SinkEvent> = Vec::new();
                assert(views(events@) =~= old(self)@.on_stream_fault(source, description@).1);
                events
            },
        }
    }

    /// Reports the exit of the current process: the code it left, if any,
    /// and whether it had lost the slot before it exited. The stage is over
    /// once both streams have ended too.
    pub fn on_exit(&mut self, code: Option<i32>, cancelled: bool) -> (events: Vec<SinkEvent>)
        ensures
            (final(self)@, views(events@)) == old(self)@.on_exit(code, cancelled),
            final(self)@.wf(),
    {
        proof {
            use_type_invariant(&*self);
        }
        let mut events: Vec<SinkEvent> = Vec::new();
        assert(views(events@) =~= Seq::<SinkEventView>::empty());
        match (self.state, self.handle, self.exit) {
            (RunState::Running(index), Some(_), None) => {
                let mut mux = OutputMultiplexer::attach();
                core::mem::swap(&mut mux, &mut self.mux);
                if mux.drained() {
                    self.exit = Some(stage_exit(code, cancelled));
                    self.settle(index, mux, &mut events);
                } else {
                    self.mux = mux;
                    self.exit = Some(stage_exit(code, cancelled));
                }
            },
            _ => {},
        }
        events
    }

    /// Reports how creating the process of the current stage went, as the
    /// identifier of the created process or as the reason why there is none.
    /// The supervisor takes the slot over for it. Call this when
    /// [`PipelineRunner::next_action`] asks for a start; otherwise nothing
    /// happens.
    pub fn start_stage(
        &mut self,
        supervisor: &mut ProcessSupervisor,
        spawned: Result<u32, SpawnError>,
    ) -> (started: StageStart)
        requires
            spawned is Ok ==> old(supervisor)@.issued < u64::MAX,
        ensures
            (final(self)@, final(supervisor)@, started.displaced, views(started.events@)) == old(
                self,
            )@.start_stage(old(supervisor)@, spawned),
            final(self)@.wf(),
            final(supervisor)@.wf(),
    {
        match self.next_action() {
            Action::Spawn(_) => {
                let outcome = supervisor.start(spawned);
                let events = self.on_spawn(outcome.result);
                StageStart { displaced: outcome.displaced, events }
            },
            _ => {
                proof {
                    use_type_invariant(&*self);
                }
                let _ = supervisor.current();
                let events: Vec<SinkEvent> = Vec::new();
                assert(views(events@) =~= Seq::<SinkEventView>::empty());
                StageStart { displaced: None, events }
            },
        }
    }

    /// Reports that the process of the current stage exited with `code`, or
    /// without one. Whether it was cancelled is read off the slot, which is
    /// cleared if it still held the process.
    pub fn finish_stage(&mut self, supervisor: &mut ProcessSupervisor, code: Option<i32>) -> (events:
        Vec<SinkEvent>)
        ensures
            (final(self)@, final(supervisor)@, views(events@)) == old(self)@.finish_stage(
                old(supervisor)@,
                code,
            ),
            final(self)@.wf(),
            final(supervisor)@.wf(),
    {
        match (self.handle, self.exit) {
            (Some(handle), None) => {
                let held = supervisor.release(handle);
                self.on_exit(code, !held)
            },
            _ => {
                proof {
                    use_type_invariant(&*self);
                }
                let _ = supervisor.current();
                let events: Vec<SinkEvent> = Vec::new();
                assert(views(events@) =~= Seq::<SinkEventView>::empty());
                events
            },
        }
    }
}

} // verus!
