//! What holds of every run, whatever the driver reports and in whatever
//! order.

use crate::services::events::{LifecycleEventView, SinkEventView};
use crate::services::pipeline::{
    result_of, ExitReason, Outcome, PipelineView, RunState, StageExit,
};
use crate::services::process_stream::StreamSource;
use crate::services::run_model::{RunInput, RunnerView};
use vstd::prelude::*;

verus! {

/// Every step leads from a reachable state to a reachable state.
pub proof fn lemma_step_preserves_wf(before: RunnerView, input: RunInput)
    requires
        before.wf(),
    ensures
        before.step(input).0.wf(),
        before.step(input).0.pipeline == before.pipeline,
        before.step(input).0.working_directory == before.working_directory,
{
}

/// A run that is over stays over: no report changes its state, and none
/// yields an event.
pub proof fn lemma_terminal_is_final(before: RunnerView, input: RunInput)
    requires
        before.wf(),
        before.state.is_terminal(),
    ensures
        before.step(input) == (before, Seq::<SinkEventView>::empty()),
{
}

/// How many of `events` are `wanted`.
pub open spec fn count(events: Seq<SinkEventView>, wanted: spec_fn(SinkEventView) -> bool) -> nat
    decreases events.len(),
{
    if events.len() == 0 {
        0
    } else {
        count(events.drop_last(), wanted) + if wanted(events.last()) {
            1nat
        } else {
            0nat
        }
    }
}

/// The notification that the process of stage `index` has been started.
pub open spec fn starts_stage(index: usize) -> spec_fn(SinkEventView) -> bool {
    |event: SinkEventView|
        event matches SinkEventView::Lifecycle(LifecycleEventView::StageStarted { stage_index, .. })
            && stage_index == index
}

/// The notification that stage `index` is over.
pub open spec fn finishes_stage(index: usize) -> spec_fn(SinkEventView) -> bool {
    |event: SinkEventView|
        event matches SinkEventView::Lifecycle(
            LifecycleEventView::StageFinished { stage_index, .. },
        ) && stage_index == index
}

/// The notification that the run has begun.
pub open spec fn starts_pipeline() -> spec_fn(SinkEventView) -> bool {
    |event: SinkEventView|
        event matches SinkEventView::Lifecycle(LifecycleEventView::PipelineStarted { .. })
}

/// The notification that the run is over.
pub open spec fn finishes_pipeline() -> spec_fn(SinkEventView) -> bool {
    |event: SinkEventView|
        event matches SinkEventView::Lifecycle(LifecycleEventView::PipelineFinished { .. })
}

/// The notification that the artifacts are ready.
pub open spec fn announces_artifacts() -> spec_fn(SinkEventView) -> bool {
    |event: SinkEventView|
        event matches SinkEventView::Lifecycle(LifecycleEventView::ArtifactsReady { .. })
}

/// A line of output.
pub open spec fn is_output(event: SinkEventView) -> bool {
    event is Output
}

/// Counting over two lists of events is counting over each and adding up.
pub proof fn lemma_count_concat(
    first: Seq<SinkEventView>,
    second: Seq<SinkEventView>,
    wanted: spec_fn(SinkEventView) -> bool,
)
    ensures
        count(first + second, wanted) == count(first, wanted) + count(second, wanted),
    decreases second.len(),
{
    if second.len() == 0 {
        assert(first + second =~= first);
    } else {
        lemma_count_concat(first, second.drop_last(), wanted);
        assert((first + second).drop_last() =~= first + second.drop_last());
    }
}

/// Where no event is wanted, none is counted.
pub proof fn lemma_count_none(events: Seq<SinkEventView>, wanted: spec_fn(SinkEventView) -> bool)
    requires
        forall|i: int| 0 <= i < events.len() ==> !wanted(#[trigger] events[i]),
    ensures
        count(events, wanted) == 0,
    decreases events.len(),
{
    if events.len() > 0 {
        lemma_count_none(events.drop_last(), wanted);
    }
}

/// Whether the process of stage `index` has been started in a run that
/// stands at `state`.
pub open spec fn stage_started(run: RunnerView, index: usize) -> bool {
    match run.state {
        RunState::Idle => false,
        RunState::Running(current) => index < current || (index == current && run.handle is Some),
        RunState::Succeeded => index < run.pipeline.stages.len(),
        RunState::Failed(failing, _) => index <= failing,
        RunState::SpawnFailed(failing) => index < failing,
    }
}

/// Whether stage `index` is over in a run that stands at `state`.
pub open spec fn stage_finished(run: RunnerView, index: usize) -> bool {
    match run.state {
        RunState::Idle => false,
        RunState::Running(current) => index < current,
        RunState::Succeeded => index < run.pipeline.stages.len(),
        RunState::Failed(failing, _) => index <= failing,
        RunState::SpawnFailed(failing) => index < failing,
    }
}

/// One if the condition holds, zero if it does not.
pub open spec fn one_if(condition: bool) -> nat {
    if condition {
        1
    } else {
        0
    }
}

/// The events of a run so far agree with the state that it has reached:
/// each notification has been given once if its moment has come, and not at
/// all if it has not.
pub open spec fn accounted(run: RunnerView, events: Seq<SinkEventView>) -> bool {
    &&& forall|index: usize| #[trigger]
        count(events, starts_stage(index)) == one_if(stage_started(run, index))
    &&& forall|index: usize| #[trigger]
        count(events, finishes_stage(index)) == one_if(stage_finished(run, index))
    &&& count(events, starts_pipeline()) == one_if(!(run.state is Idle))
    &&& count(events, finishes_pipeline()) == one_if(run.state.is_terminal())
    &&& count(events, announces_artifacts()) == one_if(run.state is Succeeded)
}

/// The lifecycle notifications among the events of one step. Lines of
/// output are left out.
pub open spec fn notifications(before: RunnerView, input: RunInput) -> Seq<SinkEventView> {
    let (after, events) = before.step(input);
    let finished = |index: usize, exit: StageExit|
        SinkEventView::Lifecycle(LifecycleEventView::StageFinished { stage_index: index, exit });
    let over = SinkEventView::Lifecycle(
        LifecycleEventView::PipelineFinished { result: result_of(after.state)->0 },
    );
    let ready = SinkEventView::Lifecycle(
        LifecycleEventView::ArtifactsReady { working_directory: before.working_directory },
    );
    if after.state == before.state && after.handle == before.handle {
        Seq::empty()
    } else {
        match before.state {
            RunState::Idle => seq![
                SinkEventView::Lifecycle(
                    LifecycleEventView::PipelineStarted { name: before.pipeline.name },
                ),
            ],
            RunState::Running(index) => if before.handle is None {
                if after.state is SpawnFailed {
                    seq![over]
                } else {
                    seq![
                        SinkEventView::Lifecycle(
                            LifecycleEventView::StageStarted {
                                stage_index: index,
                                label: before.label(index),
                            },
                        ),
                    ]
                }
            } else {
                match after.state {
                    RunState::Running(_) => seq![finished(index, StageExit::Succeeded)],
                    RunState::Succeeded => seq![finished(index, StageExit::Succeeded), over, ready],
                    RunState::Failed(_, reason) => seq![
                        finished(index, StageExit::Failed(reason)),
                        over,
                    ],
                    _ => Seq::empty(),
                }
            },
            _ => Seq::empty(),
        }
    }
}

/// The events of one step are lines of output, followed by the lifecycle
/// notifications of that step.
pub proof fn lemma_step_events(before: RunnerView, input: RunInput)
    requires
        before.wf(),
    ensures
        exists|outputs: Seq<SinkEventView>|
            {
                &&& (forall|i: int| 0 <= i < outputs.len() ==> is_output(#[trigger] outputs[i]))
                &&& before.step(input).1 == outputs + notifications(before, input)
            },
{
    let (after, events) = before.step(input);
    let notes = notifications(before, input);
    let outputs = events.subrange(0, events.len() - notes.len());
    match input {
        RunInput::Begin => {
            assert(events =~= outputs + notes);
        },
        RunInput::Spawned(started) => {
            assert(events =~= outputs + notes);
        },
        RunInput::Output(source, chunk) => {
            assert(events =~= outputs + notes);
        },
        RunInput::StreamEnd(source) => {
            assert(events =~= outputs + notes);
        },
        RunInput::StreamFault(source, description) => {
            assert(events =~= outputs + notes);
        },
        RunInput::Exited(code, cancelled) => {
            assert(events =~= outputs + notes);
        },
    }
}

/// How many of up to three notifications are `wanted`, after lines of output
/// that are not.
proof fn lemma_count_step(
    so_far: Seq<SinkEventView>,
    outputs: Seq<SinkEventView>,
    notes: Seq<SinkEventView>,
    wanted: spec_fn(SinkEventView) -> bool,
)
    requires
        forall|i: int| 0 <= i < outputs.len() ==> !wanted(#[trigger] outputs[i]),
        notes.len() <= 3,
    ensures
        count(so_far + (outputs + notes), wanted) == count(so_far, wanted) + one_if(
            notes.len() > 0 && wanted(notes[0]),
        ) + one_if(notes.len() > 1 && wanted(notes[1])) + one_if(
            notes.len() > 2 && wanted(notes[2]),
        ),
{
    lemma_count_concat(so_far, outputs + notes, wanted);
    lemma_count_concat(outputs, notes, wanted);
    lemma_count_none(outputs, wanted);
    lemma_count_small(notes, wanted);
}

/// How many of up to three events are `wanted`.
proof fn lemma_count_small(notes: Seq<SinkEventView>, wanted: spec_fn(SinkEventView) -> bool)
    requires
        notes.len() <= 3,
    ensures
        count(notes, wanted) == one_if(notes.len() > 0 && wanted(notes[0])) + one_if(
            notes.len() > 1 && wanted(notes[1]),
        ) + one_if(notes.len() > 2 && wanted(notes[2])),
    decreases notes.len(),
{
    if notes.len() > 0 {
        let shorter = notes.drop_last();
        lemma_count_small(shorter, wanted);
        assert(forall|i: int| 0 <= i < shorter.len() ==> shorter[i] == notes[i]);
    }
}

/// What a step does to the state, told apart by the notifications that
/// it yields.
#[verifier::rlimit(40)]
pub proof fn lemma_step_shape(before: RunnerView, input: RunInput)
    requires
        before.wf(),
    ensures
        ({
            let after = before.step(input).0;
            let notes = notifications(before, input);
            let finished = |index: usize, exit: StageExit|
                SinkEventView::Lifecycle(
                    LifecycleEventView::StageFinished { stage_index: index, exit },
                );
            let over = SinkEventView::Lifecycle(
                LifecycleEventView::PipelineFinished { result: result_of(after.state)->0 },
            );
            let ready = SinkEventView::Lifecycle(
                LifecycleEventView::ArtifactsReady { working_directory: before.working_directory },
            );
            ||| {
                &&& after.state == before.state
                &&& after.handle == before.handle
                &&& notes == Seq::<SinkEventView>::empty()
            }
            ||| {
                &&& before.state is Idle
                &&& after.state == RunState::Running(0)
                &&& after.handle is None
                &&& notes == seq![
                    SinkEventView::Lifecycle(
                        LifecycleEventView::PipelineStarted { name: before.pipeline.name },
                    ),
                ]
            }
            ||| {
                &&& before.state matches RunState::Running(index)
                &&& before.handle is None
                &&& after.state == before.state
                &&& after.handle is Some
                &&& notes == seq![
                    SinkEventView::Lifecycle(
                        LifecycleEventView::StageStarted {
                            stage_index: index,
                            label: before.label(index),
                        },
                    ),
                ]
            }
            ||| {
                &&& before.state matches RunState::Running(index)
                &&& before.handle is None
                &&& after.state == RunState::SpawnFailed(index)
                &&& after.handle is None
                &&& notes == seq![over]
            }
            ||| {
                &&& before.state matches RunState::Running(index)
                &&& before.handle is Some
                &&& index + 1 < before.pipeline.stages.len()
                &&& after.state == RunState::Running((index + 1) as usize)
                &&& after.handle is None
                &&& notes == seq![finished(index, StageExit::Succeeded)]
            }
            ||| {
                &&& before.state matches RunState::Running(index)
                &&& before.handle is Some
                &&& index + 1 == before.pipeline.stages.len()
                &&& after.state == RunState::Succeeded
                &&& after.handle is None
                &&& notes == seq![finished(index, StageExit::Succeeded), over, ready]
            }
            ||| {
                &&& before.state matches RunState::Running(index)
                &&& before.handle is Some
                &&& after.state matches RunState::Failed(failing, reason)
                &&& failing == index
                &&& after.handle is None
                &&& notes == seq![finished(index, StageExit::Failed(reason)), over]
            }
        }),
{
}

/// A step keeps the events in agreement with the state.
#[verifier::rlimit(40)]
pub proof fn lemma_step_accounted(before: RunnerView, so_far: Seq<SinkEventView>, input: RunInput)
    requires
        before.wf(),
        accounted(before, so_far),
    ensures
        accounted(before.step(input).0, so_far + before.step(input).1),
{
    lemma_step_events(before, input);
    lemma_step_shape(before, input);
    lemma_step_preserves_wf(before, input);
    let (after, more) = before.step(input);
    let notes = notifications(before, input);
    let outputs = choose|outputs: Seq<SinkEventView>|
        {
            &&& (forall|i: int| 0 <= i < outputs.len() ==> is_output(#[trigger] outputs[i]))
            &&& before.step(input).1 == outputs + notes
        };
    let all = so_far + more;
    assert forall|index: usize| #[trigger]
        count(all, starts_stage(index)) == one_if(stage_started(after, index)) by {
        lemma_count_step(so_far, outputs, notes, starts_stage(index));
    }
    assert forall|index: usize| #[trigger]
        count(all, finishes_stage(index)) == one_if(stage_finished(after, index)) by {
        lemma_count_step(so_far, outputs, notes, finishes_stage(index));
    }
    lemma_count_step(so_far, outputs, notes, starts_pipeline());
    lemma_count_step(so_far, outputs, notes, finishes_pipeline());
    lemma_count_step(so_far, outputs, notes, announces_artifacts());
}

/// Replaying one report is taking one step.
pub proof fn lemma_replay_one(start: RunnerView, input: RunInput)
    ensures
        start.replay(seq![input]) == start.step(input),
{
    let inputs = seq![input];
    assert(inputs.drop_last() =~= Seq::<RunInput>::empty());
    assert(start.replay(inputs.drop_last()) == (start, Seq::<SinkEventView>::empty()));
    assert(Seq::<SinkEventView>::empty() + start.step(input).1 =~= start.step(input).1);
}

/// Replaying two lists of reports one after the other is replaying their
/// concatenation.
pub proof fn lemma_replay_concat(start: RunnerView, first: Seq<RunInput>, second: Seq<RunInput>)
    ensures
        ({
            let (middle, early) = start.replay(first);
            let (end, late) = middle.replay(second);
            start.replay(first + second) == (end, early + late)
        }),
    decreases second.len(),
{
    let (middle, early) = start.replay(first);
    if second.len() == 0 {
        assert(first + second =~= first);
        assert(early + Seq::<SinkEventView>::empty() =~= early);
    } else {
        lemma_replay_concat(start, first, second.drop_last());
        assert((first + second).drop_last() =~= first + second.drop_last());
        let (reached, late) = middle.replay(second.drop_last());
        let more = reached.step(second.last()).1;
        assert((early + late) + more =~= early + (late + more));
    }
}

/// Whatever is reported to a run, it stays reachable, it keeps its pipeline,
/// and its events agree with its state.
pub proof fn lemma_replay_accounted(start: RunnerView, so_far: Seq<SinkEventView>, inputs: Seq<RunInput>)
    requires
        start.wf(),
        accounted(start, so_far),
    ensures
        start.replay(inputs).0.wf(),
        start.replay(inputs).0.pipeline == start.pipeline,
        start.replay(inputs).0.working_directory == start.working_directory,
        accounted(start.replay(inputs).0, so_far + start.replay(inputs).1),
    decreases inputs.len(),
{
    if inputs.len() == 0 {
        assert(so_far + Seq::<SinkEventView>::empty() =~= so_far);
    } else {
        lemma_replay_accounted(start, so_far, inputs.drop_last());
        let (reached, events) = start.replay(inputs.drop_last());
        lemma_step_preserves_wf(reached, inputs.last());
        lemma_step_accounted(reached, so_far + events, inputs.last());
        let more = reached.step(inputs.last()).1;
        assert((so_far + events) + more =~= so_far + (events + more));
    }
}

/// A run that has not begun has given no notification.
pub proof fn lemma_fresh_accounted(pipeline: PipelineView, working_directory: Seq<char>)
    requires
        0 < pipeline.stages.len() <= usize::MAX,
    ensures
        RunnerView::fresh(pipeline, working_directory).wf(),
        accounted(RunnerView::fresh(pipeline, working_directory), Seq::empty()),
{
}

/// In every run, whatever is reported and in whatever order, each stage is
/// reported as started at most once and as finished at most once; a stage
/// that the run has left behind has been reported as finished exactly once;
/// the end of the run is reported once, when the run is over; and the
/// artifacts are announced once, when the run has succeeded, and never
/// otherwise.
pub proof fn lemma_each_notification_once(
    pipeline: PipelineView,
    working_directory: Seq<char>,
    inputs: Seq<RunInput>,
    index: usize,
)
    requires
        0 < pipeline.stages.len() <= usize::MAX,
    ensures
        ({
            let (reached, events) = RunnerView::fresh(pipeline, working_directory).replay(inputs);
            &&& reached.wf()
            &&& count(events, starts_stage(index)) == one_if(stage_started(reached, index))
            &&& count(events, finishes_stage(index)) == one_if(stage_finished(reached, index))
            &&& count(events, finishes_pipeline()) == one_if(reached.state.is_terminal())
            &&& count(events, announces_artifacts()) == one_if(reached.state is Succeeded)
        }),
{
    let start = RunnerView::fresh(pipeline, working_directory);
    lemma_fresh_accounted(pipeline, working_directory);
    lemma_replay_accounted(start, Seq::empty(), inputs);
    assert(Seq::<SinkEventView>::empty() + start.replay(inputs).1 =~= start.replay(inputs).1);
}

/// Whether `events` holds the notification that a stage is over.
pub open spec fn reports_stage_finished(events: Seq<SinkEventView>) -> bool {
    exists|i: int|
        0 <= i < events.len() && (#[trigger] events[i] matches SinkEventView::Lifecycle(
            LifecycleEventView::StageFinished { .. },
        ))
}

/// A stage is reported as finished only by a step that leaves both of its
/// streams ended and that knows how its process exited; and the stage
/// reported is the one that was current.
pub proof fn lemma_stage_finished_after_streams_end(before: RunnerView, input: RunInput)
    requires
        before.wf(),
        reports_stage_finished(before.step(input).1),
    ensures
        before.state is Running,
        before.handle is Some,
        before.step(input).0.mux.drained(),
        before.exit is Some || input is Exited,
        forall|i: int|
            0 <= i < before.step(input).1.len() ==> (#[trigger] before.step(
                input,
            ).1[i] matches SinkEventView::Lifecycle(
                LifecycleEventView::StageFinished { stage_index, .. },
            ) ==> before.state == RunState::Running(stage_index)),
{
}

/// A stream counts as ended only once its end, or a fault on it, has been
/// reported; and a new process starts with both streams open.
pub proof fn lemma_stream_ends_only_when_reported(
    before: RunnerView,
    input: RunInput,
    source: StreamSource,
)
    requires
        before.wf(),
        !before.mux.stream(source).closed,
        before.step(input).0.mux.stream(source).closed,
    ensures
        input matches RunInput::StreamEnd(ended) ==> ended == source,
        input matches RunInput::StreamFault(ended, _) ==> ended == source,
        input is StreamEnd || input is StreamFault,
        before.handle is Some,
{
}

/// Stage `index` did not succeed: either its process has exited so and its
/// streams are still read, or the run has failed at it for that reason.
pub open spec fn failing_at(run: RunnerView, index: usize, reason: ExitReason) -> bool {
    ||| {
        &&& run.state == RunState::Running(index)
        &&& run.exit == Some(StageExit::Failed(reason))
    }
    ||| run.state == RunState::Failed(index, reason)
}

/// Once a stage has not succeeded, the run can only fail at that stage.
pub proof fn lemma_failure_is_kept(
    start: RunnerView,
    index: usize,
    reason: ExitReason,
    inputs: Seq<RunInput>,
)
    requires
        start.wf(),
        failing_at(start, index, reason),
    ensures
        failing_at(start.replay(inputs).0, index, reason),
        start.replay(inputs).0.wf(),
    decreases inputs.len(),
{
    if inputs.len() > 0 {
        lemma_failure_is_kept(start, index, reason, inputs.drop_last());
        let reached = start.replay(inputs.drop_last()).0;
        lemma_step_preserves_wf(reached, inputs.last());
    }
}

/// Fail fast. Let the process of the current stage exit without success:
/// with a code that is not zero, or without a code. Then, whatever is
/// reported before and after, no later stage is ever started, the artifacts
/// are never announced, and the run, once over, has failed at that very
/// stage.
pub proof fn lemma_fail_fast(
    pipeline: PipelineView,
    working_directory: Seq<char>,
    earlier: Seq<RunInput>,
    code: Option<i32>,
    cancelled: bool,
    later: Seq<RunInput>,
    index: usize,
)
    requires
        0 < pipeline.stages.len() <= usize::MAX,
        code != Some(0i32),
        ({
            let at = RunnerView::fresh(pipeline, working_directory).replay(earlier).0;
            &&& at.state == RunState::Running(index)
            &&& at.handle is Some
            &&& at.exit is None
        }),
    ensures
        ({
            let inputs = earlier + seq![RunInput::Exited(code, cancelled)] + later;
            let (end, events) = RunnerView::fresh(pipeline, working_directory).replay(inputs);
            &&& end.state is Running || end.state is Failed
            &&& end.state is Running ==> end.state == RunState::Running(index)
            &&& end.state is Failed ==> {
                &&& result_of(end.state) is Some
                &&& result_of(end.state)->0.outcome == Outcome::Failed
                &&& result_of(end.state)->0.failing_stage_index == Some(index)
                &&& !cancelled ==> result_of(end.state)->0.exit_code == code
                &&& result_of(end.state)->0.cancelled == cancelled
            }
            &&& forall|later_stage: usize|
                later_stage > index ==> #[trigger] count(events, starts_stage(later_stage)) == 0
            &&& count(events, announces_artifacts()) == 0
        }),
{
    let start = RunnerView::fresh(pipeline, working_directory);
    let exited = seq![RunInput::Exited(code, cancelled)];
    let inputs = earlier + exited + later;
    lemma_fresh_accounted(pipeline, working_directory);
    lemma_replay_accounted(start, Seq::empty(), earlier);
    let at = start.replay(earlier).0;
    lemma_replay_one(at, RunInput::Exited(code, cancelled));
    let told = at.replay(exited).0;
    lemma_step_preserves_wf(at, RunInput::Exited(code, cancelled));
    let reason = match crate::services::pipeline::classify_exit(code, cancelled) {
        StageExit::Failed(reason) => reason,
        StageExit::Succeeded => ExitReason::Signal,
    };
    assert(failing_at(told, index, reason));
    lemma_failure_is_kept(told, index, reason, later);
    lemma_replay_concat(start, earlier, exited);
    lemma_replay_concat(start, earlier + exited, later);
    let (end, events) = start.replay(inputs);
    assert(end == told.replay(later).0);
    lemma_replay_accounted(start, Seq::empty(), inputs);
    assert(Seq::<SinkEventView>::empty() + events =~= events);
    assert forall|later_stage: usize| later_stage > index implies #[trigger] count(
        events,
        starts_stage(later_stage),
    ) == 0 by {
        assert(!stage_started(end, later_stage));
    }
}

/// What the sink has received is never taken back: whatever is reported
/// further, the events so far stay as they are, at the head of all events.
pub proof fn lemma_events_only_grow(start: RunnerView, earlier: Seq<RunInput>, later: Seq<RunInput>)
    ensures
        start.replay(earlier).1.is_prefix_of(start.replay(earlier + later).1),
{
    lemma_replay_concat(start, earlier, later);
}

/// How the events of a run that is over end: a failed or aborted run with
/// the notification that tells its result, and so which stage failed and how;
/// a successful run with that notification and then the announcement of the
/// artifacts.
pub open spec fn ends_as_told(run: RunnerView, events: Seq<SinkEventView>) -> bool {
    let over = SinkEventView::Lifecycle(
        LifecycleEventView::PipelineFinished { result: result_of(run.state)->0 },
    );
    let ready = SinkEventView::Lifecycle(
        LifecycleEventView::ArtifactsReady { working_directory: run.working_directory },
    );
    if run.state is Succeeded {
        events.len() >= 2 && events[events.len() - 2] == over && events.last() == ready
    } else if run.state.is_terminal() {
        events.len() >= 1 && events.last() == over
    } else {
        true
    }
}

/// The last thing that the sink receives of a run tells how the run ended.
#[verifier::rlimit(40)]
pub proof fn lemma_last_event_tells_the_end(
    pipeline: PipelineView,
    working_directory: Seq<char>,
    inputs: Seq<RunInput>,
)
    requires
        0 < pipeline.stages.len() <= usize::MAX,
    ensures
        ({
            let (end, events) = RunnerView::fresh(pipeline, working_directory).replay(inputs);
            ends_as_told(end, events)
        }),
    decreases inputs.len(),
{
    let start = RunnerView::fresh(pipeline, working_directory);
    if inputs.len() > 0 {
        lemma_last_event_tells_the_end(pipeline, working_directory, inputs.drop_last());
        lemma_fresh_accounted(pipeline, working_directory);
        lemma_replay_accounted(start, Seq::empty(), inputs.drop_last());
        let (reached, events) = start.replay(inputs.drop_last());
        let (end, more) = reached.step(inputs.last());
        lemma_step_preserves_wf(reached, inputs.last());
        if reached.state.is_terminal() {
            lemma_terminal_is_final(reached, inputs.last());
            assert(events + more =~= events);
        } else if end.state.is_terminal() {
            lemma_step_events(reached, inputs.last());
            lemma_step_shape(reached, inputs.last());
            let notes = notifications(reached, inputs.last());
            let all = events + more;
            assert(notes.len() >= 1);
            assert(all.len() >= notes.len());
            assert(forall|i: int|
                0 <= i < notes.len() ==> all[all.len() - notes.len() + i] == notes[i]);
        }
    }
}

} // verus!
