//! A whole run, driven from a record of what the process of each stage did.
//!
//! This is the driver in its plainest form. For each stage it reports the
//! start, the output of the two streams, their ends and the exit, in that
//! order, and it keeps a supervisor of its own. A driver that works against
//! the operating system reports the same things as they happen.

use crate::services::events::{SinkEvent, SinkEventView};
use crate::services::line_framing::lemma_line_count_bounded;
use crate::services::pipeline::{
    classify_exit, result_of, Pipeline, PipelineResult, RunState, StageExit,
};
use crate::services::process_store::{ProcessHandle, ProcessSupervisor, SpawnError, SupervisorView};
use crate::services::process_stream::{MuxView, StreamSource};
use crate::services::run_laws::{
    lemma_replay_concat, lemma_replay_one, lemma_step_preserves_wf, lemma_terminal_is_final,
};
use crate::services::run_model::{Action, RunInput, RunnerView};
use crate::services::runner::PipelineRunner;
use crate::views::views;
use vstd::prelude::*;

verus! {

/// What the process of one stage did.
#[derive(Debug, PartialEq, Eq)]
pub struct StageRecord {
    /// The identifier of the created process, or why none was created.
    pub spawned: Result<u32, SpawnError>,
    /// All that the process wrote to standard output.
    pub stdout: Vec<u8>,
    /// All that the process wrote to the error stream.
    pub stderr: Vec<u8>,
    /// The code that the process exited with, if it left one.
    pub exit_code: Option<i32>,
    /// Whether a request to cancel arrived while the process ran.
    pub cancelled: bool,
}

/// A [`StageRecord`] as a mathematical value.
pub struct StageRecordView {
    pub spawned: Result<u32, SpawnError>,
    pub stdout: Seq<u8>,
    pub stderr: Seq<u8>,
    pub exit_code: Option<i32>,
    pub cancelled: bool,
}

impl View for StageRecord {
    type V = StageRecordView;

    open spec fn view(&self) -> StageRecordView {
        StageRecordView {
            spawned: self.spawned,
            stdout: self.stdout@,
            stderr: self.stderr@,
            exit_code: self.exit_code,
            cancelled: self.cancelled,
        }
    }
}

/// What a run came to.
#[derive(Debug)]
pub struct RunReport {
    /// The state in which the run was left.
    pub state: RunState,
    /// The result, if the run is over.
    pub result: Option<PipelineResult>,
    /// Everything that the sink received, in order.
    pub events: Vec<SinkEvent>,
}

/// Where a run stands after stage `index` has gone as `record` says.
pub open spec fn after_stage(count: nat, index: usize, record: StageRecordView) -> RunState {
    match record.spawned {
        Err(_) => RunState::SpawnFailed(index),
        Ok(_) => match classify_exit(record.exit_code, record.cancelled) {
            StageExit::Succeeded => if index + 1 < count {
                RunState::Running((index + 1) as usize)
            } else {
                RunState::Succeeded
            },
            StageExit::Failed(reason) => RunState::Failed(index, reason),
        },
    }
}

/// Where a run of `count` stages stands after its stages have gone as
/// `records` say, one record for each stage in order. The first stage that
/// does not succeed ends the run; records after it count for nothing, and
/// so do records beyond the last stage. With fewer records than stages the
/// run is left waiting for the next stage to be started.
pub open spec fn outcome(count: nat, records: Seq<StageRecordView>) -> RunState
    decreases records.len(),
{
    if records.len() == 0 {
        RunState::Running(0)
    } else {
        match outcome(count, records.drop_last()) {
            RunState::Running(index) => after_stage(count, index, records.last()),
            over => over,
        }
    }
}

/// What the driver reports for the stage with the index `index`: the start,
/// all of standard output and its end, all of the error stream and its end,
/// and the exit.
pub open spec fn stage_inputs(index: nat, record: StageRecordView) -> Seq<RunInput> {
    seq![
        RunInput::Spawned(
            match record.spawned {
                Ok(pid) => Ok(ProcessHandle { id: index as u64, pid }),
                Err(error) => Err(error),
            },
        ),
        RunInput::Output(StreamSource::Stdout, record.stdout),
        RunInput::StreamEnd(StreamSource::Stdout),
        RunInput::Output(StreamSource::Stderr, record.stderr),
        RunInput::StreamEnd(StreamSource::Stderr),
        RunInput::Exited(record.exit_code, record.cancelled),
    ]
}

/// Everything that the driver reports for `records`: the beginning of the
/// run, and then each stage in turn.
pub open spec fn script(records: Seq<StageRecordView>) -> Seq<RunInput>
    decreases records.len(),
{
    if records.len() == 0 {
        seq![RunInput::Begin]
    } else {
        script(records.drop_last()) + stage_inputs((records.len() - 1) as nat, records.last())
    }
}

/// Reporting one more thing is taking one more step.
proof fn lemma_replay_push(start: RunnerView, inputs: Seq<RunInput>, input: RunInput)
    ensures
        start.replay(inputs.push(input)) == ({
            let (reached, events) = start.replay(inputs);
            let (after, more) = reached.step(input);
            (after, events + more)
        }),
{
    assert(inputs.push(input).drop_last() =~= inputs);
}

/// A run that is over takes no notice of what is reported for a further
/// stage.
proof fn lemma_over_ignores_stage(
    start: RunnerView,
    inputs: Seq<RunInput>,
    index: nat,
    record: StageRecordView,
)
    requires
        start.replay(inputs).0.wf(),
        start.replay(inputs).0.state.is_terminal(),
    ensures
        start.replay(inputs + stage_inputs(index, record)) == start.replay(inputs),
{
    let (reached, events) = start.replay(inputs);
    let stage = stage_inputs(index, record);
    let one = inputs.push(stage[0]);
    let two = one.push(stage[1]);
    let three = two.push(stage[2]);
    let four = three.push(stage[3]);
    let five = four.push(stage[4]);
    let six = five.push(stage[5]);
    lemma_terminal_is_final(reached, stage[0]);
    lemma_terminal_is_final(reached, stage[1]);
    lemma_terminal_is_final(reached, stage[2]);
    lemma_terminal_is_final(reached, stage[3]);
    lemma_terminal_is_final(reached, stage[4]);
    lemma_terminal_is_final(reached, stage[5]);
    assert(events + Seq::<SinkEventView>::empty() =~= events);
    lemma_replay_push(start, inputs, stage[0]);
    lemma_replay_push(start, one, stage[1]);
    lemma_replay_push(start, two, stage[2]);
    lemma_replay_push(start, three, stage[3]);
    lemma_replay_push(start, four, stage[4]);
    lemma_replay_push(start, five, stage[5]);
    assert(six =~= inputs + stage);
}

/// Appends `more` to `events`.
fn deliver(events: &mut Vec<SinkEvent>, more: Vec<SinkEvent>)
    ensures
        views(final(events)@) == views(old(events)@) + views(more@),
{
    let mut more = more;
    let ghost added = more@;
    events.append(&mut more);
    assert(views(events@) =~= views(old(events)@) + views(added));
}

/// Reports the start of stage `index`.
fn report_start(
    runner: &mut PipelineRunner,
    supervisor: &mut ProcessSupervisor,
    index: usize,
    record: &StageRecord,
) -> (events: Vec<SinkEvent>)
    requires
        old(runner)@.state == RunState::Running(index),
        old(runner)@.handle is None,
        old(supervisor)@ == (SupervisorView { slot: None, issued: index as nat }),
    ensures
        (final(runner)@, views(events@)) == old(runner)@.step(
            stage_inputs(index as nat, record@)[0],
        ),
        final(runner)@.wf(),
        final(supervisor)@.wf(),
        final(runner)@.exit is None,
        record.spawned is Err ==> final(runner)@.state == RunState::SpawnFailed(index)
            && final(runner)@.handle is None,
        record.spawned is Ok ==> {
            &&& final(runner)@.state == RunState::Running(index)
            &&& final(runner)@.handle is Some
            &&& final(runner)@.mux == MuxView::attached()
            &&& final(supervisor)@ == (SupervisorView {
                slot: final(runner)@.handle,
                issued: (index + 1) as nat,
            })
        },
{
    let _ = runner.state();
    let started = runner.start_stage(supervisor, record.spawned);
    started.events
}

/// Reports all that stage `index` wrote, and the end of both its streams.
fn report_streams(runner: &mut PipelineRunner, index: usize, record: &StageRecord) -> (events: Vec<
    SinkEvent,
>)
    requires
        old(runner)@.state == RunState::Running(index),
        old(runner)@.handle is Some,
        old(runner)@.exit is None,
        old(runner)@.mux == MuxView::attached(),
        record.stdout@.len() + record.stderr@.len() + 4 <= u64::MAX,
    ensures
        (final(runner)@, views(events@)) == old(runner)@.replay(
            stage_inputs(index as nat, record@).subrange(1, 5),
        ),
        final(runner)@.wf(),
        final(runner)@.state == old(runner)@.state,
        final(runner)@.handle == old(runner)@.handle,
        final(runner)@.exit is None,
        final(runner)@.mux.drained(),
{
    let ghost start = runner@;
    let ghost stage = stage_inputs(index as nat, record@);
    let ghost mut fed = Seq::<RunInput>::empty();
    let _ = runner.state();
    proof {
        lemma_line_count_bounded(Seq::<u8>::empty(), record.stdout@);
        assert(Seq::<u8>::empty() + record.stdout@ =~= record.stdout@);
    }
    let mut events = runner.on_output(StreamSource::Stdout, record.stdout.as_slice());
    proof {
        lemma_replay_push(start, fed, stage[1]);
        fed = fed.push(stage[1]);
        assert(Seq::<SinkEventView>::empty() + start.step(stage[1]).1 =~= start.step(stage[1]).1);
    }
    let more = runner.on_stream_end(StreamSource::Stdout);
    proof {
        lemma_replay_push(start, fed, stage[2]);
        fed = fed.push(stage[2]);
    }
    deliver(&mut events, more);

    let more = runner.on_output(StreamSource::Stderr, record.stderr.as_slice());
    proof {
        lemma_replay_push(start, fed, stage[3]);
        fed = fed.push(stage[3]);
    }
    deliver(&mut events, more);

    let more = runner.on_stream_end(StreamSource::Stderr);
    proof {
        lemma_replay_push(start, fed, stage[4]);
        fed = fed.push(stage[4]);
        assert(fed =~= stage.subrange(1, 5));
    }
    deliver(&mut events, more);
    events
}

/// Reports the exit of stage `index`, after a request to cancel if the
/// record tells of one.
fn report_exit(
    runner: &mut PipelineRunner,
    supervisor: &mut ProcessSupervisor,
    index: usize,
    record: &StageRecord,
) -> (events: Vec<SinkEvent>)
    requires
        old(runner)@.state == RunState::Running(index),
        old(runner)@.handle is Some,
        old(runner)@.exit is None,
        old(runner)@.mux.drained(),
        old(supervisor)@ == (SupervisorView {
            slot: old(runner)@.handle,
            issued: (index + 1) as nat,
        }),
        record.spawned is Ok,
    ensures
        (final(runner)@, views(events@)) == old(runner)@.step(
            stage_inputs(index as nat, record@)[5],
        ),
        final(runner)@.wf(),
        final(supervisor)@.wf(),
        final(runner)@.handle is None,
        final(runner)@.state == after_stage(
            old(runner)@.pipeline.stages.len(),
            index,
            record@,
        ),
        final(supervisor)@ == (SupervisorView { slot: None, issued: (index + 1) as nat }),
{
    let _ = runner.state();
    if record.cancelled {
        let _ = supervisor.cancel();
    }
    runner.finish_stage(supervisor, record.exit_code)
}

/// A run that was over before the streams and the exit of a stage are
/// reported takes no notice of them.
proof fn lemma_over_ignores_rest(reached: RunnerView, index: nat, record: StageRecordView)
    requires
        reached.wf(),
        reached.state.is_terminal(),
    ensures
        reached.replay(stage_inputs(index, record).subrange(1, 6)) == (
            reached,
            Seq::<SinkEventView>::empty(),
        ),
{
    let stage = stage_inputs(index, record);
    let rest = stage.subrange(1, 6);
    let none = Seq::<RunInput>::empty();
    let one = none.push(stage[1]);
    let two = one.push(stage[2]);
    let three = two.push(stage[3]);
    let four = three.push(stage[4]);
    let five = four.push(stage[5]);
    lemma_terminal_is_final(reached, stage[1]);
    lemma_terminal_is_final(reached, stage[2]);
    lemma_terminal_is_final(reached, stage[3]);
    lemma_terminal_is_final(reached, stage[4]);
    lemma_terminal_is_final(reached, stage[5]);
    assert(Seq::<SinkEventView>::empty() + Seq::<SinkEventView>::empty() =~= Seq::<
        SinkEventView,
    >::empty());
    lemma_replay_push(reached, none, stage[1]);
    lemma_replay_push(reached, one, stage[2]);
    lemma_replay_push(reached, two, stage[3]);
    lemma_replay_push(reached, three, stage[4]);
    lemma_replay_push(reached, four, stage[5]);
    assert(five =~= rest);
}

/// Drives one stage as its record says, and appends what the sink receives
/// to `events`.
#[verifier::rlimit(40)]
fn run_stage(
    runner: &mut PipelineRunner,
    supervisor: &mut ProcessSupervisor,
    index: usize,
    record: &StageRecord,
    events: &mut Vec<SinkEvent>,
)
    requires
        old(runner)@.wf(),
        old(runner)@.state == RunState::Running(index),
        old(runner)@.handle is None,
        old(supervisor)@ == (SupervisorView { slot: None, issued: index as nat }),
        record.stdout@.len() + record.stderr@.len() + 4 <= u64::MAX,
    ensures
        (final(runner)@, views(final(events)@)) == ({
            let (end, more) = old(runner)@.replay(stage_inputs(index as nat, record@));
            (end, views(old(events)@) + more)
        }),
        final(runner)@.wf(),
        final(supervisor)@.wf(),
        final(runner)@.handle is None,
        final(runner)@.pipeline == old(runner)@.pipeline,
        final(runner)@.state == after_stage(
            old(runner)@.pipeline.stages.len(),
            index,
            record@,
        ),
        final(runner)@.state is Running ==> final(supervisor)@ == (SupervisorView {
            slot: None,
            issued: (index + 1) as nat,
        }),
{
    let ghost start = runner@;
    let ghost stage = stage_inputs(index as nat, record@);
    let ghost earlier = views(events@);
    proof {
        lemma_replay_one(start, stage[0]);
        lemma_step_preserves_wf(start, stage[0]);
        assert(stage =~= seq![stage[0]] + stage.subrange(1, 6));
        lemma_replay_concat(start, seq![stage[0]], stage.subrange(1, 6));
    }
    let first = report_start(runner, supervisor, index, record);
    let ghost begun = runner@;
    deliver(events, first);
    match record.spawned {
        Ok(_) => {
            let ghost rest = stage.subrange(1, 5);
            proof {
                assert(stage.subrange(1, 6) =~= rest.push(stage[5]));
                lemma_replay_push(begun, rest, stage[5]);
                lemma_replay_keeps_wf(begun, rest);
            }
            let middle = report_streams(runner, index, record);
            deliver(events, middle);
            let last = report_exit(runner, supervisor, index, record);
            deliver(events, last);
            proof {
                let all = start.replay(stage).1;
                assert(views(events@) =~= earlier + all);
            }
        },
        Err(_) => {
            proof {
                lemma_over_ignores_rest(begun, index as nat, record@);
                let all = start.replay(stage).1;
                assert(views(events@) =~= earlier + all);
            }
        },
    }
}

/// Whatever is reported, the run stays reachable and keeps its pipeline.
proof fn lemma_replay_keeps_wf(start: RunnerView, inputs: Seq<RunInput>)
    requires
        start.wf(),
    ensures
        start.replay(inputs).0.wf(),
        start.replay(inputs).0.pipeline == start.pipeline,
    decreases inputs.len(),
{
    if inputs.len() > 0 {
        lemma_replay_keeps_wf(start, inputs.drop_last());
        lemma_step_preserves_wf(start.replay(inputs.drop_last()).0, inputs.last());
    }
}

/// Runs `pipeline` against a record of what the process of each stage did,
/// and hands back where the run was left and everything that the sink
/// received.
///
/// The stages are taken in order. A stage is started only after the one
/// before it exited with code zero and both its streams ended. The first
/// record that tells of a failed start, or of an exit that is not a
/// success, ends the run at its stage.
#[verifier::rlimit(40)]
pub fn run(pipeline: Pipeline, working_directory: String, records: Vec<StageRecord>) -> (report:
    RunReport)
    requires
        forall|i: int|
            0 <= i < records@.len() ==> (#[trigger] records@[i]).stdout@.len()
                + records@[i].stderr@.len() + 4 <= u64::MAX,
    ensures
        report.state == outcome(pipeline@.stages.len(), views(records@)),
        report.result == result_of(report.state),
        (report.state, views(report.events@)) == ({
            let (end, events) = RunnerView::fresh(pipeline@, working_directory@).replay(
                script(views(records@)),
            );
            (end.state, events)
        }),
{
    let ghost start = RunnerView::fresh(pipeline@, working_directory@);
    let ghost count = pipeline@.stages.len();
    let ghost told = views(records@);
    let mut supervisor = ProcessSupervisor::new();
    let mut runner = PipelineRunner::new(pipeline, working_directory);
    let mut events = runner.begin();
    let ghost mut fed = seq![RunInput::Begin];
    proof {
        assert(fed.drop_last() =~= Seq::<RunInput>::empty());
        assert(start.replay(fed.drop_last()) == (start, Seq::<SinkEventView>::empty()));
        assert(Seq::<SinkEventView>::empty() + start.step(RunInput::Begin).1 =~= start.step(
            RunInput::Begin,
        ).1);
        assert(told.take(0) =~= Seq::empty());
    }
    let mut index: usize = 0;
    while index < records.len()
        invariant
            index <= records.len(),
            told == views(records@),
            count == runner@.pipeline.stages.len(),
            forall|i: int|
                0 <= i < records@.len() ==> (#[trigger] records@[i]).stdout@.len()
                    + records@[i].stderr@.len() + 4 <= u64::MAX,
            runner@.wf(),
            supervisor@.wf(),
            fed == script(told.take(index as int)),
            (runner@, views(events@)) == start.replay(fed),
            runner@.state == outcome(count, told.take(index as int)),
            runner@.handle is None,
            !(runner@.state is Idle),
            runner@.state matches RunState::Running(current) ==> {
                &&& current == index
                &&& supervisor@ == (SupervisorView { slot: None, issued: index as nat })
            },
        decreases records.len() - index,
    {
        let record = &records[index];
        let ghost seen = told.take(index as int);
        let ghost next = told.take(index + 1);
        let ghost stage = stage_inputs(index as nat, record@);
        proof {
            assert(next.drop_last() =~= seen);
            assert(next.last() == record@);
            assert(script(next) == fed + stage);
            lemma_replay_concat(start, fed, stage);
        }
        match runner.next_action() {
            Action::Spawn(_) => {
                run_stage(&mut runner, &mut supervisor, index, record, &mut events);
            },
            _ => {
                proof {
                    lemma_over_ignores_stage(start, fed, index as nat, record@);
                }
            },
        }
        proof {
            fed = fed + stage;
        }
        index = index + 1;
    }
    proof {
        assert(told.take(records@.len() as int) =~= told);
    }
    let state = runner.state();
    RunReport { state, result: runner.result(), events }
}

/// Fail fast, for whole runs. If every stage before stage `index` was
/// started and exited with code zero, and stage `index` was started and did
/// not, then the run has failed at stage `index`, whatever the records say
/// of later stages.
pub proof fn lemma_first_failure_decides(count: nat, records: Seq<StageRecordView>, index: usize)
    requires
        index < count <= usize::MAX,
        index < records.len(),
        forall|i: int|
            0 <= i < index ==> (#[trigger] records[i]).spawned is Ok && records[i].exit_code
                == Some(0i32),
        records[index as int].spawned is Ok,
        records[index as int].exit_code != Some(0i32),
    ensures
        outcome(count, records) is Failed,
        result_of(outcome(count, records)) is Some,
        result_of(outcome(count, records))->0.failing_stage_index == Some(index),
        forall|shorter: int|
            0 <= shorter <= index ==> outcome(count, #[trigger] records.take(shorter))
                == RunState::Running(shorter as usize),
    decreases records.len(),
{
    let shorter = records.drop_last();
    if records.len() - 1 > index {
        lemma_first_failure_decides(count, shorter, index);
        assert forall|cut: int| 0 <= cut <= index implies outcome(
            count,
            #[trigger] records.take(cut),
        ) == RunState::Running(cut as usize) by {
            assert(records.take(cut) =~= shorter.take(cut));
        }
    } else {
        lemma_all_succeeded(count, shorter, index);
        assert forall|cut: int| 0 <= cut <= index implies outcome(
            count,
            #[trigger] records.take(cut),
        ) == RunState::Running(cut as usize) by {
            assert(records.take(cut) =~= shorter.take(cut));
        }
        assert(shorter.take(index as int) =~= shorter);
    }
}

/// While every stage succeeds and stages are left, the run waits for the
/// next stage.
proof fn lemma_all_succeeded(count: nat, records: Seq<StageRecordView>, index: usize)
    requires
        index < count <= usize::MAX,
        records.len() <= index,
        forall|i: int|
            0 <= i < records.len() ==> (#[trigger] records[i]).spawned is Ok
                && records[i].exit_code == Some(0i32),
    ensures
        forall|cut: int|
            0 <= cut <= records.len() ==> outcome(count, #[trigger] records.take(cut))
                == RunState::Running(cut as usize),
    decreases records.len(),
{
    if records.len() > 0 {
        let shorter = records.drop_last();
        lemma_all_succeeded(count, shorter, index);
        assert forall|cut: int| 0 <= cut <= records.len() implies outcome(
            count,
            #[trigger] records.take(cut),
        ) == RunState::Running(cut as usize) by {
            if cut < records.len() {
                assert(records.take(cut) =~= shorter.take(cut));
            } else {
                assert(records.take(cut) =~= records);
                assert(shorter.take(shorter.len() as int) =~= shorter);
            }
        }
    } else {
        assert(records.take(0) =~= records);
    }
}

} // verus!
