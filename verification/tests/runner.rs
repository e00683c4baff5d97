use idf_studio::services::events::{LifecycleEvent, LifecycleKind, SinkEvent};
use idf_studio::services::pipeline::{
    ExitReason, Outcome, Pipeline, PipelineResult, PipelineStage, RunState, StageExit,
};
use idf_studio::services::process_store::{ProcessHandle, ProcessSupervisor, SpawnError};
use idf_studio::services::process_stream::{OutputEvent, StreamSource};
use idf_studio::services::run_model::Action;
use idf_studio::services::runner::PipelineRunner;

fn stage(label: &str) -> PipelineStage {
    PipelineStage {
        label: label.to_string(),
        program: "tool".to_string(),
        args: vec![label.to_string()],
        working_directory: "/work/project".to_string(),
        env: vec![],
    }
}

fn runner(labels: &[&str]) -> PipelineRunner {
    let stages = labels.iter().map(|label| stage(label)).collect();
    let pipeline = Pipeline::new("build".to_string(), stages).unwrap();
    PipelineRunner::new(pipeline, "/work/project".to_string())
}

fn output(stage_index: usize, label: &str, source: StreamSource, text: &str, sequence: u64) -> SinkEvent {
    SinkEvent::Output {
        stage_index,
        label: label.to_string(),
        event: OutputEvent { source, text: text.to_string(), sequence },
    }
}

fn started(stage_index: usize, label: &str) -> SinkEvent {
    SinkEvent::Lifecycle(LifecycleEvent::StageStarted { stage_index, label: label.to_string() })
}

fn finished(stage_index: usize, exit: StageExit) -> SinkEvent {
    SinkEvent::Lifecycle(LifecycleEvent::StageFinished { stage_index, exit })
}

fn over(result: PipelineResult) -> SinkEvent {
    SinkEvent::Lifecycle(LifecycleEvent::PipelineFinished { result })
}

fn failed(index: usize, exit_code: Option<i32>, cancelled: bool) -> PipelineResult {
    PipelineResult {
        outcome: Outcome::Failed,
        failing_stage_index: Some(index),
        exit_code,
        cancelled,
    }
}

fn success() -> PipelineResult {
    PipelineResult {
        outcome: Outcome::Success,
        failing_stage_index: None,
        exit_code: None,
        cancelled: false,
    }
}

fn count_kind(events: &[SinkEvent], kind: LifecycleKind) -> usize {
    events
        .iter()
        .filter(|event| matches!(event, SinkEvent::Lifecycle(e) if e.kind() == kind))
        .count()
}

/// Runs one stage whose process writes `stdout` and exits with `code`.
fn run_stage(
    runner: &mut PipelineRunner,
    supervisor: &mut ProcessSupervisor,
    pid: u32,
    stdout: &[u8],
    code: Option<i32>,
) -> Vec<SinkEvent> {
    let mut events = runner.start_stage(supervisor, Ok(pid)).events;
    events.extend(runner.on_output(StreamSource::Stdout, stdout));
    events.extend(runner.on_stream_end(StreamSource::Stdout));
    events.extend(runner.on_stream_end(StreamSource::Stderr));
    events.extend(runner.finish_stage(supervisor, code));
    events
}

#[test]
fn a_failing_second_stage_fails_the_run_at_index_one() {
    let mut supervisor = ProcessSupervisor::new();
    let mut runner = runner(&["compile", "link"]);
    let mut events = runner.begin();
    assert_eq!(runner.next_action(), Action::Spawn(0));
    events.extend(run_stage(&mut runner, &mut supervisor, 10, b"ok\n", Some(0)));
    assert_eq!(runner.next_action(), Action::Spawn(1));
    events.extend(run_stage(&mut runner, &mut supervisor, 11, b"undefined symbol\n", Some(1)));

    assert_eq!(runner.state(), RunState::Failed(1, ExitReason::Code(1)));
    assert_eq!(runner.result(), Some(failed(1, Some(1), false)));
    assert_eq!(runner.next_action(), Action::Finished(failed(1, Some(1), false)));
    assert_eq!(
        events,
        vec![
            SinkEvent::Lifecycle(LifecycleEvent::PipelineStarted { name: "build".to_string() }),
            started(0, "compile"),
            output(0, "compile", StreamSource::Stdout, "ok", 0),
            finished(0, StageExit::Succeeded),
            started(1, "link"),
            output(1, "link", StreamSource::Stdout, "undefined symbol", 0),
            finished(1, StageExit::Failed(ExitReason::Code(1))),
            over(failed(1, Some(1), false)),
        ]
    );
    assert_eq!(count_kind(&events, LifecycleKind::ArtifactsReady), 0);
    assert_eq!(supervisor.current(), None);
}

#[test]
fn a_single_silent_stage_succeeds_and_announces_the_artifacts_once() {
    let mut supervisor = ProcessSupervisor::new();
    let mut runner = runner(&["build"]);
    let mut events = runner.begin();
    events.extend(run_stage(&mut runner, &mut supervisor, 10, b"", Some(0)));

    assert_eq!(runner.state(), RunState::Succeeded);
    assert_eq!(runner.result(), Some(success()));
    assert_eq!(
        events,
        vec![
            SinkEvent::Lifecycle(LifecycleEvent::PipelineStarted { name: "build".to_string() }),
            started(0, "build"),
            finished(0, StageExit::Succeeded),
            over(success()),
            SinkEvent::Lifecycle(LifecycleEvent::ArtifactsReady {
                working_directory: "/work/project".to_string(),
            }),
        ]
    );
    assert_eq!(count_kind(&events, LifecycleKind::ArtifactsReady), 1);
}

#[test]
fn stages_after_a_failure_never_start() {
    let mut supervisor = ProcessSupervisor::new();
    let mut runner = runner(&["one", "two", "three"]);
    let mut events = runner.begin();
    events.extend(run_stage(&mut runner, &mut supervisor, 10, b"", Some(7)));
    assert_eq!(runner.result(), Some(failed(0, Some(7), false)));

    let late = runner.start_stage(&mut supervisor, Ok(11));
    assert!(late.events.is_empty());
    assert_eq!(late.displaced, None);
    assert_eq!(supervisor.current(), None);
    assert!(runner.on_output(StreamSource::Stdout, b"ignored\n").is_empty());
    assert!(runner.on_stream_end(StreamSource::Stdout).is_empty());
    assert!(runner.on_exit(Some(0), false).is_empty());
    assert!(runner.begin().is_empty());
    assert_eq!(runner.state(), RunState::Failed(0, ExitReason::Code(7)));
    assert_eq!(count_kind(&events, LifecycleKind::StageStarted), 1);
    assert_eq!(count_kind(&events, LifecycleKind::StageFinished), 1);
    assert_eq!(count_kind(&events, LifecycleKind::PipelineFinished), 1);
}

#[test]
fn a_stage_finishes_only_after_both_streams_have_ended() {
    let mut supervisor = ProcessSupervisor::new();
    let mut runner = runner(&["build"]);
    runner.begin();
    assert_eq!(runner.start_stage(&mut supervisor, Ok(10)).events, vec![started(0, "build")]);

    assert!(runner.finish_stage(&mut supervisor, Some(0)).is_empty());
    assert_eq!(runner.state(), RunState::Running(0));
    assert_eq!(
        runner.on_output(StreamSource::Stdout, b"late line\n"),
        vec![output(0, "build", StreamSource::Stdout, "late line", 0)]
    );
    assert!(runner.on_stream_end(StreamSource::Stdout).is_empty());
    assert_eq!(runner.state(), RunState::Running(0));
    assert!(runner.on_exit(Some(1), false).is_empty());

    let last = runner.on_stream_end(StreamSource::Stderr);
    assert_eq!(last.len(), 3);
    assert_eq!(last[0], finished(0, StageExit::Succeeded));
    assert_eq!(runner.state(), RunState::Succeeded);
    assert!(runner.on_stream_end(StreamSource::Stderr).is_empty());
}

#[test]
fn an_unfinished_last_line_comes_before_the_end_of_the_stage() {
    let mut supervisor = ProcessSupervisor::new();
    let mut runner = runner(&["build"]);
    runner.begin();
    runner.start_stage(&mut supervisor, Ok(10));
    runner.finish_stage(&mut supervisor, Some(3));
    runner.on_stream_end(StreamSource::Stdout);
    assert!(runner.on_output(StreamSource::Stderr, b"fatal: no newline").is_empty());
    assert_eq!(
        runner.on_stream_end(StreamSource::Stderr),
        vec![
            output(0, "build", StreamSource::Stderr, "fatal: no newline", 0),
            finished(0, StageExit::Failed(ExitReason::Code(3))),
            over(failed(0, Some(3), false)),
        ]
    );
}

#[test]
fn a_cancelled_stage_fails_the_run_as_cancelled() {
    let mut supervisor = ProcessSupervisor::new();
    let mut runner = runner(&["compile", "link"]);
    runner.begin();
    runner.start_stage(&mut supervisor, Ok(10));
    let handle = ProcessHandle { id: 0, pid: 10 };
    assert_eq!(runner.next_action(), Action::Wait(handle));

    assert_eq!(supervisor.cancel(), Some(handle));
    runner.on_stream_end(StreamSource::Stdout);
    runner.on_stream_end(StreamSource::Stderr);
    let events = runner.finish_stage(&mut supervisor, None);
    assert_eq!(
        events,
        vec![
            finished(0, StageExit::Failed(ExitReason::Cancelled)),
            over(failed(0, None, true)),
        ]
    );
    assert_eq!(runner.state(), RunState::Failed(0, ExitReason::Cancelled));
}

#[test]
fn a_stage_displaced_by_a_newer_start_counts_as_cancelled() {
    let mut supervisor = ProcessSupervisor::new();
    let mut runner = runner(&["build"]);
    runner.begin();
    runner.start_stage(&mut supervisor, Ok(10));
    let newer = supervisor.start(Ok(20));
    assert_eq!(newer.displaced, Some(ProcessHandle { id: 0, pid: 10 }));

    runner.on_stream_end(StreamSource::Stdout);
    runner.on_stream_end(StreamSource::Stderr);
    runner.finish_stage(&mut supervisor, Some(137));
    assert_eq!(runner.result(), Some(failed(0, None, true)));
    assert_eq!(supervisor.current(), newer.result.ok());
}

#[test]
fn a_process_killed_by_a_signal_fails_without_a_code() {
    let mut supervisor = ProcessSupervisor::new();
    let mut runner = runner(&["build"]);
    runner.begin();
    run_stage(&mut runner, &mut supervisor, 10, b"", None);
    assert_eq!(runner.state(), RunState::Failed(0, ExitReason::Signal));
    assert_eq!(runner.result(), Some(failed(0, None, false)));
}

#[test]
fn a_failed_spawn_aborts_the_run_at_that_stage() {
    let mut supervisor = ProcessSupervisor::new();
    let mut runner = runner(&["compile", "link"]);
    let mut events = runner.begin();
    events.extend(run_stage(&mut runner, &mut supervisor, 10, b"", Some(0)));
    let start = runner.start_stage(&mut supervisor, Err(SpawnError::NotFound));
    let aborted = PipelineResult {
        outcome: Outcome::Aborted,
        failing_stage_index: Some(1),
        exit_code: None,
        cancelled: false,
    };
    assert_eq!(start.events, vec![over(aborted)]);
    assert_eq!(start.displaced, None);
    assert_eq!(runner.state(), RunState::SpawnFailed(1));
    assert_eq!(runner.next_action(), Action::Finished(aborted));
    assert_eq!(supervisor.current(), None);
    assert_eq!(count_kind(&events, LifecycleKind::StageStarted), 1);
}

#[test]
fn starting_a_stage_displaces_what_held_the_slot() {
    let mut supervisor = ProcessSupervisor::new();
    let other = supervisor.start(Ok(5)).result.unwrap();
    let mut runner = runner(&["build"]);
    runner.begin();
    let start = runner.start_stage(&mut supervisor, Ok(10));
    assert_eq!(start.displaced, Some(other));
    assert_eq!(supervisor.current(), Some(ProcessHandle { id: 1, pid: 10 }));
}

#[test]
fn a_fault_on_a_stream_is_reported_as_a_line_and_does_not_fail_the_stage() {
    let mut supervisor = ProcessSupervisor::new();
    let mut runner = runner(&["build"]);
    runner.begin();
    runner.start_stage(&mut supervisor, Ok(10));
    assert_eq!(
        runner.on_stream_fault(StreamSource::Stderr, "read failed".to_string()),
        vec![output(0, "build", StreamSource::Stderr, "read failed", 0)]
    );
    assert_eq!(
        runner.on_output(StreamSource::Stdout, b"done\n"),
        vec![output(0, "build", StreamSource::Stdout, "done", 1)]
    );
    runner.on_stream_end(StreamSource::Stdout);
    runner.finish_stage(&mut supervisor, Some(0));
    assert_eq!(runner.state(), RunState::Succeeded);
}

#[test]
fn nothing_happens_before_the_run_begins() {
    let mut supervisor = ProcessSupervisor::new();
    let mut runner = runner(&["build"]);
    assert_eq!(runner.state(), RunState::Idle);
    assert_eq!(runner.next_action(), Action::Begin);
    assert_eq!(runner.result(), None);
    assert!(runner.has_room(usize::MAX));
    assert!(runner.start_stage(&mut supervisor, Ok(1)).events.is_empty());
    assert!(runner.on_spawn(Ok(ProcessHandle { id: 0, pid: 1 })).is_empty());
    assert!(runner.on_output(StreamSource::Stdout, b"x\n").is_empty());
    assert!(runner.on_stream_fault(StreamSource::Stdout, "x".to_string()).is_empty());
    assert!(runner.finish_stage(&mut supervisor, Some(0)).is_empty());
    assert_eq!(runner.state(), RunState::Idle);
    assert_eq!(supervisor.current(), None);
    assert_eq!(runner.pipeline().len(), 1);
}

#[test]
fn each_stage_numbers_its_lines_from_zero() {
    let mut supervisor = ProcessSupervisor::new();
    let mut runner = runner(&["same", "same"]);
    runner.begin();
    let first = run_stage(&mut runner, &mut supervisor, 10, b"a\nb\n", Some(0));
    let second = run_stage(&mut runner, &mut supervisor, 11, b"c\n", Some(0));
    assert_eq!(first[1], output(0, "same", StreamSource::Stdout, "a", 0));
    assert_eq!(first[2], output(0, "same", StreamSource::Stdout, "b", 1));
    assert_eq!(second[1], output(1, "same", StreamSource::Stdout, "c", 0));
    assert_eq!(runner.state(), RunState::Succeeded);
}

#[test]
fn the_lifecycle_event_knows_its_kind_and_its_stage() {
    let event = LifecycleEvent::StageFinished { stage_index: 4, exit: StageExit::Succeeded };
    assert_eq!(event.kind(), LifecycleKind::StageFinished);
    assert_eq!(event.stage_index(), Some(4));
    let over = LifecycleEvent::PipelineFinished { result: failed(2, Some(1), false) };
    assert_eq!(over.kind(), LifecycleKind::PipelineFinished);
    assert_eq!(over.stage_index(), Some(2));
    let ready = LifecycleEvent::ArtifactsReady { working_directory: "/w".to_string() };
    assert_eq!(ready.kind(), LifecycleKind::ArtifactsReady);
    assert_eq!(ready.stage_index(), None);
    let begun = LifecycleEvent::PipelineStarted { name: "n".to_string() };
    assert_eq!(begun.kind(), LifecycleKind::PipelineStarted);
    let started = LifecycleEvent::StageStarted { stage_index: 0, label: "l".to_string() };
    assert_eq!(started.kind(), LifecycleKind::StageStarted);
    assert_eq!(started.stage_index(), Some(0));
}
