use idf_studio::services::events::{LifecycleEvent, SinkEvent};
use idf_studio::services::pipeline::{
    ExitReason, Outcome, Pipeline, PipelineResult, PipelineStage, RunState, StageExit,
};
use idf_studio::services::process_store::SpawnError;
use idf_studio::services::process_stream::{OutputEvent, StreamSource};
use idf_studio::services::run::{run, StageRecord};

fn pipeline(labels: &[&str]) -> Pipeline {
    let stages = labels
        .iter()
        .map(|label| PipelineStage {
            label: label.to_string(),
            program: "tool".to_string(),
            args: vec![],
            working_directory: "/work".to_string(),
            env: vec![],
        })
        .collect();
    Pipeline::new("pipeline".to_string(), stages).unwrap()
}

fn exits(stdout: &str, stderr: &str, code: i32) -> StageRecord {
    StageRecord {
        spawned: Ok(100),
        stdout: stdout.as_bytes().to_vec(),
        stderr: stderr.as_bytes().to_vec(),
        exit_code: Some(code),
        cancelled: false,
    }
}

fn texts(events: &[SinkEvent]) -> Vec<String> {
    events
        .iter()
        .filter_map(|event| match event {
            SinkEvent::Output { event, .. } => Some(event.text.clone()),
            SinkEvent::Lifecycle(_) => None,
        })
        .collect()
}

fn lifecycle(events: &[SinkEvent]) -> Vec<LifecycleEvent> {
    events
        .iter()
        .filter_map(|event| match event {
            SinkEvent::Lifecycle(event) => Some(event.clone()),
            SinkEvent::Output { .. } => None,
        })
        .collect()
}

#[test]
fn compile_succeeds_and_link_fails() {
    let report = run(
        pipeline(&["compile", "link"]),
        "/work".to_string(),
        vec![exits("ok\n", "", 0), exits("undefined symbol\n", "", 1)],
    );
    assert_eq!(report.state, RunState::Failed(1, ExitReason::Code(1)));
    let failed = PipelineResult {
        outcome: Outcome::Failed,
        failing_stage_index: Some(1),
        exit_code: Some(1),
        cancelled: false,
    };
    assert_eq!(report.result, Some(failed));
    assert_eq!(texts(&report.events), vec!["ok", "undefined symbol"]);
    assert_eq!(
        report.events.last(),
        Some(&SinkEvent::Lifecycle(LifecycleEvent::PipelineFinished { result: failed }))
    );
    let undefined = report
        .events
        .iter()
        .position(|e| matches!(e, SinkEvent::Output { event, .. } if event.text == "undefined symbol"))
        .unwrap();
    let ok = report
        .events
        .iter()
        .position(|e| matches!(e, SinkEvent::Output { event, .. } if event.text == "ok"))
        .unwrap();
    assert!(ok < undefined);
    assert!(undefined < report.events.len() - 1);
    assert!(!report
        .events
        .iter()
        .any(|e| matches!(e, SinkEvent::Lifecycle(LifecycleEvent::ArtifactsReady { .. }))));
}

#[test]
fn one_silent_stage_that_exits_zero_succeeds() {
    let report = run(pipeline(&["build"]), "/work/here".to_string(), vec![exits("", "", 0)]);
    assert_eq!(report.state, RunState::Succeeded);
    assert_eq!(report.result.map(|r| r.outcome), Some(Outcome::Success));
    assert!(texts(&report.events).is_empty());
    let ready: Vec<&SinkEvent> = report
        .events
        .iter()
        .filter(|e| matches!(e, SinkEvent::Lifecycle(LifecycleEvent::ArtifactsReady { .. })))
        .collect();
    assert_eq!(
        ready,
        vec![&SinkEvent::Lifecycle(LifecycleEvent::ArtifactsReady {
            working_directory: "/work/here".to_string(),
        })]
    );
}

#[test]
fn records_after_the_first_failure_count_for_nothing() {
    let report = run(
        pipeline(&["a", "b", "c", "d"]),
        "/work".to_string(),
        vec![exits("", "", 0), exits("", "boom\n", 2), exits("never\n", "", 0), exits("", "", 9)],
    );
    assert_eq!(report.state, RunState::Failed(1, ExitReason::Code(2)));
    assert_eq!(texts(&report.events), vec!["boom"]);
    assert_eq!(
        lifecycle(&report.events),
        vec![
            LifecycleEvent::PipelineStarted { name: "pipeline".to_string() },
            LifecycleEvent::StageStarted { stage_index: 0, label: "a".to_string() },
            LifecycleEvent::StageFinished { stage_index: 0, exit: StageExit::Succeeded },
            LifecycleEvent::StageStarted { stage_index: 1, label: "b".to_string() },
            LifecycleEvent::StageFinished {
                stage_index: 1,
                exit: StageExit::Failed(ExitReason::Code(2)),
            },
            LifecycleEvent::PipelineFinished {
                result: PipelineResult {
                    outcome: Outcome::Failed,
                    failing_stage_index: Some(1),
                    exit_code: Some(2),
                    cancelled: false,
                },
            },
        ]
    );
}

#[test]
fn every_stage_is_reported_as_finished_exactly_once() {
    let report = run(
        pipeline(&["a", "b", "c"]),
        "/work".to_string(),
        vec![exits("1\n", "x\n", 0), exits("2\n", "", 0), exits("3", "y", 0)],
    );
    assert_eq!(report.state, RunState::Succeeded);
    for index in 0..3 {
        let finished = report
            .events
            .iter()
            .filter(|e| {
                matches!(e, SinkEvent::Lifecycle(LifecycleEvent::StageFinished { stage_index, .. })
                    if *stage_index == index)
            })
            .count();
        assert_eq!(finished, 1);
    }
    assert_eq!(texts(&report.events), vec!["1", "x", "2", "3", "y"]);
}

#[test]
fn both_streams_are_told_with_stdout_first() {
    let report = run(
        pipeline(&["build"]),
        "/work".to_string(),
        vec![exits("out 1\nout 2\n", "err 1\nerr 2", 0)],
    );
    let lines: Vec<OutputEvent> = report
        .events
        .iter()
        .filter_map(|e| match e {
            SinkEvent::Output { event, .. } => Some(event.clone()),
            _ => None,
        })
        .collect();
    assert_eq!(
        lines,
        vec![
            OutputEvent { source: StreamSource::Stdout, text: "out 1".to_string(), sequence: 0 },
            OutputEvent { source: StreamSource::Stdout, text: "out 2".to_string(), sequence: 1 },
            OutputEvent { source: StreamSource::Stderr, text: "err 1".to_string(), sequence: 2 },
            OutputEvent { source: StreamSource::Stderr, text: "err 2".to_string(), sequence: 3 },
        ]
    );
}

#[test]
fn a_cancelled_stage_ends_the_run_as_cancelled() {
    let cancelled = StageRecord {
        spawned: Ok(7),
        stdout: b"partial".to_vec(),
        stderr: vec![],
        exit_code: None,
        cancelled: true,
    };
    let report = run(pipeline(&["a", "b"]), "/work".to_string(), vec![cancelled, exits("", "", 0)]);
    assert_eq!(report.state, RunState::Failed(0, ExitReason::Cancelled));
    assert_eq!(
        report.result,
        Some(PipelineResult {
            outcome: Outcome::Failed,
            failing_stage_index: Some(0),
            exit_code: None,
            cancelled: true,
        })
    );
    assert_eq!(texts(&report.events), vec!["partial"]);
}

#[test]
fn a_failed_start_ends_the_run_without_starting_the_stage() {
    let not_found = StageRecord {
        spawned: Err(SpawnError::NotFound),
        stdout: b"never read\n".to_vec(),
        stderr: vec![],
        exit_code: Some(0),
        cancelled: false,
    };
    let report = run(pipeline(&["a", "b"]), "/work".to_string(), vec![exits("", "", 0), not_found]);
    assert_eq!(report.state, RunState::SpawnFailed(1));
    assert_eq!(report.result.map(|r| r.outcome), Some(Outcome::Aborted));
    assert!(texts(&report.events).is_empty());
    assert!(!report.events.iter().any(|e| matches!(
        e,
        SinkEvent::Lifecycle(LifecycleEvent::StageStarted { stage_index: 1, .. })
    )));
}

#[test]
fn with_fewer_records_than_stages_the_run_waits() {
    let report = run(pipeline(&["a", "b"]), "/work".to_string(), vec![exits("", "", 0)]);
    assert_eq!(report.state, RunState::Running(1));
    assert_eq!(report.result, None);
    let report = run(pipeline(&["a"]), "/work".to_string(), vec![]);
    assert_eq!(report.state, RunState::Running(0));
    assert_eq!(
        report.events,
        vec![SinkEvent::Lifecycle(LifecycleEvent::PipelineStarted { name: "pipeline".to_string() })]
    );
}

#[test]
fn records_beyond_the_last_stage_count_for_nothing() {
    let report =
        run(pipeline(&["a"]), "/work".to_string(), vec![exits("", "", 0), exits("x\n", "", 1)]);
    assert_eq!(report.state, RunState::Succeeded);
    assert!(texts(&report.events).is_empty());
}
