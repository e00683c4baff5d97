use idf_studio::services::pipeline::{
    stage_exit, ExitReason, Outcome, Pipeline, PipelineError, PipelineResult, PipelineStage,
    RunState, StageExit,
};

fn stage(label: &str) -> PipelineStage {
    PipelineStage {
        label: label.to_string(),
        program: "idf.py".to_string(),
        args: vec![label.to_string()],
        working_directory: "/work".to_string(),
        env: vec![],
    }
}

#[test]
fn a_pipeline_without_stages_is_rejected() {
    let made = Pipeline::new("empty".to_string(), vec![]);
    assert_eq!(made.err(), Some(PipelineError::NoStages));
}

#[test]
fn a_pipeline_keeps_its_stages_in_order() {
    let pipeline = Pipeline::new("build".to_string(), vec![stage("compile"), stage("link")])
        .unwrap();
    assert_eq!(pipeline.name(), "build");
    assert_eq!(pipeline.len(), 2);
    assert_eq!(pipeline.stage(0), Some(&stage("compile")));
    assert_eq!(pipeline.stage(1), Some(&stage("link")));
    assert_eq!(pipeline.stage(2), None);
}

#[test]
fn two_stages_may_share_a_label() {
    let pipeline = Pipeline::new("twice".to_string(), vec![stage("build"), stage("build")])
        .unwrap();
    assert_eq!(pipeline.len(), 2);
    assert_eq!(pipeline.stage(0), pipeline.stage(1));
}

#[test]
fn exit_code_zero_is_success_whatever_else_holds() {
    assert_eq!(stage_exit(Some(0), false), StageExit::Succeeded);
    assert_eq!(stage_exit(Some(0), true), StageExit::Succeeded);
}

#[test]
fn other_exits_are_failures_with_their_reason() {
    assert_eq!(stage_exit(Some(1), false), StageExit::Failed(ExitReason::Code(1)));
    assert_eq!(stage_exit(Some(-9), false), StageExit::Failed(ExitReason::Code(-9)));
    assert_eq!(stage_exit(None, false), StageExit::Failed(ExitReason::Signal));
    assert_eq!(stage_exit(Some(143), true), StageExit::Failed(ExitReason::Cancelled));
    assert_eq!(stage_exit(None, true), StageExit::Failed(ExitReason::Cancelled));
}

#[test]
fn only_states_that_end_a_run_have_a_result() {
    assert_eq!(RunState::Idle.result(), None);
    assert_eq!(RunState::Running(3).result(), None);
    assert_eq!(
        RunState::Succeeded.result(),
        Some(PipelineResult {
            outcome: Outcome::Success,
            failing_stage_index: None,
            exit_code: None,
            cancelled: false,
        })
    );
    assert_eq!(
        RunState::Failed(1, ExitReason::Code(2)).result(),
        Some(PipelineResult {
            outcome: Outcome::Failed,
            failing_stage_index: Some(1),
            exit_code: Some(2),
            cancelled: false,
        })
    );
    assert_eq!(
        RunState::Failed(0, ExitReason::Signal).result(),
        Some(PipelineResult {
            outcome: Outcome::Failed,
            failing_stage_index: Some(0),
            exit_code: None,
            cancelled: false,
        })
    );
    assert_eq!(
        RunState::Failed(4, ExitReason::Cancelled).result(),
        Some(PipelineResult {
            outcome: Outcome::Failed,
            failing_stage_index: Some(4),
            exit_code: None,
            cancelled: true,
        })
    );
    assert_eq!(
        RunState::SpawnFailed(2).result(),
        Some(PipelineResult {
            outcome: Outcome::Aborted,
            failing_stage_index: Some(2),
            exit_code: None,
            cancelled: false,
        })
    );
}
