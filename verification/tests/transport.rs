use idf_studio::services::events::{LifecycleEvent, SinkEvent};
use idf_studio::services::pipeline::{ExitReason, Outcome, PipelineResult, RunState, StageExit};
use idf_studio::services::process_stream::{OutputEvent, StreamSource};
use idf_studio::services::text::{code_text, join, decimal_text, same_text};
use idf_studio::services::transport::{
    capture_check, emit_build, emit_terminal, spawn_failure_line, stream_result, Emission,
    LineStyle, BUILD_FINISHED, BUILD_LOG, EXPORT_SCRIPT_NOT_FOUND, FLASH_CALLED, HOME_NOT_FOUND,
    PROJECT_PATH_MISSING, REFRESH_PROJECT_FILES, TERMINAL_FORCE_OPEN, TERMINAL_OUTPUT,
};

fn line(source: StreamSource, text: &str) -> OutputEvent {
    OutputEvent { source, text: text.to_string(), sequence: 0 }
}

fn output(source: StreamSource, text: &str) -> SinkEvent {
    SinkEvent::Output { stage_index: 0, label: "build".to_string(), event: line(source, text) }
}

fn message(channel: &str, payload: &str) -> Emission {
    Emission { channel: channel.to_string(), payload: payload.to_string() }
}

fn over(state: RunState) -> SinkEvent {
    SinkEvent::Lifecycle(LifecycleEvent::PipelineFinished { result: state.result().unwrap() })
}

#[test]
fn lines_of_the_error_stream_get_the_prefix_of_their_style() {
    let err = line(StreamSource::Stderr, "warning: x");
    let out = line(StreamSource::Stdout, "compiling");
    assert_eq!(LineStyle::Terminal.show(&err), "[ERR] warning: x");
    assert_eq!(LineStyle::BuildLog.show(&err), "\u{26a0} warning: x");
    assert_eq!(LineStyle::Plain.show(&err), " warning: x");
    assert_eq!(LineStyle::Terminal.show(&out), "compiling");
    assert_eq!(LineStyle::BuildLog.show(&out), "compiling");
    assert_eq!(LineStyle::Plain.show(&out), "compiling");
}

#[test]
fn a_build_tells_its_lines_on_the_build_log() {
    assert_eq!(
        emit_build(&output(StreamSource::Stdout, "ok")),
        vec![message("build-log", "ok")]
    );
    assert_eq!(
        emit_build(&output(StreamSource::Stderr, "undefined symbol")),
        vec![message("build-log", "\u{26a0} undefined symbol")]
    );
}

#[test]
fn a_build_tells_its_beginning_and_its_end() {
    let begun = SinkEvent::Lifecycle(LifecycleEvent::PipelineStarted { name: "b".to_string() });
    assert_eq!(emit_build(&begun), vec![message("build-log", " Starting ESP-IDF build...")]);
    assert_eq!(
        emit_build(&over(RunState::Succeeded)),
        vec![
            message("build-log", "\u{2705} Build complete (only merged.bin kept)"),
            message("build-finished", "Build successful"),
        ]
    );
    assert_eq!(
        emit_build(&over(RunState::Failed(0, ExitReason::Code(2)))),
        vec![message("build-finished", "Build failed")]
    );
    assert_eq!(
        emit_build(&over(RunState::Failed(0, ExitReason::Cancelled))),
        vec![message("build-finished", "Build failed")]
    );
    assert_eq!(
        emit_build(&over(RunState::SpawnFailed(0))),
        vec![message("build-finished", "Build failed")]
    );
    let ready = SinkEvent::Lifecycle(LifecycleEvent::ArtifactsReady {
        working_directory: "/p/blink".to_string(),
    });
    assert_eq!(emit_build(&ready), vec![message("refresh-project-files", "/p/blink")]);
}

#[test]
fn the_boundaries_of_stages_are_not_told() {
    let started = SinkEvent::Lifecycle(LifecycleEvent::StageStarted {
        stage_index: 0,
        label: "build".to_string(),
    });
    let finished = SinkEvent::Lifecycle(LifecycleEvent::StageFinished {
        stage_index: 0,
        exit: StageExit::Succeeded,
    });
    assert!(emit_build(&started).is_empty());
    assert!(emit_build(&finished).is_empty());
    assert!(emit_terminal(&started).is_empty());
    assert!(emit_terminal(&finished).is_empty());
    assert!(emit_terminal(&over(RunState::Succeeded)).is_empty());
}

#[test]
fn the_terminal_tells_lines_only() {
    assert_eq!(
        emit_terminal(&output(StreamSource::Stdout, "64 bytes from host")),
        vec![message("terminal-output", "64 bytes from host")]
    );
    assert_eq!(
        emit_terminal(&output(StreamSource::Stderr, "unknown host")),
        vec![message("terminal-output", "[ERR] unknown host")]
    );
}

#[test]
fn the_channels_have_their_names() {
    assert_eq!(BUILD_LOG, "build-log");
    assert_eq!(BUILD_FINISHED, "build-finished");
    assert_eq!(REFRESH_PROJECT_FILES, "refresh-project-files");
    assert_eq!(TERMINAL_OUTPUT, "terminal-output");
    assert_eq!(TERMINAL_FORCE_OPEN, "terminal:force-open");
    assert_eq!(HOME_NOT_FOUND, "Home directory not found");
    assert_eq!(EXPORT_SCRIPT_NOT_FOUND, "ESP-IDF export.sh not found");
    assert_eq!(PROJECT_PATH_MISSING, "Project path does not exist");
    assert_eq!(FLASH_CALLED, "\u{1f525} compile_and_flash() CALLED");
    assert_eq!(
        spawn_failure_line("No such file or directory (os error 2)"),
        "\u{274c} Failed to start build: No such file or directory (os error 2)"
    );
}

#[test]
fn a_stream_fails_with_the_code_of_its_process() {
    assert_eq!(stream_result(Some(0)), Ok(()));
    assert_eq!(stream_result(Some(1)), Err("Build failed with exit code Some(1)".to_string()));
    assert_eq!(
        stream_result(Some(-127)),
        Err("Build failed with exit code Some(-127)".to_string())
    );
    assert_eq!(stream_result(None), Err("Build failed with exit code None".to_string()));
}

#[test]
fn both_streams_must_be_captured() {
    assert_eq!(capture_check(true, true), Ok(()));
    assert_eq!(capture_check(false, true), Err("Failed to capture stdout".to_string()));
    assert_eq!(capture_check(true, false), Err("Failed to capture stderr".to_string()));
    assert_eq!(capture_check(false, false), Err("Failed to capture stdout".to_string()));
}

#[test]
fn numbers_are_written_as_the_standard_library_writes_them() {
    for value in [0, 1, 9, 10, 11, 99, 100, 101, 1000, 65535, -1, -10, -999, i32::MAX, i32::MIN] {
        assert_eq!(decimal_text(value), value.to_string());
        assert_eq!(code_text(Some(value)), format!("{:?}", Some(value)));
    }
    assert_eq!(code_text(None), format!("{:?}", None::<i32>));
}

#[test]
fn texts_are_compared_and_joined_by_their_characters() {
    assert!(same_text("bin", "bin"));
    assert!(!same_text("bin", "BIN"));
    assert!(!same_text("bin", "bin "));
    assert!(same_text("", ""));
    assert_eq!(join("a\u{2013}", "\u{1f525}b"), "a\u{2013}\u{1f525}b");
    assert_eq!(join("", ""), "");
}

#[test]
fn a_failed_run_has_a_failed_outcome() {
    let result = RunState::Failed(1, ExitReason::Code(1)).result().unwrap();
    assert_eq!(
        result,
        PipelineResult {
            outcome: Outcome::Failed,
            failing_stage_index: Some(1),
            exit_code: Some(1),
            cancelled: false,
        }
    );
}
