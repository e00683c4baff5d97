//! How the events of a run are put on the channels of the user interface.

use crate::services::events::{LifecycleEvent, LifecycleEventView, SinkEvent, SinkEventView};
use crate::services::pipeline::Outcome;
use crate::services::process_stream::{OutputEvent, OutputEventView, StreamSource};
use crate::services::text::{code_text, join, shown_code};
use crate::views::views;
use vstd::prelude::*;

verus! {

/// The channel of the lines of a build.
pub const BUILD_LOG: &'static str = "build-log";

/// The channel on which the end of a build is told.
pub const BUILD_FINISHED: &'static str = "build-finished";

/// What is told on that channel when a build did not succeed.
pub const BUILD_FAILED: &'static str = "Build failed";

/// The channel that asks for the file list of a project to be read again.
pub const REFRESH_PROJECT_FILES: &'static str = "refresh-project-files";

/// The channel of the lines of the terminal.
pub const TERMINAL_OUTPUT: &'static str = "terminal-output";

/// The channel that asks for the terminal to be opened.
pub const TERMINAL_FORCE_OPEN: &'static str = "terminal:force-open";

/// What is logged when the home directory is not known.
pub const HOME_NOT_FOUND: &'static str = "Home directory not found";

/// What is logged when the toolchain is not installed.
pub const EXPORT_SCRIPT_NOT_FOUND: &'static str = "ESP-IDF export.sh not found";

/// What is answered when a project has no directory.
pub const PROJECT_PATH_MISSING: &'static str = "Project path does not exist";

/// What is logged when flashing is asked for.
pub const FLASH_CALLED: &'static str = "\u{1f525} compile_and_flash() CALLED";

/// The three ways in which lines are shown, which differ in what they put
/// before a line of the error stream.
#[derive(Clone, Copy, Debug, PartialEq, Eq, Structural)]
pub enum LineStyle {
    /// The terminal: `[ERR] `.
    Terminal,
    /// The build log: a warning sign and a space.
    BuildLog,
    /// A plain stream: one space.
    Plain,
}

impl LineStyle {
    /// What is put before a line of the error stream.
    pub open spec fn error_prefix(self) -> Seq<char> {
        match self {
            LineStyle::Terminal => "[ERR] "@,
            LineStyle::BuildLog => "\u{26a0} "@,
            LineStyle::Plain => " "@,
        }
    }

    /// A line as it is shown: as it is if it came from standard output, with
    /// the prefix if it came from the error stream.
    pub open spec fn shown(self, event: OutputEventView) -> Seq<char> {
        match event.source {
            StreamSource::Stdout => event.text,
            StreamSource::Stderr => self.error_prefix() + event.text,
        }
    }

    /// Writes a line as it is shown.
    pub fn show(self, event: &OutputEvent) -> (line: String)
        ensures
            line@ == self.shown(event@),
    {
        match event.source {
            StreamSource::Stdout => event.text.clone(),
            StreamSource::Stderr => match self {
                LineStyle::Terminal => join("[ERR] ", event.text.as_str()),
                LineStyle::BuildLog => join("\u{26a0} ", event.text.as_str()),
                LineStyle::Plain => join(" ", event.text.as_str()),
            },
        }
    }
}

/// One message for the user interface.
#[derive(Clone, Debug, PartialEq, Eq)]
pub struct Emission {
    pub channel: String,
    pub payload: String,
}

impl View for Emission {
    type V = (Seq<char>, Seq<char>);

    open spec fn view(&self) -> (Seq<char>, Seq<char>) {
        (self.channel@, self.payload@)
    }
}

/// The messages that an event of a build is told with, as channel and
/// payload.
///
/// Lines go to the build log. The beginning of the run is logged. A run
/// that succeeded is logged and told as successful; any other end is told
/// as failed. The artifacts are announced by asking for the project's files
/// to be read again. The boundaries of stages are not told.
pub open spec fn build_emissions(event: SinkEventView) -> Seq<(Seq<char>, Seq<char>)> {
    match event {
        SinkEventView::Output { event, .. } => seq![("build-log"@, LineStyle::BuildLog.shown(event))],
        SinkEventView::Lifecycle(LifecycleEventView::PipelineStarted { .. }) => seq![
            ("build-log"@, " Starting ESP-IDF build..."@),
        ],
        SinkEventView::Lifecycle(LifecycleEventView::PipelineFinished { result }) => if result.outcome
            is Success {
            seq![
                ("build-log"@, "\u{2705} Build complete (only merged.bin kept)"@),
                ("build-finished"@, "Build successful"@),
            ]
        } else {
            seq![("build-finished"@, "Build failed"@)]
        },
        SinkEventView::Lifecycle(LifecycleEventView::ArtifactsReady { working_directory }) => seq![
            ("refresh-project-files"@, working_directory),
        ],
        SinkEventView::Lifecycle(_) => Seq::empty(),
    }
}

/// The message that carries `payload` on `channel`.
fn emission(channel: &str, payload: String) -> (message: Emission)
    ensures
        message@ == (channel@, payload@),
{
    Emission { channel: String::from_str(channel), payload }
}

/// Turns an event of a build into the messages that it is told with.
pub fn emit_build(event: &SinkEvent) -> (messages: Vec<Emission>)
    ensures
        views(messages@) == build_emissions(event@),
{
    let mut messages: Vec<Emission> = Vec::new();
    match event {
        SinkEvent::Output { event: line, .. } => {
            messages.push(emission("build-log", LineStyle::BuildLog.show(line)));
        },
        SinkEvent::Lifecycle(LifecycleEvent::PipelineStarted { .. }) => {
            messages.push(emission("build-log", String::from_str(" Starting ESP-IDF build...")));
        },
        SinkEvent::Lifecycle(LifecycleEvent::PipelineFinished { result }) => {
            match result.outcome {
                Outcome::Success => {
                    messages.push(
                        emission(
                            "build-log",
                            String::from_str("\u{2705} Build complete (only merged.bin kept)"),
                        ),
                    );
                    messages.push(emission("build-finished", String::from_str("Build successful")));
                },
                _ => {
                    messages.push(emission("build-finished", String::from_str("Build failed")));
                },
            }
        },
        SinkEvent::Lifecycle(LifecycleEvent::ArtifactsReady { working_directory }) => {
            messages.push(emission("refresh-project-files", working_directory.clone()));
        },
        SinkEvent::Lifecycle(_) => {},
    }
    assert(views(messages@) =~= build_emissions(event@));
    messages
}

/// The messages that an event is told with on the terminal: its lines, and
/// nothing else.
pub open spec fn terminal_emissions(event: SinkEventView) -> Seq<(Seq<char>, Seq<char>)> {
    match event {
        SinkEventView::Output { event, .. } => seq![
            ("terminal-output"@, LineStyle::Terminal.shown(event)),
        ],
        SinkEventView::Lifecycle(_) => Seq::empty(),
    }
}

/// Turns an event into the messages that it is told with on the terminal.
pub fn emit_terminal(event: &SinkEvent) -> (messages: Vec<Emission>)
    ensures
        views(messages@) == terminal_emissions(event@),
{
    let mut messages: Vec<Emission> = Vec::new();
    match event {
        SinkEvent::Output { event: line, .. } => {
            messages.push(emission("terminal-output", LineStyle::Terminal.show(line)));
        },
        SinkEvent::Lifecycle(_) => {},
    }
    assert(views(messages@) =~= terminal_emissions(event@));
    messages
}

/// What is logged when the build could not be started, for the reason
/// `detail`.
pub fn spawn_failure_line(detail: &str) -> (line: String)
    ensures
        line@ == "\u{274c} Failed to start build: "@ + detail@,
{
    join("\u{274c} Failed to start build: ", detail)
}

/// What a stream of output comes to once its process has exited with
/// `code`: nothing to say after code zero, and otherwise the failure with
/// the code as [`shown_code`] writes it.
pub open spec fn stream_verdict(code: Option<i32>) -> Result<(), Seq<char>> {
    if code == Some(0i32) {
        Ok(())
    } else {
        Err("Build failed with exit code "@ + shown_code(code))
    }
}

/// Decides what a stream of output comes to.
pub fn stream_result(code: Option<i32>) -> (verdict: Result<(), String>)
    ensures
        (match verdict {
            Ok(_) => Ok::<(), Seq<char>>(()),
            Err(message) => Err(message@),
        }) == stream_verdict(code),
{
    let success = match code {
        Some(value) => value == 0,
        None => false,
    };
    if success {
        Ok(())
    } else {
        let shown = code_text(code);
        Err(join("Build failed with exit code ", shown.as_str()))
    }
}

/// Whether both streams of a process were captured, and if not, which one
/// is missing: standard output is looked at first.
pub open spec fn capture_verdict(stdout: bool, stderr: bool) -> Result<(), Seq<char>> {
    if !stdout {
        Err("Failed to capture stdout"@)
    } else if !stderr {
        Err("Failed to capture stderr"@)
    } else {
        Ok(())
    }
}

/// Decides whether the streams of a process can be read.
pub fn capture_check(stdout: bool, stderr: bool) -> (verdict: Result<(), String>)
    ensures
        (match verdict {
            Ok(_) => Ok::<(), Seq<char>>(()),
            Err(message) => Err(message@),
        }) == capture_verdict(stdout, stderr),
{
    if !stdout {
        Err(String::from_str("Failed to capture stdout"))
    } else if !stderr {
        Err(String::from_str("Failed to capture stderr"))
    } else {
        Ok(())
    }
}

} // verus!
