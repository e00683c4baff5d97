//! What a run pushes outward: the lines that the processes wrote, and the
//! notifications that mark the boundaries of stages and of the pipeline.

use crate::services::pipeline::{PipelineResult, StageExit};
use crate::services::process_stream::{OutputEvent, OutputEventView};
use vstd::prelude::*;

verus! {

/// The kinds of lifecycle notification.
#[derive(Clone, Copy, Debug, PartialEq, Eq, Structural)]
pub enum LifecycleKind {
    PipelineStarted,
    StageStarted,
    StageFinished,
    PipelineFinished,
    ArtifactsReady,
}

/// A notification that marks a boundary of the run.
#[derive(Clone, Debug, PartialEq, Eq)]
pub enum LifecycleEvent {
    /// The run has begun.
    PipelineStarted { name: String },
    /// The process of a stage has been started.
    StageStarted { stage_index: usize, label: String },
    /// The process of a stage has exited and both its streams have ended.
    StageFinished { stage_index: usize, exit: StageExit },
    /// The run is over.
    PipelineFinished { result: PipelineResult },
    /// The run succeeded; what it built is found under this directory.
    ArtifactsReady { working_directory: String },
}

/// A [`LifecycleEvent`] as a mathematical value.
pub enum LifecycleEventView {
    PipelineStarted { name: Seq<char> },
    StageStarted { stage_index: usize, label: Seq<char> },
    StageFinished { stage_index: usize, exit: StageExit },
    PipelineFinished { result: PipelineResult },
    ArtifactsReady { working_directory: Seq<char> },
}

impl View for LifecycleEvent {
    type V = LifecycleEventView;

    open spec fn view(&self) -> LifecycleEventView {
        match self {
            LifecycleEvent::PipelineStarted { name } => LifecycleEventView::PipelineStarted {
                name: name@,
            },
            LifecycleEvent::StageStarted { stage_index, label } => LifecycleEventView::StageStarted {
                stage_index: *stage_index,
                label: label@,
            },
            LifecycleEvent::StageFinished { stage_index, exit } => LifecycleEventView::StageFinished {
                stage_index: *stage_index,
                exit: *exit,
            },
            LifecycleEvent::PipelineFinished { result } => LifecycleEventView::PipelineFinished {
                result: *result,
            },
            LifecycleEvent::ArtifactsReady {
                working_directory,
            } => LifecycleEventView::ArtifactsReady { working_directory: working_directory@ },
        }
    }
}

impl LifecycleEventView {
    /// The kind of the notification.
    pub open spec fn kind(self) -> LifecycleKind {
        match self {
            LifecycleEventView::PipelineStarted { .. } => LifecycleKind::PipelineStarted,
            LifecycleEventView::StageStarted { .. } => LifecycleKind::StageStarted,
            LifecycleEventView::StageFinished { .. } => LifecycleKind::StageFinished,
            LifecycleEventView::PipelineFinished { .. } => LifecycleKind::PipelineFinished,
            LifecycleEventView::ArtifactsReady { .. } => LifecycleKind::ArtifactsReady,
        }
    }

    /// The stage that the notification is about: the stage itself for the
    /// two stage notifications, the failing stage for the end of a run.
    pub open spec fn stage_index(self) -> Option<usize> {
        match self {
            LifecycleEventView::PipelineStarted { .. } => None,
            LifecycleEventView::StageStarted { stage_index, .. } => Some(stage_index),
            LifecycleEventView::StageFinished { stage_index, .. } => Some(stage_index),
            LifecycleEventView::PipelineFinished { result } => result.failing_stage_index,
            LifecycleEventView::ArtifactsReady { .. } => None,
        }
    }
}

impl LifecycleEvent {
    /// The kind of the notification.
    pub fn kind(&self) -> (kind: LifecycleKind)
        ensures
            kind == self@.kind(),
    {
        match self {
            LifecycleEvent::PipelineStarted { .. } => LifecycleKind::PipelineStarted,
            LifecycleEvent::StageStarted { .. } => LifecycleKind::StageStarted,
            LifecycleEvent::StageFinished { .. } => LifecycleKind::StageFinished,
            LifecycleEvent::PipelineFinished { .. } => LifecycleKind::PipelineFinished,
            LifecycleEvent::ArtifactsReady { .. } => LifecycleKind::ArtifactsReady,
        }
    }

    /// The stage that the notification is about, if it is about one.
    pub fn stage_index(&self) -> (index: Option<usize>)
        ensures
            index == self@.stage_index(),
    {
        match self {
            LifecycleEvent::PipelineStarted { .. } => None,
            LifecycleEvent::StageStarted { stage_index, .. } => Some(*stage_index),
            LifecycleEvent::StageFinished { stage_index, .. } => Some(*stage_index),
            LifecycleEvent::PipelineFinished { result } => result.failing_stage_index,
            LifecycleEvent::ArtifactsReady { .. } => None,
        }
    }
}

/// What the sink receives.
#[derive(Clone, Debug, PartialEq, Eq)]
pub enum SinkEvent {
    /// A line that the process of a stage wrote.
    Output { stage_index: usize, label: String, event: OutputEvent },
    /// A boundary of the run.
    Lifecycle(LifecycleEvent),
}

/// A [`SinkEvent`] as a mathematical value.
pub enum SinkEventView {
    Output { stage_index: usize, label: Seq<char>, event: OutputEventView },
    Lifecycle(LifecycleEventView),
}

impl View for SinkEvent {
    type V = SinkEventView;

    open spec fn view(&self) -> SinkEventView {
        match self {
            SinkEvent::Output { stage_index, label, event } => SinkEventView::Output {
                stage_index: *stage_index,
                label: label@,
                event: event@,
            },
            SinkEvent::Lifecycle(event) => SinkEventView::Lifecycle(event@),
        }
    }
}

} // verus!
