//! A player driven by the callbacks of an event loop.
//!
//! Such a player has no loop of its own. The event loop calls it back for
//! each bus message, and by then the pipeline may already be torn down: the
//! callback holds a reference to it that can be revoked, resolves it when it
//! fires, and does nothing if the pipeline is gone.

use vstd::prelude::*;
use crate::types::{Notification, PipelineRequest, PipelineState, copy_text};

verus! {

/// What a bus callback does with a message.
#[derive(Debug, PartialEq, Eq)]
pub enum CallbackAction {
    /// The pipeline is gone, or the message is of no interest.
    Nothing,
    /// An error is to be reported. The window stays; closing it ends the
    /// player.
    ReportError { source: Option<String>, message: String, debug: Option<String> },
    /// The end of the stream is to be reported and `request` made of the
    /// pipeline.
    EndOfStream { request: PipelineRequest },
    /// The pipeline itself changed state: its new state is to be reported.
    ReportState { current: PipelineState },
}

/// What the callback does with `n` when its reference to the pipeline
/// resolves to `pipeline`; `None` stands for a pipeline that is gone.
pub open spec fn callback_action(pipeline: Option<u64>, n: Notification) -> CallbackAction {
    match pipeline {
        None => CallbackAction::Nothing,
        Some(handle) => match n {
            Notification::Error { source, message, debug } => CallbackAction::ReportError {
                source,
                message,
                debug,
            },
            Notification::EndOfStream => CallbackAction::EndOfStream {
                request: PipelineRequest::SetState(PipelineState::Ready),
            },
            Notification::StateChanged { source, old, new } => if source == Some(handle) {
                CallbackAction::ReportState { current: new }
            } else {
                CallbackAction::Nothing
            },
            Notification::DurationChanged => CallbackAction::Nothing,
            Notification::Other => CallbackAction::Nothing,
        },
    }
}

impl Clone for CallbackAction {
    fn clone(&self) -> (copy: CallbackAction)
        ensures
            copy == *self,
    {
        match self {
            CallbackAction::Nothing => CallbackAction::Nothing,
            CallbackAction::ReportError { source, message, debug } => CallbackAction::ReportError {
                source: copy_text(source),
                message: message.clone(),
                debug: copy_text(debug),
            },
            CallbackAction::EndOfStream { request } => CallbackAction::EndOfStream {
                request: request.clone(),
            },
            CallbackAction::ReportState { current } => CallbackAction::ReportState {
                current: *current,
            },
        }
    }
}

/// Dispatches one bus message in a callback.
///
/// `pipeline` is what the callback's reference to the pipeline resolved to:
/// its handle, or `None` if the pipeline is gone, in which case nothing is
/// done whatever the message. At the end of the stream the pipeline is to be
/// brought back to `Ready`; a state change counts only if the pipeline itself
/// reports it.
pub fn on_bus_message(pipeline: Option<u64>, n: &Notification) -> (action: CallbackAction)
    ensures
        action == callback_action(pipeline, *n),
{
    let handle: u64 = match pipeline {
        None => {
            return CallbackAction::Nothing;
        },
        Some(handle) => handle,
    };
    match n {
        Notification::Error { source, message, debug } => CallbackAction::ReportError {
            source: copy_text(source),
            message: message.clone(),
            debug: copy_text(debug),
        },
        Notification::EndOfStream => CallbackAction::EndOfStream {
            request: PipelineRequest::SetState(PipelineState::Ready),
        },
        Notification::StateChanged { source, old: _, new } => match source {
            Some(origin) => if *origin == handle {
                CallbackAction::ReportState { current: *new }
            } else {
                CallbackAction::Nothing
            },
            None => CallbackAction::Nothing,
        },
        Notification::DurationChanged => CallbackAction::Nothing,
        Notification::Other => CallbackAction::Nothing,
    }
}

} // verus!
