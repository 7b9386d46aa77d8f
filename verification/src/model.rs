//! The session as a mathematical state machine.
//!
//! [`SessionState`] is what a session is; the functions below say what each
//! notification and each idle tick make of it and what is to be done in
//! return. The executable session is specified against them, and the laws of
//! the controller are proved about them.

use vstd::prelude::*;
use crate::types::{
    IdleAction, Notification, PipelineState, Reaction, SeekingAnswer, SeekingReport,
    SEEK_THRESHOLD, target_seek,
};

verus! {

/// Everything a session knows.
pub struct SessionState {
    /// Handle of the session's own pipeline.
    pub pipeline_handle: u64,
    /// The pipeline was last seen entering `Playing`.
    pub is_playing: bool,
    /// A fatal error or the end of the stream was seen.
    pub should_terminate: bool,
    /// The stream answered that it can seek.
    pub seek_enabled: bool,
    /// The initial seek has been issued.
    pub first_seek_done: bool,
    /// Duration of the stream, while it is known and still trusted.
    pub cached_duration: Option<u64>,
}

/// A session that has seen nothing yet.
pub open spec fn initial_state(pipeline_handle: u64) -> SessionState {
    SessionState {
        pipeline_handle,
        is_playing: false,
        should_terminate: false,
        seek_enabled: false,
        first_seek_done: false,
        cached_duration: None,
    }
}

/// `n` reports a state change of the session's own pipeline.
pub open spec fn from_own_pipeline(s: SessionState, n: Notification) -> bool {
    n matches Notification::StateChanged { source, .. } && source == Some(s.pipeline_handle)
}

/// `n` reports that the session's own pipeline entered `Playing`: the one
/// occasion on which the stream is asked whether it can seek.
pub open spec fn enters_playing(s: SessionState, n: Notification) -> bool {
    from_own_pipeline(s, n) && n->new == PipelineState::Playing
}

/// What the answer to the capability query is reported as.
pub open spec fn seeking_report(seeking: Option<SeekingAnswer>) -> SeekingReport {
    match seeking {
        Some(answer) => if answer.seekable {
            SeekingReport::Enabled { start: answer.start, end: answer.end }
        } else {
            SeekingReport::Disabled
        },
        None => SeekingReport::QueryFailed,
    }
}

/// The session after notification `n`, where `seeking` is what the capability
/// query gives at that moment. It is consulted only if `enters_playing(s, n)`.
pub open spec fn after_notification(
    s: SessionState,
    n: Notification,
    seeking: Option<SeekingAnswer>,
) -> SessionState {
    match n {
        Notification::Error { .. } => SessionState { should_terminate: true, ..s },
        Notification::EndOfStream => SessionState { should_terminate: true, ..s },
        Notification::DurationChanged => SessionState { cached_duration: None, ..s },
        Notification::StateChanged { source, old, new } => if source == Some(s.pipeline_handle) {
            if new == PipelineState::Playing {
                SessionState {
                    is_playing: true,
                    seek_enabled: match seeking {
                        Some(answer) => answer.seekable,
                        None => s.seek_enabled,
                    },
                    ..s
                }
            } else {
                SessionState { is_playing: false, ..s }
            }
        } else {
            s
        },
        Notification::Other => s,
    }
}

/// What is reported in return for notification `n`.
pub open spec fn reaction_to(
    s: SessionState,
    n: Notification,
    seeking: Option<SeekingAnswer>,
) -> Reaction {
    match n {
        Notification::Error { source, message, debug } => Reaction::ErrorReported {
            source,
            message,
            debug,
        },
        Notification::EndOfStream => Reaction::EndOfStream,
        Notification::DurationChanged => Reaction::DurationInvalidated,
        Notification::StateChanged { source, old, new } => if source == Some(s.pipeline_handle) {
            Reaction::StateChanged {
                old,
                new,
                seeking: if new == PipelineState::Playing {
                    Some(seeking_report(seeking))
                } else {
                    None
                },
            }
        } else {
            Reaction::Ignored
        },
        Notification::Other => Reaction::Ignored,
    }
}

/// The duration the session holds once an idle tick has had the chance to
/// query it: a known duration is kept, an unknown one becomes whatever the
/// query gave.
pub open spec fn refreshed_duration(s: SessionState, duration: Option<u64>) -> Option<u64> {
    if s.cached_duration is Some {
        s.cached_duration
    } else {
        duration
    }
}

/// The idle tick at `position` issues the initial seek.
pub open spec fn issues_initial_seek(s: SessionState, position: Option<u64>) -> bool {
    position is Some && !s.first_seek_done && s.seek_enabled
}

/// The session after an idle tick on which the position query gave `position`
/// and the duration query, if it is made, gives `duration`.
pub open spec fn after_idle(
    s: SessionState,
    position: Option<u64>,
    duration: Option<u64>,
) -> SessionState {
    SessionState {
        cached_duration: refreshed_duration(s, duration),
        first_seek_done: s.first_seek_done || issues_initial_seek(s, position),
        ..s
    }
}

/// What is to be done on that idle tick.
pub open spec fn idle_action(
    s: SessionState,
    position: Option<u64>,
    duration: Option<u64>,
) -> IdleAction {
    match position {
        None => IdleAction::Skipped,
        Some(at) => if !s.first_seek_done && s.seek_enabled {
            IdleAction::InitialSeek(target_seek())
        } else {
            IdleAction::Progress {
                position: at,
                duration: refreshed_duration(s, duration),
                corrective_seek: if s.seek_enabled && at > SEEK_THRESHOLD {
                    Some(target_seek())
                } else {
                    None
                },
            }
        },
    }
}

} // verus!
