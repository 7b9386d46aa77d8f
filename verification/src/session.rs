//! The playback session: the state a player keeps about one pipeline, and the
//! two steps that change it.

use vstd::prelude::*;
use crate::model::{
    SessionState, after_idle, after_notification, enters_playing, idle_action, initial_state,
    reaction_to,
};
use crate::types::{
    IdleAction, Notification, PipelineRequest, PipelineState, Reaction, SeekFlags, SeekRequest,
    SeekingAnswer, SeekingReport, StartupError, StartupReport, SEEK_TARGET, SEEK_THRESHOLD,
    copy_text, target_seek,
};

verus! {

/// One playback session. Its fields change only through
/// [`Session::handle_notification`] and [`Session::idle_progress_step`].
#[derive(Debug)]
pub struct Session {
    pipeline_handle: u64,
    is_playing: bool,
    should_terminate: bool,
    seek_enabled: bool,
    first_seek_done: bool,
    cached_duration: Option<u64>,
}

impl View for Session {
    type V = SessionState;

    closed spec fn view(&self) -> SessionState {
        SessionState {
            pipeline_handle: self.pipeline_handle,
            is_playing: self.is_playing,
            should_terminate: self.should_terminate,
            seek_enabled: self.seek_enabled,
            first_seek_done: self.first_seek_done,
            cached_duration: self.cached_duration,
        }
    }
}

/// When a session may be started: the framework is up, the pipeline is built
/// and configured, and it agreed to play.
pub open spec fn startup_succeeded(report: StartupReport) -> bool {
    report.framework_initialized && report.pipeline is Some && report.playing_accepted
}

/// The first step of the startup that failed.
pub open spec fn startup_failure(report: StartupReport) -> StartupError {
    if !report.framework_initialized {
        StartupError::Initialization
    } else if report.pipeline is None {
        StartupError::Construction
    } else {
        StartupError::PlayingRefused
    }
}

/// The seek to [`SEEK_TARGET`] that discards buffered data and resumes at a
/// key unit.
pub fn seek_to_target() -> (request: SeekRequest)
    ensures
        request == target_seek(),
{
    SeekRequest { target: SEEK_TARGET, flags: SeekFlags { flush: true, key_unit: true } }
}

impl Session {
    /// What to ask of a freshly built pipeline, in this order: to take `uri`
    /// as its source, then to play.
    pub fn startup_requests(uri: String) -> (requests: Vec<PipelineRequest>)
        ensures
            requests@ == seq![
                PipelineRequest::SetSourceLocator(uri),
                PipelineRequest::SetState(PipelineState::Playing),
            ],
    {
        let mut requests: Vec<PipelineRequest> = Vec::new();
        requests.push(PipelineRequest::SetSourceLocator(uri));
        requests.push(PipelineRequest::SetState(PipelineState::Playing));
        requests
    }

    /// Opens the session on a pipeline that was brought up as `report` says.
    ///
    /// There is a session only if every step of the startup succeeded;
    /// otherwise the first step that failed is returned, and with no session
    /// there is nothing to monitor.
    pub fn start(report: StartupReport) -> (started: Result<Session, StartupError>)
        ensures
            started is Ok <==> startup_succeeded(report),
            started matches Ok(session) ==> session@ == initial_state(report.pipeline->0),
            started matches Err(error) ==> error == startup_failure(report),
    {
        if !report.framework_initialized {
            return Err(StartupError::Initialization);
        }
        match report.pipeline {
            None => Err(StartupError::Construction),
            Some(pipeline_handle) => if report.playing_accepted {
                Ok(
                    Session {
                        pipeline_handle,
                        is_playing: false,
                        should_terminate: false,
                        seek_enabled: false,
                        first_seek_done: false,
                        cached_duration: None,
                    },
                )
            } else {
                Err(StartupError::PlayingRefused)
            },
        }
    }

    /// Handle of the session's own pipeline.
    pub fn pipeline_handle(&self) -> (handle: u64)
        ensures
            handle == self@.pipeline_handle,
    {
        self.pipeline_handle
    }

    /// Whether the pipeline was last seen entering `Playing`.
    pub fn is_playing(&self) -> (playing: bool)
        ensures
            playing == self@.is_playing,
    {
        self.is_playing
    }

    /// Whether a fatal error or the end of the stream was seen; the loop ends
    /// when this holds.
    pub fn should_terminate(&self) -> (terminate: bool)
        ensures
            terminate == self@.should_terminate,
    {
        self.should_terminate
    }

    /// Whether the stream answered that it can seek.
    pub fn seek_enabled(&self) -> (enabled: bool)
        ensures
            enabled == self@.seek_enabled,
    {
        self.seek_enabled
    }

    /// Whether the initial seek has been issued.
    pub fn first_seek_done(&self) -> (done: bool)
        ensures
            done == self@.first_seek_done,
    {
        self.first_seek_done
    }

    /// The duration of the stream, if it is known and still trusted.
    pub fn cached_duration(&self) -> (duration: Option<u64>)
        ensures
            duration == self@.cached_duration,
    {
        self.cached_duration
    }

    /// Whether handling `n` consults the stream's seeking capability, so that
    /// the query has to be made before `n` is handled.
    pub fn needs_seeking_query(&self, n: &Notification) -> (needed: bool)
        ensures
            needed == enters_playing(self@, *n),
    {
        match n {
            Notification::StateChanged { source, old: _, new } => match source {
                Some(handle) => *handle == self.pipeline_handle && match new {
                    PipelineState::Playing => true,
                    _ => false,
                },
                None => false,
            },
            _ => false,
        }
    }

    /// Whether the next idle tick consults the stream's duration.
    pub fn needs_duration_query(&self) -> (needed: bool)
        ensures
            needed == (self@.cached_duration is None),
    {
        self.cached_duration.is_none()
    }

    /// Dispatches one bus notification.
    ///
    /// `seeking` is the answer to the capability query, `None` if the query
    /// failed; it is read only when `n` reports that the session's own
    /// pipeline entered `Playing`.
    pub fn handle_notification(
        &mut self,
        n: &Notification,
        seeking: Option<SeekingAnswer>,
    ) -> (reaction: Reaction)
        ensures
            final(self)@ == after_notification(old(self)@, *n, seeking),
            reaction == reaction_to(old(self)@, *n, seeking),
    {
        match n {
            Notification::Error { source, message, debug } => {
                self.should_terminate = true;
                Reaction::ErrorReported {
                    source: copy_text(source),
                    message: message.clone(),
                    debug: copy_text(debug),
                }
            },
            Notification::EndOfStream => {
                self.should_terminate = true;
                Reaction::EndOfStream
            },
            Notification::DurationChanged => {
                self.cached_duration = None;
                Reaction::DurationInvalidated
            },
            Notification::StateChanged { source, old, new } => {
                let own: bool = match source {
                    Some(handle) => *handle == self.pipeline_handle,
                    None => false,
                };
                if !own {
                    return Reaction::Ignored;
                }
                match new {
                    PipelineState::Playing => {
                        self.is_playing = true;
                        let report = match seeking {
                            Some(answer) => {
                                self.seek_enabled = answer.seekable;
                                if answer.seekable {
                                    SeekingReport::Enabled { start: answer.start, end: answer.end }
                                } else {
                                    SeekingReport::Disabled
                                }
                            },
                            None => SeekingReport::QueryFailed,
                        };
                        Reaction::StateChanged { old: *old, new: *new, seeking: Some(report) }
                    },
                    _ => {
                        self.is_playing = false;
                        Reaction::StateChanged { old: *old, new: *new, seeking: None }
                    },
                }
            },
            Notification::Other => Reaction::Ignored,
        }
    }

    /// One idle tick of a playing session.
    ///
    /// `position` is what the position query gave. `duration` is what the
    /// duration query gave; it is read only while no duration is cached. An
    /// unknown position skips the tick's seek and progress, nothing more.
    pub fn idle_progress_step(&mut self, position: Option<u64>, duration: Option<u64>) -> (action:
        IdleAction)
        ensures
            final(self)@ == after_idle(old(self)@, position, duration),
            action == idle_action(old(self)@, position, duration),
    {
        if self.cached_duration.is_none() {
            self.cached_duration = duration;
        }
        match position {
            None => IdleAction::Skipped,
            Some(at) => if !self.first_seek_done && self.seek_enabled {
                self.first_seek_done = true;
                IdleAction::InitialSeek(seek_to_target())
            } else {
                let corrective_seek = if self.seek_enabled && at > SEEK_THRESHOLD {
                    Some(seek_to_target())
                } else {
                    None
                };
                IdleAction::Progress {
                    position: at,
                    duration: self.cached_duration,
                    corrective_seek,
                }
            },
        }
    }

    /// Ends the session. The pipeline is to be brought to `Null`, whatever
    /// the session went through, and the session is gone.
    pub fn shutdown(self) -> (request: PipelineRequest)
        ensures
            request == PipelineRequest::SetState(PipelineState::Null),
    {
        PipelineRequest::SetState(PipelineState::Null)
    }
}

} // verus!
