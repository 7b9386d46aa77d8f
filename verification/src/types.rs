//! Plain values exchanged between the session controller and the program
//! that owns the media pipeline.
//!
//! The controller never touches the pipeline itself. It is told what the
//! pipeline reported (a [`Notification`], the answer to a query) and says what
//! should be asked of the pipeline next (a [`PipelineRequest`], a
//! [`SeekRequest`]). All times are in nanoseconds; an absent time means that
//! the pipeline could not determine it.

use vstd::prelude::*;

verus! {

/// Nanoseconds in one second.
pub const NANOS_PER_SECOND: u64 = 1_000_000_000;

/// Where the initial seek and every corrective seek go: 30 s.
pub const SEEK_TARGET: u64 = 30_000_000_000;

/// A position strictly beyond this triggers a corrective seek: 35 s.
pub const SEEK_THRESHOLD: u64 = 35_000_000_000;

/// How long one wait on the bus may block, in milliseconds.
pub const POLL_TIMEOUT_MS: u64 = 100;

/// The phase a pipeline element is in.
#[derive(Clone, Copy, Debug, PartialEq, Eq, Structural)]
pub enum PipelineState {
    /// No state is pending.
    VoidPending,
    /// Fully stopped; every resource is released.
    Null,
    /// Resources are allocated, no data flows.
    Ready,
    /// Data is prerolled, the clock is stopped.
    Paused,
    /// The clock runs and data flows.
    Playing,
}

/// How a seek treats buffered data and the exact target.
#[derive(Clone, Copy, Debug, PartialEq, Eq, Structural)]
pub struct SeekFlags {
    /// Discard the data that is already buffered.
    pub flush: bool,
    /// Resume from the nearest key unit instead of the exact target.
    pub key_unit: bool,
}

/// A request to reposition playback.
#[derive(Clone, Copy, Debug, PartialEq, Eq, Structural)]
pub struct SeekRequest {
    /// Target offset from the start of the stream.
    pub target: u64,
    /// Seek mode.
    pub flags: SeekFlags,
}

/// The pipeline's answer to "can this stream seek, and over what range?".
#[derive(Clone, Copy, Debug, PartialEq, Eq, Structural)]
pub struct SeekingAnswer {
    pub seekable: bool,
    pub start: Option<u64>,
    pub end: Option<u64>,
}

/// What the capability query that follows a transition into `Playing` gave.
#[derive(Clone, Copy, Debug, PartialEq, Eq, Structural)]
pub enum SeekingReport {
    /// The stream can seek between `start` and `end`.
    Enabled { start: Option<u64>, end: Option<u64> },
    /// The stream cannot seek.
    Disabled,
    /// The query gave no answer; seeking stays as it was.
    QueryFailed,
}

/// A message from the pipeline's bus.
///
/// `source` identifies the element that posted the message. For a state
/// change it is the element's handle, which is compared with the handle of the
/// session's own pipeline; for an error it is the element's path, kept only to
/// be reported.
#[allow(inconsistent_fields)]
#[derive(Debug, PartialEq, Eq)]
pub enum Notification {
    Error { source: Option<String>, message: String, debug: Option<String> },
    EndOfStream,
    DurationChanged,
    StateChanged { source: Option<u64>, old: PipelineState, new: PipelineState },
    Other,
}

/// Something to ask of the pipeline.
#[derive(Debug, PartialEq, Eq)]
pub enum PipelineRequest {
    /// Point the pipeline at the media to play.
    SetSourceLocator(String),
    /// Ask for a transition to the given state.
    SetState(PipelineState),
    /// Reposition playback.
    Seek(SeekRequest),
}

/// What handling one notification amounts to, for the program to report.
#[derive(Debug, PartialEq, Eq)]
pub enum Reaction {
    /// The notification changed nothing.
    Ignored,
    /// A fatal error: the session ends.
    ErrorReported { source: Option<String>, message: String, debug: Option<String> },
    /// The stream ran to its end: the session ends.
    EndOfStream,
    /// The cached duration was dropped and will be queried again.
    DurationInvalidated,
    /// The session's own pipeline changed state. `seeking` is present exactly
    /// when the new state is `Playing`.
    StateChanged { old: PipelineState, new: PipelineState, seeking: Option<SeekingReport> },
}

/// What one idle tick amounts to.
#[derive(Clone, Copy, Debug, PartialEq, Eq, Structural)]
pub enum IdleAction {
    /// The position is unknown: nothing is sought or shown on this tick.
    Skipped,
    /// The one initial seek is to be issued; no progress is shown.
    InitialSeek(SeekRequest),
    /// Progress is to be shown, followed by a corrective seek if one is given.
    Progress { position: u64, duration: Option<u64>, corrective_seek: Option<SeekRequest> },
}

/// What the program observed while bringing the pipeline up.
#[derive(Clone, Copy, Debug, PartialEq, Eq, Structural)]
pub struct StartupReport {
    /// The media framework initialised.
    pub framework_initialized: bool,
    /// Handle of the pipeline, once it is built and has accepted its source
    /// locator.
    pub pipeline: Option<u64>,
    /// The pipeline accepted the request to play.
    pub playing_accepted: bool,
}

/// Why a session could not be started.
#[derive(Clone, Copy, Debug, PartialEq, Eq, Structural)]
pub enum StartupError {
    /// The media framework could not be initialised.
    Initialization,
    /// The pipeline could not be built, or rejected its source locator.
    Construction,
    /// The pipeline refused to start playing.
    PlayingRefused,
}

/// A copy of a text that may be absent.
pub fn copy_text(text: &Option<String>) -> (copy: Option<String>)
    ensures
        copy == *text,
{
    match text {
        Some(present) => Some(present.clone()),
        None => None,
    }
}

impl Clone for Notification {
    fn clone(&self) -> (copy: Notification)
        ensures
            copy == *self,
    {
        match self {
            Notification::Error { source, message, debug } => Notification::Error {
                source: copy_text(source),
                message: message.clone(),
                debug: copy_text(debug),
            },
            Notification::EndOfStream => Notification::EndOfStream,
            Notification::DurationChanged => Notification::DurationChanged,
            Notification::StateChanged { source, old, new } => Notification::StateChanged {
                source: *source,
                old: *old,
                new: *new,
            },
            Notification::Other => Notification::Other,
        }
    }
}

impl Clone for PipelineRequest {
    fn clone(&self) -> (copy: PipelineRequest)
        ensures
            copy == *self,
    {
        match self {
            PipelineRequest::SetSourceLocator(uri) => PipelineRequest::SetSourceLocator(
                uri.clone(),
            ),
            PipelineRequest::SetState(state) => PipelineRequest::SetState(*state),
            PipelineRequest::Seek(seek) => PipelineRequest::Seek(*seek),
        }
    }
}

impl Clone for Reaction {
    fn clone(&self) -> (copy: Reaction)
        ensures
            copy == *self,
    {
        match self {
            Reaction::Ignored => Reaction::Ignored,
            Reaction::ErrorReported { source, message, debug } => Reaction::ErrorReported {
                source: copy_text(source),
                message: message.clone(),
                debug: copy_text(debug),
            },
            Reaction::EndOfStream => Reaction::EndOfStream,
            Reaction::DurationInvalidated => Reaction::DurationInvalidated,
            Reaction::StateChanged { old, new, seeking } => Reaction::StateChanged {
                old: *old,
                new: *new,
                seeking: *seeking,
            },
        }
    }
}

/// The seek issued both initially and as a correction: to [`SEEK_TARGET`],
/// discarding buffered data and resuming at a key unit.
pub open spec fn target_seek() -> SeekRequest {
    SeekRequest { target: SEEK_TARGET, flags: SeekFlags { flush: true, key_unit: true } }
}

} // verus!
