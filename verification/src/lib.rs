//! A playback session controller.
//!
//! A player owns a media pipeline and reacts to what the pipeline reports on
//! its bus. This crate holds the part of a player that decides: which state
//! the session is in, what a notification or an idle tick changes, and what is
//! to be asked of the pipeline in return. Talking to the pipeline is left to
//! the program that uses the crate.
//!
//! - [`session`] is the session itself, [`model`] what it is specified
//!   against, [`driver`] the loop around it and [`laws`] what holds of all of
//!   them.
//! - [`callback`] and [`controls`] serve a player with a window, which is
//!   driven by an event loop instead of a loop of its own.
//! - [`pads`] and [`streams`] tell which pads of a decoder carry raw audio and
//!   describe the streams of a container.
//! - [`exit`] says how a player ended and with which status.

pub mod callback;
pub mod controls;
pub mod driver;
pub mod exit;
pub mod laws;
pub mod model;
pub mod pads;
pub mod session;
pub mod streams;
pub mod types;

pub use callback::{CallbackAction, on_bus_message};
pub use controls::{Control, control_requests, slider_seconds, slider_seek};
pub use driver::{Action, Event};
pub use exit::{Ending, exit_code, session_ending, EXIT_CLEAN, EXIT_FAILURE};
pub use pads::{is_raw_audio, starts_with};
pub use session::Session;
pub use streams::{
    StreamKind, StreamTags, append_decimal, count_property, describe_stream, listing_order,
    tags_signal,
};
pub use types::{
    IdleAction, Notification, PipelineRequest, PipelineState, Reaction, SeekFlags, SeekRequest,
    SeekingAnswer, SeekingReport, StartupError, StartupReport, NANOS_PER_SECOND, POLL_TIMEOUT_MS,
    SEEK_TARGET, SEEK_THRESHOLD,
};
