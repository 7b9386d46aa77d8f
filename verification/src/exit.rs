//! How a player comes to its end, and the status its process leaves with.

use vstd::prelude::*;
use crate::types::{Reaction, StartupError};

verus! {

/// Exit status of a player that ended cleanly.
pub const EXIT_CLEAN: u8 = 0;

/// Exit status of a player that ended on a failure.
pub const EXIT_FAILURE: u8 = 1;

/// How a player came to its end.
#[derive(Clone, Copy, Debug, PartialEq, Eq, Structural)]
pub enum Ending {
    /// The stream ran to its end.
    EndOfStream,
    /// The user closed the window.
    WindowClosed,
    /// The pipeline reported an error while the session ran.
    PipelineError,
    /// The session could not be started.
    StartupFailed(StartupError),
}

/// The ending that a reaction brings about, if it ends the session.
pub open spec fn ending_of(reaction: Reaction) -> Option<Ending> {
    match reaction {
        Reaction::ErrorReported { .. } => Some(Ending::PipelineError),
        Reaction::EndOfStream => Some(Ending::EndOfStream),
        _ => None,
    }
}

/// An ending is clean if nothing failed: the stream ended or the window was
/// closed.
pub open spec fn is_clean(ending: Ending) -> bool {
    ending is EndOfStream || ending is WindowClosed
}

/// Tells whether `reaction` ends the session, and how: an error ends it on
/// a failure, the end of the stream ends it cleanly, nothing else ends it.
pub fn session_ending(reaction: &Reaction) -> (ending: Option<Ending>)
    ensures
        ending == ending_of(*reaction),
{
    match reaction {
        Reaction::ErrorReported { .. } => Some(Ending::PipelineError),
        Reaction::EndOfStream => Some(Ending::EndOfStream),
        _ => None,
    }
}

/// The status the process leaves with: zero after a clean ending, non-zero
/// after a pipeline error or a failed startup.
pub fn exit_code(ending: Ending) -> (code: u8)
    ensures
        code == if is_clean(ending) {
            EXIT_CLEAN
        } else {
            EXIT_FAILURE
        },
{
    match ending {
        Ending::EndOfStream => EXIT_CLEAN,
        Ending::WindowClosed => EXIT_CLEAN,
        Ending::PipelineError => EXIT_FAILURE,
        Ending::StartupFailed(_) => EXIT_FAILURE,
    }
}

} // verus!
