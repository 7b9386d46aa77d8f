//! The transport controls of a windowed player: three buttons and a
//! position slider that counts whole seconds.

use vstd::prelude::*;
use crate::types::{
    PipelineRequest, PipelineState, SeekFlags, SeekRequest, NANOS_PER_SECOND,
};

verus! {

/// A button of the player.
#[derive(Clone, Copy, Debug, PartialEq, Eq, Structural)]
pub enum Control {
    Play,
    Pause,
    Stop,
}

/// The seek every control issues: it discards buffered data and resumes at
/// a key unit.
pub open spec fn control_seek(target: u64) -> SeekRequest {
    SeekRequest { target, flags: SeekFlags { flush: true, key_unit: true } }
}

/// What pressing `control` asks of the pipeline, in order.
pub open spec fn control_plan(control: Control) -> Seq<PipelineRequest> {
    match control {
        Control::Play => seq![PipelineRequest::SetState(PipelineState::Playing)],
        Control::Pause => seq![PipelineRequest::SetState(PipelineState::Paused)],
        Control::Stop => seq![
            PipelineRequest::Seek(control_seek(0)),
            PipelineRequest::SetState(PipelineState::Paused),
        ],
    }
}

/// What pressing `control` asks of the pipeline, in order: to play, to
/// pause, or, for a stop, to go back to the start and pause there.
pub fn control_requests(control: Control) -> (requests: Vec<PipelineRequest>)
    ensures
        requests@ == control_plan(control),
{
    let mut requests: Vec<PipelineRequest> = Vec::new();
    match control {
        Control::Play => {
            requests.push(PipelineRequest::SetState(PipelineState::Playing));
        },
        Control::Pause => {
            requests.push(PipelineRequest::SetState(PipelineState::Paused));
        },
        Control::Stop => {
            requests.push(
                PipelineRequest::Seek(
                    SeekRequest { target: 0, flags: SeekFlags { flush: true, key_unit: true } },
                ),
            );
            requests.push(PipelineRequest::SetState(PipelineState::Paused));
        },
    }
    requests
}

/// The seek for a slider moved to `seconds`, or `None` if that position
/// cannot be expressed in nanoseconds, in which case the seek has failed
/// before it was made.
pub fn slider_seek(seconds: u64) -> (seek: Option<SeekRequest>)
    ensures
        seconds * NANOS_PER_SECOND <= u64::MAX ==> seek == Some(
            control_seek((seconds * NANOS_PER_SECOND) as u64),
        ),
        seconds * NANOS_PER_SECOND > u64::MAX ==> seek is None,
{
    match seconds.checked_mul(NANOS_PER_SECOND) {
        Some(target) => Some(
            SeekRequest { target, flags: SeekFlags { flush: true, key_unit: true } },
        ),
        None => None,
    }
}

/// Where the slider stands for `time`: its whole seconds, and zero for a
/// time that is not known.
pub fn slider_seconds(time: Option<u64>) -> (seconds: u64)
    ensures
        seconds == match time {
            Some(nanos) => nanos / NANOS_PER_SECOND,
            None => 0,
        },
{
    match time {
        Some(nanos) => nanos / NANOS_PER_SECOND,
        None => 0,
    }
}

} // verus!
