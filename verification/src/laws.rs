//! What holds of every session, whatever the pipeline reports.
//!
//! Each law is stated over the model of the session and of the loop, which
//! is what the contracts of the executable functions are stated over.

use vstd::prelude::*;
use crate::driver::{
    Action, Event, action_for, actions_after, after_event, lemma_terminated_run_is_frozen,
    state_after,
};
use crate::model::{
    SessionState, after_idle, after_notification, enters_playing, from_own_pipeline, reaction_to,
};
use crate::types::{Notification, Reaction, SeekingAnswer};

verus! {

/// `e` is an error or an end-of-stream notification.
pub open spec fn ends_session(e: Event) -> bool {
    e matches Event::Notified { notification, .. } && (notification is Error
        || notification is EndOfStream)
}

/// `e` is a duration-changed notification.
pub open spec fn invalidates_duration(e: Event) -> bool {
    e matches Event::Notified { notification, .. } && notification is DurationChanged
}

/// `e` is an idle tick on which the duration query succeeds.
pub open spec fn supplies_duration(e: Event) -> bool {
    e matches Event::IdleTick { duration, .. } && duration is Some
}

/// `a` is the initial seek.
pub open spec fn is_initial_seek(a: Action) -> bool {
    a matches Action::Idled(idle) && idle is InitialSeek
}

/// The decision to terminate is never taken back: not by a notification, not
/// by an idle tick, not by a turn of the loop.
pub proof fn termination_is_monotonic(
    s: SessionState,
    n: Notification,
    seeking: Option<SeekingAnswer>,
    position: Option<u64>,
    duration: Option<u64>,
    e: Event,
)
    requires
        s.should_terminate,
    ensures
        after_notification(s, n, seeking).should_terminate,
        after_idle(s, position, duration).should_terminate,
        after_event(s, e).should_terminate,
{
}

/// Only an error or an end-of-stream notification makes the session
/// terminate.
pub proof fn only_error_or_end_of_stream_terminates(s: SessionState, e: Event)
    requires
        !s.should_terminate,
    ensures
        after_event(s, e).should_terminate <==> ends_session(e),
{
}

/// Once an error or an end-of-stream notification has been offered to the
/// loop, the session is to terminate for good, and the loop takes no further
/// turn: the session stays as that notification left it, and no action is on
/// record beyond the turn of that notification, no idle-progress step in
/// particular.
pub proof fn termination_is_final(s: SessionState, events: Seq<Event>, i: nat, j: nat)
    requires
        i < j <= events.len(),
        ends_session(events[i as int]),
    ensures
        state_after(s, events, j).should_terminate,
        state_after(s, events, j) == state_after(s, events, (i + 1) as nat),
        actions_after(s, events, j) == actions_after(s, events, (i + 1) as nat),
        actions_after(s, events, j).len() <= i + 1,
{
    assert(state_after(s, events, (i + 1) as nat).should_terminate);
    lemma_terminated_run_is_frozen(s, events, (i + 1) as nat, j);
    lemma_actions_recorded(s, events, (i + 1) as nat);
}

/// A turn of the loop was taken for each action on record and for nothing
/// else: the action at `a` answers event `a`, offered to a session that was
/// not to terminate.
pub proof fn lemma_actions_follow_events(s: SessionState, events: Seq<Event>, k: nat, a: nat)
    requires
        a < actions_after(s, events, k).len(),
    ensures
        a < k,
        !state_after(s, events, a).should_terminate,
        actions_after(s, events, k)[a as int] == action_for(
            state_after(s, events, a),
            events[a as int],
        ),
    decreases k,
{
    if k > 0 {
        lemma_actions_recorded(s, events, (k - 1) as nat);
        if a < actions_after(s, events, (k - 1) as nat).len() {
            lemma_actions_follow_events(s, events, (k - 1) as nat, a);
        }
    }
}

/// The loop records at most one action per event, and exactly one for as
/// long as the session is not to terminate.
pub proof fn lemma_actions_recorded(s: SessionState, events: Seq<Event>, k: nat)
    ensures
        actions_after(s, events, k).len() <= k,
        k > 0 && !state_after(s, events, (k - 1) as nat).should_terminate ==> actions_after(
            s,
            events,
            k,
        ).len() == k,
    decreases k,
{
    if k > 0 {
        lemma_actions_recorded(s, events, (k - 1) as nat);
    }
}

/// The latch of the initial seek never opens again: once the seek is done
/// it stays done, however many events follow.
pub proof fn first_seek_latch_holds(s: SessionState, events: Seq<Event>, i: nat, j: nat)
    requires
        i <= j,
        state_after(s, events, i).first_seek_done,
    ensures
        state_after(s, events, j).first_seek_done,
    decreases j,
{
    if i < j {
        first_seek_latch_holds(s, events, i, (j - 1) as nat);
    }
}

/// The latch closes only on an idle tick of a playing session that can seek,
/// and that tick issues the initial seek.
pub proof fn first_seek_needs_seeking(s: SessionState, e: Event)
    requires
        !s.first_seek_done,
        after_event(s, e).first_seek_done,
    ensures
        s.seek_enabled,
        after_event(s, e).seek_enabled,
        e is IdleTick,
        s.is_playing,
        is_initial_seek(action_for(s, e)),
{
}

/// The initial seek is issued at most once in a session: of the actions the
/// loop takes over any stream of events, no two are the initial seek.
pub proof fn initial_seek_at_most_once(
    s: SessionState,
    events: Seq<Event>,
    k: nat,
    a: nat,
    b: nat,
)
    requires
        a < b < actions_after(s, events, k).len(),
        is_initial_seek(actions_after(s, events, k)[a as int]),
    ensures
        !is_initial_seek(actions_after(s, events, k)[b as int]),
{
    lemma_actions_follow_events(s, events, k, a);
    lemma_actions_follow_events(s, events, k, b);
    assert(state_after(s, events, (a + 1) as nat) == after_event(
        state_after(s, events, a),
        events[a as int],
    ));
    assert(state_after(s, events, (a + 1) as nat).first_seek_done);
    first_seek_latch_holds(s, events, (a + 1) as nat, b);
}

/// The answer to the capability query that event `e` brings to bear on the
/// session: there is one only if `e` reports that the session's own pipeline
/// entered `Playing` and the query made on that occasion succeeded.
pub open spec fn capability_answer(s: SessionState, e: Event) -> Option<SeekingAnswer> {
    match e {
        Event::Notified { notification, seeking } => if enters_playing(s, notification) {
            seeking
        } else {
            None
        },
        Event::IdleTick { .. } => None,
    }
}

/// Whether the stream can seek is decided by nothing but the answer to the
/// capability query made when the session's own pipeline enters `Playing`:
/// every other notification, every failed query and every idle tick leaves
/// `seek_enabled` as it was.
pub proof fn seek_enabled_follows_capability_query(s: SessionState, e: Event)
    ensures
        after_event(s, e).seek_enabled == match capability_answer(s, e) {
            Some(answer) => answer.seekable,
            None => s.seek_enabled,
        },
{
}

/// A duration-changed notification leaves the duration unknown, and no
/// notification ever makes an unknown duration known.
pub proof fn notifications_never_supply_duration(
    s: SessionState,
    n: Notification,
    seeking: Option<SeekingAnswer>,
)
    ensures
        n is DurationChanged ==> after_notification(s, n, seeking).cached_duration is None,
        s.cached_duration is None ==> after_notification(s, n, seeking).cached_duration is None,
{
}

/// An idle tick fills an unknown duration with the answer to its query, and
/// leaves a known duration alone.
pub proof fn idle_tick_refreshes_unknown_duration(
    s: SessionState,
    position: Option<u64>,
    duration: Option<u64>,
)
    ensures
        s.cached_duration is None ==> after_idle(s, position, duration).cached_duration
            == duration,
        s.cached_duration is Some ==> after_idle(s, position, duration).cached_duration
            == s.cached_duration,
{
}

/// A duration that is unknown stays unknown for as long as no idle tick's
/// duration query succeeds.
pub proof fn unknown_duration_persists(s: SessionState, events: Seq<Event>, i: nat, j: nat)
    requires
        i <= j <= events.len(),
        state_after(s, events, i).cached_duration is None,
        forall|k: int| i <= k < j ==> !supplies_duration(#[trigger] events[k]),
    ensures
        state_after(s, events, j).cached_duration is None,
    decreases j,
{
    if i < j {
        unknown_duration_persists(s, events, i, (j - 1) as nat);
        assert(!supplies_duration(events[j - 1]));
    }
}

/// Right after a duration-changed notification is dispatched the duration is
/// unknown, and it stays unknown until the next idle tick whose duration
/// query succeeds.
pub proof fn duration_unknown_until_requeried(
    s: SessionState,
    events: Seq<Event>,
    i: nat,
    j: nat,
)
    requires
        i < j <= events.len(),
        !state_after(s, events, i).should_terminate,
        invalidates_duration(events[i as int]),
        forall|k: int| i < k < j ==> !supplies_duration(#[trigger] events[k]),
    ensures
        state_after(s, events, (i + 1) as nat).cached_duration is None,
        state_after(s, events, j).cached_duration is None,
{
    assert(state_after(s, events, (i + 1) as nat) == after_event(
        state_after(s, events, i),
        events[i as int],
    ));
    unknown_duration_persists(s, events, (i + 1) as nat, j);
}

/// A state change reported by anything but the session's own pipeline is
/// ignored: the session stays exactly as it was, `is_playing` and
/// `seek_enabled` included, and nothing is reported.
pub proof fn foreign_state_change_is_ignored(
    s: SessionState,
    n: Notification,
    seeking: Option<SeekingAnswer>,
)
    requires
        n is StateChanged,
        !from_own_pipeline(s, n),
    ensures
        after_notification(s, n, seeking) == s,
        reaction_to(s, n, seeking) == Reaction::Ignored,
{
}

/// The handle of the pipeline is fixed for the life of the session.
pub proof fn pipeline_handle_is_fixed(s: SessionState, e: Event)
    ensures
        after_event(s, e).pipeline_handle == s.pipeline_handle,
{
}

} // verus!
