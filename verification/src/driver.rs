//! The session loop, run over a recorded stream of events.
//!
//! One turn of the loop waits on the bus and then either dispatches the
//! notification that arrived or, if none did, lets a playing session take an
//! idle tick. An [`Event`] is what one such wait ended with, together with
//! the answers the pipeline gives to the queries of that turn.

use vstd::prelude::*;
use crate::model::{SessionState, after_idle, after_notification, idle_action, reaction_to};
use crate::session::Session;
use crate::types::{IdleAction, Notification, Reaction, SeekingAnswer};

verus! {

/// How one wait on the bus ended.
#[derive(Debug, PartialEq, Eq)]
pub enum Event {
    /// A notification arrived. `seeking` is the pipeline's answer to the
    /// capability query at that moment, `None` if the query fails.
    Notified { notification: Notification, seeking: Option<SeekingAnswer> },
    /// The wait timed out. `position` and `duration` are the pipeline's
    /// answers to the two queries at that moment, `None` where one fails.
    IdleTick { position: Option<u64>, duration: Option<u64> },
}

/// What one turn of the loop did.
#[derive(Debug, PartialEq, Eq)]
pub enum Action {
    /// A notification was dispatched.
    Reacted(Reaction),
    /// A playing session took an idle tick.
    Idled(IdleAction),
    /// The wait timed out on a session that is not playing.
    Waited,
}

impl Clone for Event {
    fn clone(&self) -> (copy: Event)
        ensures
            copy == *self,
    {
        match self {
            Event::Notified { notification, seeking } => Event::Notified {
                notification: notification.clone(),
                seeking: *seeking,
            },
            Event::IdleTick { position, duration } => Event::IdleTick {
                position: *position,
                duration: *duration,
            },
        }
    }
}

impl Clone for Action {
    fn clone(&self) -> (copy: Action)
        ensures
            copy == *self,
    {
        match self {
            Action::Reacted(reaction) => Action::Reacted(reaction.clone()),
            Action::Idled(idle) => Action::Idled(*idle),
            Action::Waited => Action::Waited,
        }
    }
}

/// The session after one turn of the loop that ended with `e`.
pub open spec fn after_event(s: SessionState, e: Event) -> SessionState {
    match e {
        Event::Notified { notification, seeking } => after_notification(s, notification, seeking),
        Event::IdleTick { position, duration } => if s.is_playing {
            after_idle(s, position, duration)
        } else {
            s
        },
    }
}

/// What that turn did.
pub open spec fn action_for(s: SessionState, e: Event) -> Action {
    match e {
        Event::Notified { notification, seeking } => Action::Reacted(
            reaction_to(s, notification, seeking),
        ),
        Event::IdleTick { position, duration } => if s.is_playing {
            Action::Idled(idle_action(s, position, duration))
        } else {
            Action::Waited
        },
    }
}

/// The session that started as `s` once the loop has been offered the first
/// `k` of `events`. An event offered to a session that is to terminate is
/// not taken.
pub open spec fn state_after(s: SessionState, events: Seq<Event>, k: nat) -> SessionState
    decreases k,
{
    if k == 0 {
        s
    } else {
        let before = state_after(s, events, (k - 1) as nat);
        if before.should_terminate {
            before
        } else {
            after_event(before, events[k - 1])
        }
    }
}

/// What the loop did while it was offered the first `k` of `events`, in
/// order.
pub open spec fn actions_after(s: SessionState, events: Seq<Event>, k: nat) -> Seq<Action>
    decreases k,
{
    if k == 0 {
        Seq::empty()
    } else {
        let before = state_after(s, events, (k - 1) as nat);
        let done = actions_after(s, events, (k - 1) as nat);
        if before.should_terminate {
            done
        } else {
            done.push(action_for(before, events[k - 1]))
        }
    }
}

/// Once the session is to terminate, offering it more events changes neither
/// the session nor what was done.
pub proof fn lemma_terminated_run_is_frozen(s: SessionState, events: Seq<Event>, i: nat, j: nat)
    requires
        i <= j,
        state_after(s, events, i).should_terminate,
    ensures
        state_after(s, events, j) == state_after(s, events, i),
        actions_after(s, events, j) == actions_after(s, events, i),
    decreases j,
{
    if i < j {
        lemma_terminated_run_is_frozen(s, events, i, (j - 1) as nat);
    }
}

impl Session {
    /// One turn of the loop: dispatches the notification that arrived, or
    /// takes an idle tick if none arrived and the session is playing.
    pub fn step(&mut self, event: &Event) -> (action: Action)
        ensures
            final(self)@ == after_event(old(self)@, *event),
            action == action_for(old(self)@, *event),
    {
        match event {
            Event::Notified { notification, seeking } => Action::Reacted(
                self.handle_notification(notification, *seeking),
            ),
            Event::IdleTick { position, duration } => if self.is_playing() {
                Action::Idled(self.idle_progress_step(*position, *duration))
            } else {
                Action::Waited
            },
        }
    }

    /// Runs the loop over `events`, in order, for as long as the session is
    /// not to terminate, and returns what each turn did.
    ///
    /// The loop ends when the session is to terminate, or when the events are
    /// used up; what follows the event that ended the session is not looked
    /// at.
    pub fn run_until_terminated(&mut self, events: &Vec<Event>) -> (actions: Vec<Action>)
        ensures
            final(self)@ == state_after(old(self)@, events@, events@.len()),
            actions@ == actions_after(old(self)@, events@, events@.len()),
    {
        let mut actions: Vec<Action> = Vec::new();
        let mut i: usize = 0;
        while i < events.len() && !self.should_terminate()
            invariant
                i <= events.len(),
                self@ == state_after(old(self)@, events@, i as nat),
                actions@ == actions_after(old(self)@, events@, i as nat),
            decreases events.len() - i,
        {
            let action = self.step(&events[i]);
            actions.push(action);
            i += 1;
        }
        proof {
            if i < events.len() {
                lemma_terminated_run_is_frozen(old(self)@, events@, i as nat, events@.len());
            }
        }
        actions
    }
}

} // verus!
