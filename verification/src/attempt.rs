//! One switch attempt with its bookkeeping: how many gestures it has made
//! against an optional limit, what was last read, and how it ended.

use crate::controller::{is_terminal, next_step, switch_to_target_input, SwitchAction, SwitchEvent, SwitchState};
use vstd::prelude::*;

verus! {

/// How an attempt ended.
#[derive(Clone, Copy, Debug, PartialEq, Eq, Structural)]
pub enum AttemptOutcome {
    /// The target input method was seen active.
    Converged,
    /// A gesture could not be made.
    GestureFailed,
    /// The limit on gestures was reached before the target was seen.
    Aborted,
}

/// The state of one attempt. All of it is forgotten when the next attempt
/// starts, but for the limit.
#[derive(Clone, Copy, Debug, PartialEq, Eq, Structural)]
pub struct SwitchAttempt {
    /// Where the controller stands.
    pub state: SwitchState,
    /// The most gestures one attempt may make; `None` for no limit.
    pub limit: Option<u64>,
    /// The gestures made in this attempt. They are counted only where a
    /// limit is set.
    pub gestures: u64,
    /// What the last reading in this attempt showed; `None` when there was
    /// none yet or it could not be had.
    pub last_reading: Option<bool>,
    /// How the attempt ended, once it has.
    pub outcome: Option<AttemptOutcome>,
}

/// Whether the attempt has used up its gestures.
pub open spec fn exhausted(a: SwitchAttempt) -> bool {
    a.limit matches Some(m) && a.gestures >= m
}

/// Whether the attempt awaits a reading.
pub open spec fn awaits_reading(state: SwitchState) -> bool {
    state == SwitchState::Checking || state == SwitchState::Switching
}

/// The last reading after `event`.
pub open spec fn reading_after(a: SwitchAttempt, event: SwitchEvent) -> Option<bool> {
    match event {
        SwitchEvent::Observed(reading) => if awaits_reading(a.state) {
            reading
        } else {
            a.last_reading
        },
        _ => a.last_reading,
    }
}

/// The outcome that a state stands for.
pub open spec fn outcome_of(state: SwitchState) -> Option<AttemptOutcome> {
    match state {
        SwitchState::Converged => Some(AttemptOutcome::Converged),
        SwitchState::Failed => Some(AttemptOutcome::GestureFailed),
        _ => None,
    }
}

/// An attempt at rest with the given limit.
pub open spec fn resting(limit: Option<u64>) -> SwitchAttempt {
    SwitchAttempt { state: SwitchState::Idle, limit, gestures: 0, last_reading: None, outcome: None }
}

/// The attempt after `event`, and the action it calls for. It follows the
/// controller's transitions, with one addition: where the controller would
/// ask for a gesture and the limit is used up, the attempt is aborted
/// instead and asks for nothing.
pub open spec fn attempt_step(a: SwitchAttempt, event: SwitchEvent) -> (
    SwitchAttempt,
    SwitchAction,
) {
    let (state, action) = next_step(a.state, event);
    if action == SwitchAction::InvokeGesture && exhausted(a) {
        (
            SwitchAttempt {
                state: SwitchState::Failed,
                limit: a.limit,
                gestures: a.gestures,
                last_reading: reading_after(a, event),
                outcome: Some(AttemptOutcome::Aborted),
            },
            SwitchAction::Nothing,
        )
    } else if action == SwitchAction::Query {
        (
            SwitchAttempt {
                state,
                limit: a.limit,
                gestures: 0,
                last_reading: None,
                outcome: None,
            },
            action,
        )
    } else {
        (
            SwitchAttempt {
                state,
                limit: a.limit,
                gestures: if action == SwitchAction::InvokeGesture && a.limit is Some {
                    (a.gestures + 1) as u64
                } else {
                    a.gestures
                },
                last_reading: reading_after(a, event),
                outcome: if state == a.state {
                    a.outcome
                } else {
                    outcome_of(state)
                },
            },
            action,
        )
    }
}

impl SwitchAttempt {
    /// What holds of every attempt that started at rest: the gestures made
    /// are within the limit, and there is an outcome exactly when the
    /// attempt is over.
    pub open spec fn wf(self) -> bool {
        &&& self.limit matches Some(m) ==> self.gestures <= m
        &&& self.outcome is Some <==> is_terminal(self.state)
        &&& self.outcome == Some(AttemptOutcome::Converged) <==> self.state
            == SwitchState::Converged
    }

    /// An attempt at rest. With `limit` set, an attempt makes at most that
    /// many gestures; with `None` it goes on until the target is seen or a
    /// gesture fails.
    pub fn new(limit: Option<u64>) -> (a: Self)
        ensures
            a == resting(limit),
            a.wf(),
    {
        SwitchAttempt { state: SwitchState::Idle, limit, gestures: 0, last_reading: None, outcome: None }
    }

    /// Advances the attempt by one event and returns what is to be done
    /// next.
    pub fn step(&mut self, event: SwitchEvent) -> (action: SwitchAction)
        ensures
            (*final(self), action) == attempt_step(*old(self), event),
            old(self).wf() ==> final(self).wf(),
    {
        let (state, action) = switch_to_target_input(self.state, event);
        if let SwitchEvent::Observed(reading) = event {
            match self.state {
                SwitchState::Checking | SwitchState::Switching => {
                    self.last_reading = reading;
                },
                _ => {},
            }
        }
        match action {
            SwitchAction::InvokeGesture => {
                match self.limit {
                    Some(m) => {
                        if self.gestures >= m {
                            self.state = SwitchState::Failed;
                            self.outcome = Some(AttemptOutcome::Aborted);
                            return SwitchAction::Nothing;
                        }
                        self.gestures = self.gestures + 1;
                    },
                    None => {},
                }
                if state != self.state {
                    self.outcome = None;
                }
                self.state = state;
            },
            SwitchAction::Query => {
                self.state = state;
                self.gestures = 0;
                self.last_reading = None;
                self.outcome = None;
            },
            _ => {
                if state != self.state {
                    self.outcome = match state {
                        SwitchState::Converged => Some(AttemptOutcome::Converged),
                        SwitchState::Failed => Some(AttemptOutcome::GestureFailed),
                        _ => None,
                    };
                }
                self.state = state;
            },
        }
        action
    }
}

/// The invariant of attempts holds at rest and after every event.
pub proof fn lemma_step_keeps_wf(a: SwitchAttempt, event: SwitchEvent)
    requires
        a.wf(),
    ensures
        attempt_step(a, event).0.wf(),
        attempt_step(a, event).0.limit == a.limit,
        resting(a.limit).wf(),
{
}

/// Each gesture asked for is counted against the limit, so an attempt with a
/// limit never asks for more gestures than the limit allows.
pub proof fn lemma_gestures_within_limit(a: SwitchAttempt, event: SwitchEvent, m: u64)
    requires
        a.wf(),
        a.limit == Some(m),
    ensures
        attempt_step(a, event).1 == SwitchAction::InvokeGesture ==> a.gestures < m
            && attempt_step(a, event).0.gestures == a.gestures + 1,
        attempt_step(a, event).0.gestures <= m,
{
}

/// Until the limit is used up, and always where there is none, the attempt
/// moves as the controller does and asks for what the controller asks.
pub proof fn lemma_follows_controller(a: SwitchAttempt, event: SwitchEvent)
    requires
        !exhausted(a),
    ensures
        attempt_step(a, event).0.state == next_step(a.state, event).0,
        attempt_step(a, event).1 == next_step(a.state, event).1,
{
}

/// An attempt is aborted exactly when the controller would ask for one more
/// gesture than the limit allows.
pub proof fn lemma_aborted_iff_over_limit(a: SwitchAttempt, event: SwitchEvent)
    requires
        a.wf(),
    ensures
        attempt_step(a, event).0.outcome == Some(AttemptOutcome::Aborted) <==> (a.outcome == Some(
            AttemptOutcome::Aborted,
        ) && event != SwitchEvent::Triggered) || (exhausted(a) && next_step(a.state, event).1
            == SwitchAction::InvokeGesture),
{
}

} // verus!
