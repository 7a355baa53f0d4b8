//! The input-method switch controller: a state machine that is told what the
//! platform answered and says what to ask of it next.

use vstd::prelude::*;

verus! {

/// How long the platform is given to settle after a successful gesture before
/// the active input method is read again, in milliseconds.
pub const SETTLE_DELAY_MS: u64 = 50;

/// Where one switch attempt stands.
#[derive(Clone, Copy, Debug, PartialEq, Eq, Structural)]
pub enum SwitchState {
    /// No attempt is under way.
    Idle,
    /// The first reading of the active input method is awaited.
    Checking,
    /// The target was not active; gestures are being made and checked.
    Switching,
    /// The target input method was seen active.
    Converged,
    /// A gesture could not be made; the attempt was given up.
    Failed,
}

/// What the caller reports to the controller.
#[derive(Clone, Copy, Debug, PartialEq, Eq, Structural)]
pub enum SwitchEvent {
    /// A trigger string was typed.
    Triggered,
    /// The active input method was read: `Some(true)` when it is the target,
    /// `Some(false)` when it is another, `None` when it could not be read.
    Observed(Option<bool>),
    /// The switch gesture was made.
    GestureSucceeded,
    /// The switch gesture could not be made.
    GestureFailed,
}

/// What the controller asks of the caller.
#[derive(Clone, Copy, Debug, PartialEq, Eq, Structural)]
pub enum SwitchAction {
    /// Nothing is to be done.
    Nothing,
    /// Read the active input method and report it.
    Query,
    /// Make the switch gesture and report how it went.
    InvokeGesture,
    /// Wait for the settle delay, then read the active input method.
    SettleThenQuery,
}

/// Whether a reading shows the target input method active. A reading that
/// failed counts as "not the target".
pub open spec fn shows_target(reading: Option<bool>) -> bool {
    reading == Some(true)
}

/// Whether an attempt is over in `state`.
pub open spec fn is_terminal(state: SwitchState) -> bool {
    state == SwitchState::Converged || state == SwitchState::Failed
}

/// The transition relation: the state after `event` and the action it calls
/// for. An event that the state does not await changes nothing.
pub open spec fn next_step(state: SwitchState, event: SwitchEvent) -> (SwitchState, SwitchAction) {
    match (state, event) {
        (SwitchState::Idle, SwitchEvent::Triggered) => (SwitchState::Checking, SwitchAction::Query),
        (SwitchState::Converged, SwitchEvent::Triggered) => (
            SwitchState::Checking,
            SwitchAction::Query,
        ),
        (SwitchState::Failed, SwitchEvent::Triggered) => (
            SwitchState::Checking,
            SwitchAction::Query,
        ),
        (SwitchState::Checking, SwitchEvent::Observed(reading)) => if shows_target(reading) {
            (SwitchState::Converged, SwitchAction::Nothing)
        } else {
            (SwitchState::Switching, SwitchAction::InvokeGesture)
        },
        (SwitchState::Switching, SwitchEvent::Observed(reading)) => if shows_target(reading) {
            (SwitchState::Converged, SwitchAction::Nothing)
        } else {
            (SwitchState::Switching, SwitchAction::InvokeGesture)
        },
        (SwitchState::Switching, SwitchEvent::GestureSucceeded) => (
            SwitchState::Switching,
            SwitchAction::SettleThenQuery,
        ),
        (SwitchState::Switching, SwitchEvent::GestureFailed) => (
            SwitchState::Failed,
            SwitchAction::Nothing,
        ),
        _ => (state, SwitchAction::Nothing),
    }
}

/// Advances a switch attempt by one event: returns the state that follows and
/// what the caller is to do next.
pub fn switch_to_target_input(state: SwitchState, event: SwitchEvent) -> (r: (
    SwitchState,
    SwitchAction,
))
    ensures
        r == next_step(state, event),
{
    match event {
        SwitchEvent::Triggered => match state {
            SwitchState::Checking | SwitchState::Switching => (state, SwitchAction::Nothing),
            _ => (SwitchState::Checking, SwitchAction::Query),
        },
        SwitchEvent::Observed(reading) => match state {
            SwitchState::Checking | SwitchState::Switching => match reading {
                Some(true) => (SwitchState::Converged, SwitchAction::Nothing),
                _ => (SwitchState::Switching, SwitchAction::InvokeGesture),
            },
            _ => (state, SwitchAction::Nothing),
        },
        SwitchEvent::GestureSucceeded => match state {
            SwitchState::Switching => (SwitchState::Switching, SwitchAction::SettleThenQuery),
            _ => (state, SwitchAction::Nothing),
        },
        SwitchEvent::GestureFailed => match state {
            SwitchState::Switching => (SwitchState::Failed, SwitchAction::Nothing),
            _ => (state, SwitchAction::Nothing),
        },
    }
}

/// The event that reports how a gesture went.
pub open spec fn gesture_report(made: bool) -> SwitchEvent {
    if made {
        SwitchEvent::GestureSucceeded
    } else {
        SwitchEvent::GestureFailed
    }
}

/// Turns the success of the gesture command into the event to report.
pub fn gesture_event(made: bool) -> (event: SwitchEvent)
    ensures
        event == gesture_report(made),
{
    if made {
        SwitchEvent::GestureSucceeded
    } else {
        SwitchEvent::GestureFailed
    }
}

/// Tells whether an attempt is over in `state`.
pub fn attempt_is_over(state: SwitchState) -> (r: bool)
    ensures
        r == is_terminal(state),
{
    match state {
        SwitchState::Converged | SwitchState::Failed => true,
        _ => false,
    }
}

/// What came of an attempt played against a scripted platform.
pub struct Outcome {
    /// The state in which the attempt stopped.
    pub state: SwitchState,
    /// How many readings of the input method were taken.
    pub queries: nat,
    /// How many gestures were made.
    pub gestures: nat,
}

/// Plays the controller from `state`, with `action` pending, against a
/// platform whose readings will be `readings`, in order, and whose gestures
/// will succeed as `gestures` says, in order. The play stops when the
/// controller asks for nothing more or the script has no answer left.
pub open spec fn drive(
    state: SwitchState,
    action: SwitchAction,
    readings: Seq<Option<bool>>,
    gestures: Seq<bool>,
) -> Outcome
    decreases readings.len() + gestures.len(),
{
    match action {
        SwitchAction::Nothing => Outcome { state, queries: 0, gestures: 0 },
        SwitchAction::InvokeGesture => if gestures.len() == 0 {
            Outcome { state, queries: 0, gestures: 0 }
        } else {
            let (s, a) = next_step(state, gesture_report(gestures[0]));
            preceded(drive(s, a, readings, gestures.drop_first()), 0, 1)
        },
        _ => if readings.len() == 0 {
            Outcome { state, queries: 0, gestures: 0 }
        } else {
            let (s, a) = next_step(state, SwitchEvent::Observed(readings[0]));
            preceded(drive(s, a, readings.drop_first(), gestures), 1, 0)
        },
    }
}

/// The outcome of a play that took `queries` readings and made `gestures`
/// gestures and then went on as `rest` tells.
pub open spec fn preceded(rest: Outcome, queries: nat, gestures: nat) -> Outcome {
    Outcome {
        state: rest.state,
        queries: rest.queries + queries,
        gestures: rest.gestures + gestures,
    }
}

/// One whole attempt, from the trigger on, against a scripted platform.
pub open spec fn attempt(readings: Seq<Option<bool>>, gestures: Seq<bool>) -> Outcome {
    drive(SwitchState::Checking, SwitchAction::Query, readings, gestures)
}

/// What came of an attempt that was replayed, in machine integers.
#[derive(Clone, Copy, Debug, PartialEq, Eq, Structural)]
pub struct Tally {
    /// The state in which the attempt stopped.
    pub state: SwitchState,
    /// How many readings of the input method were taken.
    pub queries: usize,
    /// How many gestures were made.
    pub gestures: usize,
}

/// Replays one whole attempt, from the trigger on, against a recorded
/// platform: `readings` holds what each reading of the input method gave, in
/// order, and `gestures` whether each gesture could be made, in order. The
/// replay stops when the controller asks for nothing more or the record has
/// no answer left for what it asks.
pub fn replay(readings: &Vec<Option<bool>>, gestures: &Vec<bool>) -> (tally: Tally)
    ensures
        tally.state == attempt(readings@, gestures@).state,
        tally.queries == attempt(readings@, gestures@).queries,
        tally.gestures == attempt(readings@, gestures@).gestures,
        tally.queries <= readings@.len(),
        tally.gestures <= gestures@.len(),
{
    let (mut state, mut action) = switch_to_target_input(SwitchState::Idle, SwitchEvent::Triggered);
    let mut asked: usize = 0;
    let mut made: usize = 0;
    let mut stopped = false;
    assert(readings@.skip(0) =~= readings@ && gestures@.skip(0) =~= gestures@);
    while !stopped
        invariant
            asked <= readings.len(),
            made <= gestures.len(),
            !stopped ==> attempt(readings@, gestures@) == preceded(
                drive(state, action, readings@.skip(asked as int), gestures@.skip(made as int)),
                asked as nat,
                made as nat,
            ),
            stopped ==> attempt(readings@, gestures@) == (Outcome {
                state,
                queries: asked as nat,
                gestures: made as nat,
            }),
        decreases (readings.len() - asked) + (gestures.len() - made) + (if stopped {
            0int
        } else {
            1int
        }),
    {
        let ghost left_readings = readings@.skip(asked as int);
        let ghost left_gestures = gestures@.skip(made as int);
        match action {
            SwitchAction::Nothing => {
                stopped = true;
            },
            SwitchAction::InvokeGesture => {
                if made == gestures.len() {
                    stopped = true;
                } else {
                    let step = switch_to_target_input(state, gesture_event(gestures[made]));
                    proof {
                        assert(left_gestures[0] == gestures@[made as int]);
                        assert(left_gestures.drop_first() =~= gestures@.skip(made + 1));
                    }
                    state = step.0;
                    action = step.1;
                    made += 1;
                }
            },
            _ => {
                if asked == readings.len() {
                    stopped = true;
                } else {
                    let step = switch_to_target_input(state, SwitchEvent::Observed(readings[asked]));
                    proof {
                        assert(left_readings[0] == readings@[asked as int]);
                        assert(left_readings.drop_first() =~= readings@.skip(asked + 1));
                    }
                    state = step.0;
                    action = step.1;
                    asked += 1;
                }
            },
        }
    }
    Tally { state, queries: asked, gestures: made }
}

/// A trigger, from rest or after an attempt that is over, starts an attempt
/// with a reading of the input method.
pub proof fn lemma_trigger_starts_attempt(state: SwitchState)
    requires
        state == SwitchState::Idle || is_terminal(state),
    ensures
        next_step(state, SwitchEvent::Triggered) == (SwitchState::Checking, SwitchAction::Query),
{
}

/// An attempt that is over asks for nothing until the next trigger.
pub proof fn lemma_terminal_is_quiet(state: SwitchState, event: SwitchEvent)
    requires
        is_terminal(state),
        event != SwitchEvent::Triggered,
    ensures
        next_step(state, event) == (state, SwitchAction::Nothing),
{
}

/// When the first reading shows the target, the attempt converges with that
/// one reading and no gesture.
pub proof fn lemma_already_target(readings: Seq<Option<bool>>, gestures: Seq<bool>)
    requires
        readings.len() > 0,
        shows_target(readings[0]),
    ensures
        attempt(readings, gestures) == (Outcome {
            state: SwitchState::Converged,
            queries: 1,
            gestures: 0,
        }),
{
    reveal_with_fuel(drive, 3);
}

/// When the first reading does not show the target and the first gesture
/// fails, the attempt fails after that one gesture, with no further reading.
pub proof fn lemma_gesture_failure_ends_attempt(readings: Seq<Option<bool>>, gestures: Seq<bool>)
    requires
        readings.len() > 0,
        !shows_target(readings[0]),
        gestures.len() > 0,
        !gestures[0],
    ensures
        attempt(readings, gestures) == (Outcome {
            state: SwitchState::Failed,
            queries: 1,
            gestures: 1,
        }),
{
    reveal_with_fuel(drive, 4);
}

/// From the switching state with a gesture pending: when the next `k`
/// gestures succeed, and the readings that follow them miss the target
/// `k - 1` times and then show it, exactly `k` gestures and `k` readings lead
/// to convergence.
pub proof fn lemma_switching_converges(readings: Seq<Option<bool>>, gestures: Seq<bool>, k: nat)
    requires
        k >= 1,
        readings.len() >= k,
        gestures.len() >= k,
        forall|i: int| 0 <= i < k ==> gestures[i],
        forall|i: int| 0 <= i < k - 1 ==> !shows_target(#[trigger] readings[i]),
        shows_target(readings[k - 1]),
    ensures
        drive(SwitchState::Switching, SwitchAction::InvokeGesture, readings, gestures) == (Outcome {
            state: SwitchState::Converged,
            queries: k,
            gestures: k,
        }),
    decreases k,
{
    reveal_with_fuel(drive, 4);
    let g = gestures.drop_first();
    let r = readings.drop_first();
    assert(gestures[0]);
    if k == 1 {
        assert(shows_target(readings[0]));
    } else {
        assert(!shows_target(readings[0]));
        assert forall|i: int| 0 <= i < k - 1 implies g[i] by {
            assert(g[i] == gestures[i + 1]);
        }
        assert forall|i: int| 0 <= i < k - 2 implies !shows_target(#[trigger] r[i]) by {
            assert(r[i] == readings[i + 1]);
        }
        assert(r[k - 2] == readings[k - 1]);
        lemma_switching_converges(r, g, (k - 1) as nat);
    }
}

/// Convergence: when the first `k` readings miss the target, the next one
/// shows it, and the first `k` gestures succeed, the attempt converges after
/// exactly `k` gestures and `k + 1` readings.
pub proof fn lemma_attempt_converges(readings: Seq<Option<bool>>, gestures: Seq<bool>, k: nat)
    requires
        readings.len() > k,
        gestures.len() >= k,
        forall|i: int| 0 <= i < k ==> gestures[i],
        forall|i: int| 0 <= i < k ==> !shows_target(#[trigger] readings[i]),
        shows_target(readings[k as int]),
    ensures
        attempt(readings, gestures) == (Outcome {
            state: SwitchState::Converged,
            queries: k + 1,
            gestures: k,
        }),
{
    reveal_with_fuel(drive, 3);
    if k > 0 {
        let r = readings.drop_first();
        assert forall|i: int| 0 <= i < k - 1 implies !shows_target(#[trigger] r[i]) by {
            assert(r[i] == readings[i + 1]);
        }
        assert(r[k - 1] == readings[k as int]);
        lemma_switching_converges(r, gestures, k);
    }
}

/// A gesture that fails ends the attempt wherever it comes: when the first
/// `k` gestures succeed and gesture `k` fails, and none of the first `k + 1`
/// readings shows the target, the attempt fails after `k + 1` gestures and
/// `k + 1` readings.
pub proof fn lemma_attempt_fails(readings: Seq<Option<bool>>, gestures: Seq<bool>, k: nat)
    requires
        readings.len() > k,
        gestures.len() > k,
        forall|i: int| 0 <= i < k ==> gestures[i],
        !gestures[k as int],
        forall|i: int| 0 <= i <= k ==> !shows_target(#[trigger] readings[i]),
    ensures
        attempt(readings, gestures) == (Outcome {
            state: SwitchState::Failed,
            queries: k + 1,
            gestures: k + 1,
        }),
{
    reveal_with_fuel(drive, 3);
    assert(!shows_target(readings[0]));
    lemma_switching_fails(readings.drop_first(), gestures, k);
}

/// From the switching state with a gesture pending: when the next `k`
/// gestures succeed and the one after fails, and none of the `k` readings
/// between them shows the target, the attempt fails after `k + 1` gestures
/// and `k` readings.
pub proof fn lemma_switching_fails(readings: Seq<Option<bool>>, gestures: Seq<bool>, k: nat)
    requires
        readings.len() >= k,
        gestures.len() > k,
        forall|i: int| 0 <= i < k ==> gestures[i],
        !gestures[k as int],
        forall|i: int| 0 <= i < k ==> !shows_target(#[trigger] readings[i]),
    ensures
        drive(SwitchState::Switching, SwitchAction::InvokeGesture, readings, gestures) == (Outcome {
            state: SwitchState::Failed,
            queries: k,
            gestures: k + 1,
        }),
    decreases k,
{
    reveal_with_fuel(drive, 4);
    if k > 0 {
        let g = gestures.drop_first();
        let r = readings.drop_first();
        assert(gestures[0]);
        assert(!shows_target(readings[0]));
        assert forall|i: int| 0 <= i < k - 1 implies g[i] by {
            assert(g[i] == gestures[i + 1]);
        }
        assert forall|i: int| 0 <= i < k - 1 implies !shows_target(#[trigger] r[i]) by {
            assert(r[i] == readings[i + 1]);
        }
        assert(g[k - 1] == gestures[k as int]);
        lemma_switching_fails(r, g, (k - 1) as nat);
    }
}

} // verus!
