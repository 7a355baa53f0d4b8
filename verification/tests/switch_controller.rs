use ime_switcher::controller::{
    attempt_is_over, gesture_event, switch_to_target_input, SwitchAction, SwitchEvent, SwitchState,
    SETTLE_DELAY_MS,
};

struct Tally {
    state: SwitchState,
    queries: usize,
    gestures: usize,
    settles: usize,
}

/// Runs one attempt against a scripted platform: `readings` are the answers
/// of the queries in order, `gestures` says whether each gesture succeeds.
fn run_attempt(readings: &[Option<bool>], gestures: &[bool]) -> Tally {
    let mut tally = Tally { state: SwitchState::Idle, queries: 0, gestures: 0, settles: 0 };
    let (mut state, mut action) = switch_to_target_input(SwitchState::Idle, SwitchEvent::Triggered);
    loop {
        let event = match action {
            SwitchAction::Nothing => break,
            SwitchAction::Query | SwitchAction::SettleThenQuery => {
                if tally.queries == readings.len() {
                    break;
                }
                if action == SwitchAction::SettleThenQuery {
                    tally.settles += 1;
                }
                tally.queries += 1;
                SwitchEvent::Observed(readings[tally.queries - 1])
            }
            SwitchAction::InvokeGesture => {
                if tally.gestures == gestures.len() {
                    break;
                }
                tally.gestures += 1;
                gesture_event(gestures[tally.gestures - 1])
            }
        };
        let next = switch_to_target_input(state, event);
        state = next.0;
        action = next.1;
    }
    tally.state = state;
    tally
}

#[test]
fn converges_after_two_gestures() {
    let tally = run_attempt(&[Some(false), Some(false), Some(true)], &[true, true, true, true]);
    assert_eq!(tally.state, SwitchState::Converged);
    assert_eq!(tally.gestures, 2);
    assert_eq!(tally.queries, 3);
    assert_eq!(tally.settles, 2);
}

#[test]
fn converges_at_once_when_already_target() {
    let tally = run_attempt(&[Some(true)], &[true, true]);
    assert_eq!(tally.state, SwitchState::Converged);
    assert_eq!(tally.gestures, 0);
    assert_eq!(tally.queries, 1);
    assert_eq!(tally.settles, 0);
}

#[test]
fn gesture_failure_ends_the_attempt() {
    let tally = run_attempt(&[Some(false), Some(true), Some(true)], &[false, true]);
    assert_eq!(tally.state, SwitchState::Failed);
    assert_eq!(tally.gestures, 1);
    assert_eq!(tally.queries, 1);
}

#[test]
fn later_gesture_failure_ends_the_attempt() {
    let tally = run_attempt(&[Some(false), Some(false), Some(false), Some(true)], &[true, true, false, true]);
    assert_eq!(tally.state, SwitchState::Failed);
    assert_eq!(tally.gestures, 3);
    assert_eq!(tally.queries, 3);
}

#[test]
fn failed_query_counts_as_not_target() {
    let tally = run_attempt(&[None, None, Some(true)], &[true, true, true]);
    assert_eq!(tally.state, SwitchState::Converged);
    assert_eq!(tally.gestures, 2);
    assert_eq!(tally.queries, 3);
}

#[test]
fn attempt_keeps_switching_while_target_is_not_seen() {
    let tally = run_attempt(&[Some(false); 20], &[true; 50]);
    assert_eq!(tally.state, SwitchState::Switching);
    assert_eq!(tally.queries, 20);
    assert_eq!(tally.gestures, 20);
}

#[test]
fn trigger_starts_with_a_query() {
    for state in [SwitchState::Idle, SwitchState::Converged, SwitchState::Failed] {
        assert_eq!(
            switch_to_target_input(state, SwitchEvent::Triggered),
            (SwitchState::Checking, SwitchAction::Query)
        );
    }
}

#[test]
fn trigger_during_an_attempt_changes_nothing() {
    for state in [SwitchState::Checking, SwitchState::Switching] {
        assert_eq!(switch_to_target_input(state, SwitchEvent::Triggered), (state, SwitchAction::Nothing));
    }
}

#[test]
fn checking_decides_on_the_first_reading() {
    assert_eq!(
        switch_to_target_input(SwitchState::Checking, SwitchEvent::Observed(Some(true))),
        (SwitchState::Converged, SwitchAction::Nothing)
    );
    assert_eq!(
        switch_to_target_input(SwitchState::Checking, SwitchEvent::Observed(Some(false))),
        (SwitchState::Switching, SwitchAction::InvokeGesture)
    );
    assert_eq!(
        switch_to_target_input(SwitchState::Checking, SwitchEvent::Observed(None)),
        (SwitchState::Switching, SwitchAction::InvokeGesture)
    );
}

#[test]
fn switching_settles_then_reads_again() {
    assert_eq!(
        switch_to_target_input(SwitchState::Switching, SwitchEvent::GestureSucceeded),
        (SwitchState::Switching, SwitchAction::SettleThenQuery)
    );
    assert_eq!(
        switch_to_target_input(SwitchState::Switching, SwitchEvent::GestureFailed),
        (SwitchState::Failed, SwitchAction::Nothing)
    );
    assert_eq!(
        switch_to_target_input(SwitchState::Switching, SwitchEvent::Observed(Some(true))),
        (SwitchState::Converged, SwitchAction::Nothing)
    );
    assert_eq!(
        switch_to_target_input(SwitchState::Switching, SwitchEvent::Observed(Some(false))),
        (SwitchState::Switching, SwitchAction::InvokeGesture)
    );
}

#[test]
fn events_out_of_turn_change_nothing() {
    let stray = [
        (SwitchState::Idle, SwitchEvent::Observed(Some(true))),
        (SwitchState::Idle, SwitchEvent::Observed(Some(false))),
        (SwitchState::Idle, SwitchEvent::GestureSucceeded),
        (SwitchState::Idle, SwitchEvent::GestureFailed),
        (SwitchState::Checking, SwitchEvent::GestureSucceeded),
        (SwitchState::Checking, SwitchEvent::GestureFailed),
        (SwitchState::Converged, SwitchEvent::Observed(Some(false))),
        (SwitchState::Converged, SwitchEvent::GestureFailed),
        (SwitchState::Failed, SwitchEvent::Observed(Some(true))),
        (SwitchState::Failed, SwitchEvent::GestureSucceeded),
    ];
    for (state, event) in stray {
        assert_eq!(switch_to_target_input(state, event), (state, SwitchAction::Nothing));
    }
}

#[test]
fn only_converged_and_failed_are_over() {
    assert!(attempt_is_over(SwitchState::Converged));
    assert!(attempt_is_over(SwitchState::Failed));
    assert!(!attempt_is_over(SwitchState::Idle));
    assert!(!attempt_is_over(SwitchState::Checking));
    assert!(!attempt_is_over(SwitchState::Switching));
}

#[test]
fn gesture_event_reports_success_and_failure() {
    assert_eq!(gesture_event(true), SwitchEvent::GestureSucceeded);
    assert_eq!(gesture_event(false), SwitchEvent::GestureFailed);
}

#[test]
fn settle_delay_is_fifty_milliseconds() {
    assert_eq!(SETTLE_DELAY_MS, 50);
}
