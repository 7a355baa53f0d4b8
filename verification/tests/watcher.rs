use ime_switcher::controller::{SwitchAction, SwitchEvent, SwitchState};
use ime_switcher::keys::Key;
use ime_switcher::probe::{
    get_input_method, is_target_input_method, same_input_method, supports_switching, TARGET_IM,
};
use ime_switcher::session::{KeyEvent, ModifierState, Session};
use ime_switcher::trigger::TriggerSet;

fn text_of(session: &Session) -> String {
    session.typed().into_iter().collect()
}

fn press_all(session: &mut Session, keys: &[Key]) -> SwitchAction {
    let mut last = SwitchAction::Nothing;
    for key in keys {
        last = session.on_key(KeyEvent::Press(*key));
    }
    last
}

#[test]
fn shift_press_and_release_change_the_case() {
    let mut session = Session::new(10, TriggerSet::comment_starts());
    session.on_key(KeyEvent::Press(Key::ShiftLeft));
    assert!(session.shift_held());
    session.on_key(KeyEvent::Press(Key::KeyA));
    assert_eq!(text_of(&session), "A");
    session.on_key(KeyEvent::Release(Key::ShiftLeft));
    assert!(!session.shift_held());
    session.on_key(KeyEvent::Press(Key::KeyA));
    assert_eq!(text_of(&session), "Aa");
}

#[test]
fn right_shift_works_like_left_shift() {
    let mut session = Session::new(10, TriggerSet::comment_starts());
    session.on_key(KeyEvent::Press(Key::ShiftRight));
    session.on_key(KeyEvent::Press(Key::Num8));
    session.on_key(KeyEvent::Release(Key::ShiftRight));
    session.on_key(KeyEvent::Press(Key::Num8));
    assert_eq!(text_of(&session), "*8");
}

#[test]
fn releasing_one_shift_clears_the_flag_though_the_other_is_held() {
    let mut modifiers = ModifierState::new();
    assert!(!modifiers.shift);
    modifiers.update(KeyEvent::Press(Key::ShiftLeft));
    modifiers.update(KeyEvent::Press(Key::ShiftRight));
    assert!(modifiers.shift);
    modifiers.update(KeyEvent::Release(Key::ShiftLeft));
    assert!(!modifiers.shift);
}

#[test]
fn other_keys_leave_the_shift_flag_alone() {
    let mut modifiers = ModifierState::new();
    modifiers.update(KeyEvent::Press(Key::KeyA));
    modifiers.update(KeyEvent::Release(Key::ControlLeft));
    assert!(!modifiers.shift);
    modifiers.update(KeyEvent::Press(Key::ShiftLeft));
    modifiers.update(KeyEvent::Press(Key::KeyA));
    modifiers.update(KeyEvent::Release(Key::KeyA));
    modifiers.update(KeyEvent::Release(Key::Alt));
    assert!(modifiers.shift);
}

#[test]
fn typing_a_comment_opener_asks_for_a_query() {
    let mut session = Session::new(10, TriggerSet::comment_starts());
    assert_eq!(session.on_key(KeyEvent::Press(Key::KeyX)), SwitchAction::Nothing);
    assert_eq!(session.on_key(KeyEvent::Press(Key::Slash)), SwitchAction::Nothing);
    assert_eq!(session.on_key(KeyEvent::Press(Key::Slash)), SwitchAction::Nothing);
    assert_eq!(session.switch_state(), SwitchState::Idle);
    assert_eq!(session.on_key(KeyEvent::Press(Key::Space)), SwitchAction::Query);
    assert_eq!(text_of(&session), "x// ");
    assert_eq!(session.switch_state(), SwitchState::Checking);
}

#[test]
fn typing_something_else_asks_for_nothing() {
    let mut session = Session::new(10, TriggerSet::comment_starts());
    let action = press_all(&mut session, &[Key::KeyX, Key::Slash, Key::KeyA, Key::Space]);
    assert_eq!(action, SwitchAction::Nothing);
    assert_eq!(text_of(&session), "x/a ");
    assert_eq!(session.switch_state(), SwitchState::Idle);
}

#[test]
fn block_comment_opener_needs_shift_for_the_star() {
    let mut session = Session::new(10, TriggerSet::comment_starts());
    press_all(&mut session, &[Key::Slash, Key::ShiftLeft, Key::Num8]);
    session.on_key(KeyEvent::Release(Key::ShiftLeft));
    assert_eq!(session.on_key(KeyEvent::Press(Key::Space)), SwitchAction::Query);
    assert_eq!(text_of(&session), "/* ");
}

#[test]
fn backspace_edits_the_typed_text() {
    let mut session = Session::new(10, TriggerSet::comment_starts());
    session.on_key(KeyEvent::Press(Key::Backspace));
    assert_eq!(text_of(&session), "");
    press_all(&mut session, &[Key::Slash, Key::KeyA, Key::Backspace, Key::Slash]);
    assert_eq!(text_of(&session), "//");
    assert_eq!(session.on_key(KeyEvent::Press(Key::Space)), SwitchAction::Query);
}

#[test]
fn unmapped_keys_and_releases_leave_the_text() {
    let mut session = Session::new(10, TriggerSet::comment_starts());
    press_all(&mut session, &[Key::KeyA, Key::F5, Key::LeftArrow, Key::Unknown(7), Key::Function]);
    session.on_key(KeyEvent::Release(Key::KeyA));
    session.on_key(KeyEvent::Release(Key::Backspace));
    assert_eq!(text_of(&session), "a");
}

#[test]
fn session_buffer_keeps_the_last_ten() {
    let mut session = Session::new(10, TriggerSet::comment_starts());
    for _ in 0..3 {
        press_all(&mut session, &[Key::KeyA, Key::KeyB, Key::KeyC, Key::KeyD, Key::KeyE]);
    }
    assert_eq!(text_of(&session), "abcdeabcde");
    session.on_key(KeyEvent::Press(Key::KeyZ));
    assert_eq!(text_of(&session), "bcdeabcdez");
}

#[test]
fn release_never_fires_a_trigger() {
    let mut session = Session::new(10, TriggerSet::comment_starts());
    press_all(&mut session, &[Key::Slash, Key::Slash, Key::Space]);
    session.on_switch(SwitchEvent::Observed(Some(false)));
    session.on_switch(SwitchEvent::GestureFailed);
    assert_eq!(session.switch_state(), SwitchState::Failed);
    assert_eq!(text_of(&session), "// ");
    assert_eq!(session.on_key(KeyEvent::Release(Key::Space)), SwitchAction::Nothing);
    assert_eq!(session.switch_state(), SwitchState::Failed);
}

#[test]
fn convergence_clears_the_buffer() {
    let mut session = Session::new(10, TriggerSet::comment_starts());
    assert_eq!(press_all(&mut session, &[Key::Slash, Key::Slash, Key::Space]), SwitchAction::Query);
    assert_eq!(session.on_switch(SwitchEvent::Observed(Some(false))), SwitchAction::InvokeGesture);
    assert_eq!(text_of(&session), "// ");
    assert_eq!(session.on_switch(SwitchEvent::GestureSucceeded), SwitchAction::SettleThenQuery);
    assert_eq!(session.on_switch(SwitchEvent::Observed(Some(true))), SwitchAction::Nothing);
    assert_eq!(session.switch_state(), SwitchState::Converged);
    assert_eq!(text_of(&session), "");
    assert_eq!(session.on_key(KeyEvent::Press(Key::ShiftLeft)), SwitchAction::Nothing);
    assert_eq!(session.on_key(KeyEvent::Press(Key::KeyA)), SwitchAction::Nothing);
    assert_eq!(text_of(&session), "A");
}

#[test]
fn failure_keeps_the_buffer_and_the_next_press_tries_again() {
    let mut session = Session::new(10, TriggerSet::comment_starts());
    press_all(&mut session, &[Key::Slash, Key::Slash, Key::Space]);
    assert_eq!(session.on_switch(SwitchEvent::Observed(None)), SwitchAction::InvokeGesture);
    assert_eq!(session.on_switch(SwitchEvent::GestureFailed), SwitchAction::Nothing);
    assert_eq!(session.switch_state(), SwitchState::Failed);
    assert_eq!(text_of(&session), "// ");
    assert_eq!(session.on_key(KeyEvent::Press(Key::F1)), SwitchAction::Query);
    assert_eq!(session.switch_state(), SwitchState::Checking);
}

#[test]
fn already_target_converges_without_a_gesture() {
    let mut session = Session::new(10, TriggerSet::comment_starts());
    press_all(&mut session, &[Key::Slash, Key::Slash, Key::Space]);
    assert_eq!(session.on_switch(SwitchEvent::Observed(Some(true))), SwitchAction::Nothing);
    assert_eq!(session.switch_state(), SwitchState::Converged);
    assert_eq!(text_of(&session), "");
}

#[test]
fn report_that_names_the_target() {
    let report = "(\n  {\n    \"Bundle ID\" = \"com.apple.inputmethod.SCIM\";\n    \"Input Mode\" = \"com.apple.inputmethod.SCIM.ITABC\";\n  }\n)";
    assert_eq!(is_target_input_method(true, report, TARGET_IM), Some(true));
    assert_eq!(get_input_method(true, report, TARGET_IM), TARGET_IM);
}

#[test]
fn report_that_names_another_input_method() {
    let report = "(\n  {\n    \"KeyboardLayout Name\" = ABC;\n  }\n)";
    assert_eq!(is_target_input_method(true, report, TARGET_IM), Some(false));
    assert_eq!(get_input_method(true, report, TARGET_IM), "");
    assert_eq!(is_target_input_method(true, "", TARGET_IM), Some(false));
    assert_eq!(is_target_input_method(true, "com.apple.inputmethod.SCIM.ITAB", TARGET_IM), Some(false));
}

#[test]
fn missing_report_is_unknown() {
    assert_eq!(is_target_input_method(false, TARGET_IM, TARGET_IM), None);
    assert_eq!(is_target_input_method(false, "", TARGET_IM), None);
    assert_eq!(get_input_method(false, TARGET_IM, TARGET_IM), "");
}

#[test]
fn target_identifier_is_the_pinyin_input_method() {
    assert_eq!(TARGET_IM, "com.apple.inputmethod.SCIM.ITABC");
}

#[test]
fn identifiers_compare_by_exact_equality() {
    let target = TARGET_IM.to_string();
    assert!(same_input_method(&target, &TARGET_IM.to_string()));
    assert!(!same_input_method(&target, &String::new()));
    assert!(!same_input_method(&target, &"com.apple.inputmethod.SCIM.itabc".to_string()));
    assert!(!same_input_method(&target, &format!("{} ", TARGET_IM)));
    assert!(same_input_method(&get_input_method(true, TARGET_IM, TARGET_IM), &target));
}

#[test]
fn switching_is_implemented_on_macos_only() {
    assert!(supports_switching("macos"));
    assert!(!supports_switching("linux"));
    assert!(!supports_switching("windows"));
    assert!(!supports_switching("macos "));
    assert!(!supports_switching("maco"));
    assert!(!supports_switching(""));
}

#[test]
fn ignored_keys_fire_no_trigger() {
    let mut session = Session::new(10, TriggerSet::comment_starts());
    press_all(&mut session, &[Key::Slash, Key::Slash, Key::Space]);
    session.on_switch(SwitchEvent::Observed(Some(false)));
    session.on_switch(SwitchEvent::GestureFailed);
    assert_eq!(session.on_key(KeyEvent::Press(Key::Function)), SwitchAction::Nothing);
    assert_eq!(session.on_key(KeyEvent::Press(Key::Unknown(179))), SwitchAction::Nothing);
    assert_eq!(session.switch_state(), SwitchState::Failed);
    assert_eq!(text_of(&session), "// ");
    assert_eq!(session.on_key(KeyEvent::Press(Key::Unknown(178))), SwitchAction::Query);
}

#[test]
fn dismiss_returns_the_controller_to_rest() {
    let mut session = Session::with_limit(10, TriggerSet::comment_starts(), 7);
    press_all(&mut session, &[Key::ShiftLeft, Key::Slash, Key::Slash, Key::Space]);
    assert_eq!(text_of(&session), "?? ");
    session.on_key(KeyEvent::Release(Key::ShiftLeft));
    press_all(&mut session, &[Key::Slash, Key::Slash]);
    assert_eq!(session.on_key(KeyEvent::Press(Key::Space)), SwitchAction::Query);
    assert_eq!(session.switch_state(), SwitchState::Checking);
    session.dismiss();
    assert_eq!(session.switch_state(), SwitchState::Idle);
    assert_eq!(session.switch_attempt().limit, Some(7));
    assert_eq!(text_of(&session), "?? // ");
    assert_eq!(session.on_key(KeyEvent::Press(Key::Alt)), SwitchAction::Query);
}
