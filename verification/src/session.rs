//! The event-processing state: modifier tracking, the rolling buffer, the
//! triggers and the switch controller, advanced one event at a time.

use crate::buffer::{last_window, without_last, TextBuffer};
use crate::attempt::{attempt_step, resting, SwitchAttempt};
use crate::controller::{SwitchAction, SwitchEvent, SwitchState};
use crate::keys::{ignore_input, is_ignored, is_shift, is_shift_key, key_to_char, typed_char, Key};
use crate::trigger::{fires, TriggerSet};
use vstd::prelude::*;

verus! {

/// A key going down or coming up.
#[derive(Clone, Copy, Debug, PartialEq, Eq, Structural)]
pub enum KeyEvent {
    Press(Key),
    Release(Key),
}

/// Whether shift counts as held after `event`: a press of either shift key
/// sets the flag, a release of either clears it, nothing else touches it.
pub open spec fn shift_after(shift: bool, event: KeyEvent) -> bool {
    match event {
        KeyEvent::Press(key) => if is_shift_key(key) {
            true
        } else {
            shift
        },
        KeyEvent::Release(key) => if is_shift_key(key) {
            false
        } else {
            shift
        },
    }
}

/// The buffer's text after `event`, where `shift` is the flag after the same
/// event: a key that types appends its character, backspace removes the last
/// one, every other event leaves the text as it is.
pub open spec fn text_after(text: Seq<char>, capacity: nat, event: KeyEvent, shift: bool) -> Seq<
    char,
> {
    match event {
        KeyEvent::Press(key) => match typed_char(key, shift) {
            Some(c) => last_window(text.push(c), capacity),
            None => if key == Key::Backspace {
                without_last(text)
            } else {
                text
            },
        },
        KeyEvent::Release(_) => text,
    }
}

/// Shift tracking: whatever the flag was, after a press of either shift key
/// a key types its shifted character, and after a release of either it types
/// its plain one; this holds though the other shift key may still be held.
pub proof fn lemma_shift_decides_case(shift: bool, shift_key: Key, key: Key)
    requires
        is_shift_key(shift_key),
    ensures
        typed_char(key, shift_after(shift, KeyEvent::Press(shift_key))) == typed_char(key, true),
        typed_char(key, shift_after(shift, KeyEvent::Release(shift_key))) == typed_char(
            key,
            false,
        ),
        !is_shift_key(key) ==> shift_after(shift, KeyEvent::Press(key)) == shift && shift_after(
            shift,
            KeyEvent::Release(key),
        ) == shift,
{
}

/// The shift flag.
#[derive(Clone, Copy, Debug, PartialEq, Eq, Structural)]
pub struct ModifierState {
    pub shift: bool,
}

impl ModifierState {
    /// No modifier held.
    pub fn new() -> (m: Self)
        ensures
            !m.shift,
    {
        ModifierState { shift: false }
    }

    /// Takes note of `event`.
    pub fn update(&mut self, event: KeyEvent)
        ensures
            final(self).shift == shift_after(old(self).shift, event),
    {
        match event {
            KeyEvent::Press(key) => {
                if is_shift(key) {
                    self.shift = true;
                }
            },
            KeyEvent::Release(key) => {
                if is_shift(key) {
                    self.shift = false;
                }
            },
        }
    }
}

/// The key that an event is about.
pub open spec fn key_of(event: KeyEvent) -> Key {
    match event {
        KeyEvent::Press(key) => key,
        KeyEvent::Release(key) => key,
    }
}

/// Whether `event` can complete a trigger: only a press can, and not one of
/// a key that is skipped altogether.
pub open spec fn may_fire(event: KeyEvent) -> bool {
    event is Press && !is_ignored(key_of(event))
}

/// All the state that lives between two keyboard events.
#[derive(Debug)]
pub struct Session {
    modifiers: ModifierState,
    buffer: TextBuffer,
    triggers: TriggerSet,
    attempt: SwitchAttempt,
}

impl Session {
    /// The session's invariant: its buffer is within its capacity, and its
    /// switch attempt is within its limit.
    pub closed spec fn wf(&self) -> bool {
        self.buffer.wf() && self.attempt.wf()
    }

    /// What the invariant says of the parts that contracts speak of.
    pub proof fn lemma_wf(&self)
        requires
            self.wf(),
        ensures
            self.text().len() <= self.limit(),
            self.attempt().wf(),
    {
        self.buffer.lemma_wf();
    }

    /// Whether shift counts as held.
    pub closed spec fn shift(&self) -> bool {
        self.modifiers.shift
    }

    /// The text in the buffer.
    pub closed spec fn text(&self) -> Seq<char> {
        self.buffer@
    }

    /// The buffer's capacity.
    pub closed spec fn limit(&self) -> nat {
        self.buffer.limit()
    }

    /// The trigger strings.
    pub closed spec fn triggers(&self) -> Seq<Seq<char>> {
        self.triggers@
    }

    /// The switch attempt under way, or the last one.
    pub closed spec fn attempt(&self) -> SwitchAttempt {
        self.attempt
    }

    /// Where the switch controller stands.
    pub open spec fn state(&self) -> SwitchState {
        self.attempt().state
    }

    /// A fresh session: no shift, an empty buffer of the given capacity, the
    /// controller at rest, and no limit on the gestures of an attempt.
    pub fn new(capacity: usize, triggers: TriggerSet) -> (s: Self)
        ensures
            s.wf(),
            !s.shift(),
            s.text() == Seq::<char>::empty(),
            s.limit() == capacity,
            s.triggers() == triggers@,
            s.attempt() == resting(None),
    {
        Session {
            modifiers: ModifierState::new(),
            buffer: TextBuffer::new(capacity),
            triggers,
            attempt: SwitchAttempt::new(None),
        }
    }

    /// A fresh session whose attempts make at most `max_gestures` gestures
    /// each before they are aborted.
    pub fn with_limit(capacity: usize, triggers: TriggerSet, max_gestures: u64) -> (s: Self)
        ensures
            s.wf(),
            !s.shift(),
            s.text() == Seq::<char>::empty(),
            s.limit() == capacity,
            s.triggers() == triggers@,
            s.attempt() == resting(Some(max_gestures)),
    {
        Session {
            modifiers: ModifierState::new(),
            buffer: TextBuffer::new(capacity),
            triggers,
            attempt: SwitchAttempt::new(Some(max_gestures)),
        }
    }

    /// Takes one keyboard event: tracks shift, rebuilds the typed text, and
    /// on a key press that leaves the text ending in a trigger reports the
    /// trigger to the switch controller. Returns what the controller asks
    /// for. Events of the keys that are skipped altogether change nothing.
    pub fn on_key(&mut self, event: KeyEvent) -> (action: SwitchAction)
        requires
            old(self).wf(),
        ensures
            final(self).wf(),
            final(self).limit() == old(self).limit(),
            final(self).triggers() == old(self).triggers(),
            final(self).shift() == shift_after(old(self).shift(), event),
            final(self).text() == text_after(
                old(self).text(),
                old(self).limit(),
                event,
                final(self).shift(),
            ),
            final(self).text().len() <= final(self).limit(),
            (final(self).attempt(), action) == if may_fire(event) && fires(
                final(self).triggers(),
                final(self).text(),
            ) {
                attempt_step(old(self).attempt(), SwitchEvent::Triggered)
            } else {
                (old(self).attempt(), SwitchAction::Nothing)
            },
    {
        proof {
            self.buffer.lemma_wf();
        }
        self.modifiers.update(event);
        match event {
            KeyEvent::Press(key) => {
                if ignore_input(key) {
                    return SwitchAction::Nothing;
                }
                match key_to_char(key, self.modifiers.shift) {
                    Some(c) => {
                        self.buffer.append(c);
                    },
                    None => {
                        if key == Key::Backspace {
                            self.buffer.delete_last();
                        }
                    },
                }
                if self.triggers.matches(&self.buffer) {
                    self.attempt.step(SwitchEvent::Triggered)
                } else {
                    SwitchAction::Nothing
                }
            },
            KeyEvent::Release(_) => SwitchAction::Nothing,
        }
    }

    /// Takes what the platform answered during a switch attempt and returns
    /// what the controller asks for next. The step that reaches convergence
    /// empties the buffer, so that the trigger just typed cannot fire again.
    pub fn on_switch(&mut self, event: SwitchEvent) -> (action: SwitchAction)
        requires
            old(self).wf(),
        ensures
            final(self).wf(),
            final(self).limit() == old(self).limit(),
            final(self).triggers() == old(self).triggers(),
            final(self).shift() == old(self).shift(),
            (final(self).attempt(), action) == attempt_step(old(self).attempt(), event),
            final(self).text() == if final(self).state() == SwitchState::Converged && old(
                self,
            ).state() != SwitchState::Converged {
                Seq::<char>::empty()
            } else {
                old(self).text()
            },
    {
        let before = self.attempt.state;
        let action = self.attempt.step(event);
        if self.attempt.state == SwitchState::Converged && before != SwitchState::Converged {
            self.buffer.clear();
        }
        action
    }

    /// Gives up the attempt under way, if there is one, and returns the
    /// controller to rest; the typed text and the shift flag stay.
    pub fn dismiss(&mut self)
        requires
            old(self).wf(),
        ensures
            final(self).wf(),
            final(self).limit() == old(self).limit(),
            final(self).triggers() == old(self).triggers(),
            final(self).shift() == old(self).shift(),
            final(self).text() == old(self).text(),
            final(self).attempt() == resting(old(self).attempt().limit),
    {
        self.attempt = SwitchAttempt::new(self.attempt.limit);
    }

    /// Whether shift counts as held.
    pub fn shift_held(&self) -> (r: bool)
        ensures
            r == self.shift(),
    {
        self.modifiers.shift
    }

    /// The text in the buffer, oldest character first.
    pub fn typed(&self) -> (chars: Vec<char>)
        ensures
            chars@ == self.text(),
    {
        self.buffer.contents()
    }

    /// Where the switch controller stands.
    pub fn switch_state(&self) -> (r: SwitchState)
        ensures
            r == self.state(),
    {
        self.attempt.state
    }

    /// The switch attempt under way, or the last one.
    pub fn switch_attempt(&self) -> (r: SwitchAttempt)
        ensures
            r == self.attempt(),
    {
        self.attempt
    }
}

} // verus!
