//! Trigger strings and the test that the typed text has just completed one.

use crate::buffer::{after_appends, last_window, lemma_appends_keep_latest, TextBuffer};
use crate::text::chars_of;
use vstd::prelude::*;

verus! {

/// Whether `text` ends with one of `triggers`.
pub open spec fn fires(triggers: Seq<Seq<char>>, text: Seq<char>) -> bool {
    exists|i: int| 0 <= i < triggers.len() && (#[trigger] triggers[i]).is_suffix_of(text)
}

/// The strings that open a comment: `// `, `/* ` and `/** `.
pub open spec fn comment_starts() -> Seq<Seq<char>> {
    seq!["// "@, "/* "@, "/** "@]
}

/// A fixed list of trigger strings.
#[derive(Debug)]
pub struct TriggerSet {
    patterns: Vec<Vec<char>>,
}

impl View for TriggerSet {
    type V = Seq<Seq<char>>;

    closed spec fn view(&self) -> Seq<Seq<char>> {
        Seq::new(self.patterns@.len(), |i: int| self.patterns@[i]@)
    }
}

impl TriggerSet {
    /// A set with no trigger in it.
    pub fn new() -> (set: Self)
        ensures
            set@ == Seq::<Seq<char>>::empty(),
    {
        let set = TriggerSet { patterns: Vec::new() };
        assert(set@ =~= Seq::<Seq<char>>::empty());
        set
    }

    /// The set of the three comment openers.
    pub fn comment_starts() -> (set: Self)
        ensures
            set@ == comment_starts(),
    {
        let mut set = TriggerSet::new();
        set.add("// ");
        set.add("/* ");
        set.add("/** ");
        assert(set@ =~= comment_starts());
        set
    }

    /// Adds `pattern` as the last trigger.
    pub fn add(&mut self, pattern: &str)
        ensures
            final(self)@ == old(self)@.push(pattern@),
    {
        let p = chars_of(pattern);
        self.patterns.push(p);
        assert(self@ =~= old(self)@.push(pattern@));
    }

    /// How many triggers the set holds.
    pub fn len(&self) -> (n: usize)
        ensures
            n == self@.len(),
    {
        self.patterns.len()
    }

    /// Tells whether the buffer's contents end with one of the triggers.
    pub fn matches(&self, buffer: &TextBuffer) -> (r: bool)
        ensures
            r == fires(self@, buffer@),
    {
        let n = self.patterns.len();
        let mut i: usize = 0;
        while i < n
            invariant
                n == self.patterns@.len(),
                i <= n,
                forall|k: int| 0 <= k < i ==> !(#[trigger] self@[k]).is_suffix_of(buffer@),
            decreases n - i,
        {
            if buffer.ends_with_chars(&self.patterns[i]) {
                assert(self@[i as int].is_suffix_of(buffer@));
                return true;
            }
            i += 1;
        }
        false
    }
}

/// Typing a trigger fires it: whatever the buffer held, once the characters
/// of a trigger that fits into the capacity were appended one by one, the
/// buffer ends with that trigger.
pub proof fn lemma_typed_trigger_fires(
    triggers: Seq<Seq<char>>,
    i: int,
    text: Seq<char>,
    capacity: nat,
)
    requires
        0 <= i < triggers.len(),
        text.len() <= capacity,
        triggers[i].len() <= capacity,
    ensures
        triggers[i].is_suffix_of(after_appends(text, triggers[i], capacity)),
        fires(triggers, after_appends(text, triggers[i], capacity)),
{
    let typed = triggers[i];
    let whole = text + typed;
    let kept = last_window(whole, capacity);
    lemma_appends_keep_latest(text, typed, capacity);
    assert(typed =~= kept.subrange(kept.len() - typed.len(), kept.len() as int));
}

/// No text fires an empty set of triggers.
pub proof fn lemma_no_trigger_never_fires(text: Seq<char>)
    ensures
        !fires(Seq::<Seq<char>>::empty(), text),
{
}

/// A text that is shorter than every trigger fires none: with no partial
/// match, the empty buffer fires only an empty trigger.
pub proof fn lemma_short_text_does_not_fire(triggers: Seq<Seq<char>>, text: Seq<char>)
    requires
        forall|i: int| 0 <= i < triggers.len() ==> text.len() < (#[trigger] triggers[i]).len(),
    ensures
        !fires(triggers, text),
{
}

} // verus!
