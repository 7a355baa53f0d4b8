//! The rolling text buffer: the most recent characters typed, up to a fixed
//! capacity.

use crate::text::{chars_of, ends_with_chars};
use vstd::prelude::*;

verus! {

/// The capacity that the keyboard watcher gives its buffer.
pub const BUFFER_SIZE: usize = 10;

/// The last `capacity` characters of `text`, or all of it where it is no
/// longer than that.
pub open spec fn last_window(text: Seq<char>, capacity: nat) -> Seq<char> {
    if text.len() <= capacity {
        text
    } else {
        text.subrange(text.len() - capacity, text.len() as int)
    }
}

/// `text` without its last character; the empty text stays empty.
pub open spec fn without_last(text: Seq<char>) -> Seq<char> {
    if text.len() == 0 {
        text
    } else {
        text.drop_last()
    }
}

/// What a buffer of the given capacity holds after the characters of `typed`
/// were appended to `text` one by one.
pub open spec fn after_appends(text: Seq<char>, typed: Seq<char>, capacity: nat) -> Seq<char>
    decreases typed.len(),
{
    if typed.len() == 0 {
        text
    } else {
        after_appends(last_window(text.push(typed[0]), capacity), typed.drop_first(), capacity)
    }
}

/// A bounded buffer of characters that forgets the oldest first.
#[derive(Debug)]
pub struct TextBuffer {
    chars: Vec<char>,
    capacity: usize,
}

impl View for TextBuffer {
    type V = Seq<char>;

    closed spec fn view(&self) -> Seq<char> {
        self.chars@
    }
}

impl TextBuffer {
    /// The most characters the buffer keeps.
    pub closed spec fn limit(&self) -> nat {
        self.capacity as nat
    }

    /// The buffer's invariant: it never holds more than its capacity.
    pub closed spec fn wf(&self) -> bool {
        self.chars@.len() <= self.capacity
    }

    /// What the invariant says: the text is within the capacity.
    pub proof fn lemma_wf(&self)
        requires
            self.wf(),
        ensures
            self@.len() <= self.limit(),
    {
    }

    /// An empty buffer that keeps at most `capacity` characters.
    pub fn new(capacity: usize) -> (buffer: Self)
        ensures
            buffer.wf(),
            buffer@ == Seq::<char>::empty(),
            buffer.limit() == capacity,
    {
        TextBuffer { chars: Vec::new(), capacity }
    }

    /// The most characters the buffer keeps.
    pub fn capacity(&self) -> (n: usize)
        ensures
            n == self.limit(),
    {
        self.capacity
    }

    /// How many characters the buffer holds.
    pub fn len(&self) -> (n: usize)
        requires
            self.wf(),
        ensures
            n == self@.len(),
            n <= self.limit(),
    {
        self.chars.len()
    }

    /// Whether the buffer holds nothing.
    pub fn is_empty(&self) -> (r: bool)
        ensures
            r == (self@.len() == 0),
    {
        self.chars.len() == 0
    }

    /// Adds `c` at the end, then drops characters from the front until the
    /// buffer is within its capacity again.
    pub fn append(&mut self, c: char)
        requires
            old(self).wf(),
        ensures
            final(self).wf(),
            final(self).limit() == old(self).limit(),
            final(self)@ == last_window(old(self)@.push(c), old(self).limit()),
            final(self)@.len() <= final(self).limit(),
    {
        self.chars.push(c);
        let ghost pushed = self.chars@;
        while self.chars.len() > self.capacity
            invariant
                self.capacity == old(self).capacity,
                pushed == old(self).chars@.push(c),
                self.chars@.len() <= pushed.len(),
                self.chars@.len() >= self.capacity || self.chars@.len() == pushed.len(),
                self.chars@ == pushed.subrange(pushed.len() - self.chars@.len(), pushed.len() as int),
            decreases self.chars@.len(),
        {
            self.chars.remove(0);
            assert(self.chars@ =~= pushed.subrange(
                pushed.len() - self.chars@.len(),
                pushed.len() as int,
            ));
        }
        assert(self.chars@ =~= last_window(pushed, self.capacity as nat));
    }

    /// Removes the last character; an empty buffer stays as it is.
    pub fn delete_last(&mut self)
        requires
            old(self).wf(),
        ensures
            final(self).wf(),
            final(self).limit() == old(self).limit(),
            final(self)@ == without_last(old(self)@),
            old(self)@.len() == 0 ==> final(self)@ == old(self)@,
    {
        let _ = self.chars.pop();
    }

    /// Empties the buffer.
    pub fn clear(&mut self)
        ensures
            final(self).wf(),
            final(self).limit() == old(self).limit(),
            final(self)@ == Seq::<char>::empty(),
    {
        self.chars.clear();
    }

    /// Tells whether the buffer's contents end with the characters `pattern`.
    pub fn ends_with_chars(&self, pattern: &Vec<char>) -> (r: bool)
        ensures
            r == pattern@.is_suffix_of(self@),
    {
        ends_with_chars(&self.chars, pattern)
    }

    /// Tells whether the buffer's contents end with the string `pattern`.
    pub fn ends_with(&self, pattern: &str) -> (r: bool)
        ensures
            r == pattern@.is_suffix_of(self@),
    {
        let p = chars_of(pattern);
        ends_with_chars(&self.chars, &p)
    }

    /// The buffer's contents, oldest character first.
    pub fn contents(&self) -> (chars: Vec<char>)
        ensures
            chars@ == self@,
    {
        self.chars.clone()
    }
}

/// Keeping the last window of a text before more is added to it loses
/// nothing that the last window of the whole would keep.
pub proof fn lemma_window_of_window(text: Seq<char>, more: Seq<char>, capacity: nat)
    ensures
        last_window(last_window(text, capacity) + more, capacity) == last_window(
            text + more,
            capacity,
        ),
{
    assert(last_window(last_window(text, capacity) + more, capacity) =~= last_window(
        text + more,
        capacity,
    ));
}

/// The capacity invariant over any run of appends: the buffer then holds the
/// last `capacity` characters of what it held followed by what was typed, so
/// it is within its capacity and what it lost was the oldest.
pub proof fn lemma_appends_keep_latest(text: Seq<char>, typed: Seq<char>, capacity: nat)
    requires
        text.len() <= capacity,
    ensures
        after_appends(text, typed, capacity) == last_window(text + typed, capacity),
        after_appends(text, typed, capacity).len() <= capacity,
        after_appends(text, typed, capacity).is_suffix_of(text + typed),
    decreases typed.len(),
{
    if typed.len() == 0 {
        assert(text + typed =~= text);
    } else {
        let first = text.push(typed[0]);
        let rest = typed.drop_first();
        lemma_appends_keep_latest(last_window(first, capacity), rest, capacity);
        lemma_window_of_window(first, rest, capacity);
        assert(first + rest =~= text + typed);
    }
    let kept = last_window(text + typed, capacity);
    assert(kept =~= (text + typed).subrange((text + typed).len() - kept.len(), (text + typed).len() as int));
}

} // verus!
