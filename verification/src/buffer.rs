//! The password buffer: an ordered, append/remove-only sequence of Unicode
//! scalar values. It only grows through `push`, shrinks one character at a
//! time through `pop_last`, and resets through `clear`; it never underflows
//! and never panics.

use vstd::prelude::*;

verus! {

/// The model of one `push`: the text appended to the contents, in order.
pub open spec fn spec_push(b: Seq<char>, text: Seq<char>) -> Seq<char> {
    b + text
}

/// The model of `pop_last`: the last character removed if one is present,
/// the empty contents left as they are.
pub open spec fn spec_pop_last(b: Seq<char>) -> Seq<char> {
    if b.len() == 0 {
        b
    } else {
        b.drop_last()
    }
}

/// The model of `clear`: empty, whatever the contents held.
pub open spec fn spec_clear(b: Seq<char>) -> Seq<char> {
    Seq::<char>::empty()
}

/// A whole sequence of pushes, applied in order.
pub open spec fn spec_push_all(b: Seq<char>, texts: Seq<Seq<char>>) -> Seq<char>
    decreases texts.len(),
{
    if texts.len() == 0 {
        b
    } else {
        spec_push_all(spec_push(b, texts[0]), texts.drop_first())
    }
}

/// The combined length of a sequence of texts.
pub open spec fn total_len(texts: Seq<Seq<char>>) -> nat
    decreases texts.len(),
{
    if texts.len() == 0 {
        0
    } else {
        texts[0].len() + total_len(texts.drop_first())
    }
}

/// Buffer growth under `push` is exact: after any sequence of pushes the
/// length is the length before plus the combined length of the texts
/// pushed.
pub proof fn lemma_push_monotone(b: Seq<char>, texts: Seq<Seq<char>>)
    ensures
        spec_push_all(b, texts).len() == b.len() + total_len(texts),
    decreases texts.len(),
{
    if texts.len() > 0 {
        lemma_push_monotone(spec_push(b, texts[0]), texts.drop_first());
    }
}

/// A push of empty text is a no-op.
pub proof fn lemma_push_empty_noop(b: Seq<char>)
    ensures
        spec_push(b, Seq::<char>::empty()) == b,
{
    assert(spec_push(b, Seq::<char>::empty()) =~= b);
}

/// Clearing twice yields the same empty state as a single clear.
pub proof fn lemma_clear_idempotent(b: Seq<char>)
    ensures
        spec_clear(spec_clear(b)) == spec_clear(b),
{
}

/// The characters typed so far, in insertion order. Cleared to empty on
/// authentication failure and on explicit cancel; never persisted.
pub struct PasswordBuffer {
    chars: Vec<char>,
}

impl View for PasswordBuffer {
    type V = Seq<char>;

    closed spec fn view(&self) -> Seq<char> {
        self.chars@
    }
}

impl PasswordBuffer {
    pub fn new() -> (b: PasswordBuffer)
        ensures
            b@ == Seq::<char>::empty(),
    {
        PasswordBuffer { chars: Vec::new() }
    }

    /// Appends every character of `text`, in order; a no-op on empty text.
    pub fn push(&mut self, text: &Vec<char>)
        ensures
            final(self)@ == spec_push(old(self)@, text@),
    {
        let mut i: usize = 0;
        while i < text.len()
            invariant
                i <= text.len(),
                self@ == old(self)@ + text@.take(i as int),
            decreases text.len() - i,
        {
            self.chars.push(text[i]);
            proof {
                assert(self@ =~= old(self)@ + text@.take(i + 1));
            }
            i = i + 1;
        }
        proof {
            assert(self@ =~= old(self)@ + text@);
        }
    }

    /// Removes the last character if one is present; a no-op on an empty
    /// buffer.
    pub fn pop_last(&mut self)
        ensures
            final(self)@ == spec_pop_last(old(self)@),
            old(self)@.len() == 0 ==> final(self)@ == old(self)@,
    {
        if self.chars.len() > 0 {
            self.chars.pop();
        }
    }

    /// Resets the buffer to empty, whatever it held.
    pub fn clear(&mut self)
        ensures
            final(self)@ == spec_clear(old(self)@),
            final(self)@ == Seq::<char>::empty(),
    {
        self.chars.clear();
        proof {
            assert(self@ =~= Seq::<char>::empty());
        }
    }

    pub fn len(&self) -> (n: usize)
        ensures
            n == self@.len(),
    {
        self.chars.len()
    }

    pub fn is_empty(&self) -> (b: bool)
        ensures
            b == (self@.len() == 0),
    {
        self.chars.len() == 0
    }

    /// A copy of the current contents, for a single authentication attempt.
    pub fn snapshot(&self) -> (v: Vec<char>)
        ensures
            v@ == self@,
    {
        let mut v: Vec<char> = Vec::new();
        let mut i: usize = 0;
        while i < self.chars.len()
            invariant
                i <= self.chars.len(),
                v@ == self@.take(i as int),
            decreases self.chars.len() - i,
        {
            v.push(self.chars[i]);
            proof {
                assert(v@ =~= self@.take(i + 1));
            }
            i = i + 1;
        }
        proof {
            assert(v@ =~= self@);
        }
        v
    }
}

} // verus!
