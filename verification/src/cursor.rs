//! A position-tracking, forkable cursor over the characters of a source text.

use vstd::prelude::*;

use crate::span::{Location, Span};

verus! {

/// A cursor over a sequence of `(Location, char)` pairs drawn from a text.
///
/// Advancing is monotonic, peeking never advances, and `fork` produces an
/// independent copy that observes the same text and can be advanced or
/// discarded freely without affecting the original.
pub struct Cursor {
    pub chars: Vec<char>,
    pub pos: usize,
}

impl Cursor {
    /// All characters of the source text.
    pub open spec fn text(self) -> Seq<char> {
        self.chars@
    }

    /// The current position.
    pub open spec fn cur(self) -> int {
        self.pos as int
    }

    /// The position never passes the end of the text.
    pub open spec fn wf(self) -> bool {
        self.pos <= self.chars@.len()
    }

    /// The character at the current position, or `None` at end of input.
    pub open spec fn spec_peek(self) -> Option<char> {
        if self.cur() < self.text().len() {
            Some(self.text()[self.cur()])
        } else {
            None
        }
    }

    /// A cursor at the start of the given text.
    pub fn new(chars: Vec<char>) -> (c: Cursor)
        ensures
            c.text() == chars@,
            c.cur() == 0,
            c.wf(),
    {
        Cursor { chars, pos: 0 }
    }

    /// The character at the current position, without consuming it;
    /// `None` at end of input. The result is a function of the cursor's
    /// state alone, so peeking twice returns the same value.
    pub fn peek(&self) -> (r: Option<char>)
        requires
            self.wf(),
        ensures
            r == self.spec_peek(),
    {
        if self.pos < self.chars.len() {
            Some(self.chars[self.pos])
        } else {
            None
        }
    }

    /// The character `n` positions ahead of the current one (0-based),
    /// without consuming; `None` when fewer than `n + 1` characters remain.
    pub fn peek_at(&self, n: usize) -> (r: Option<char>)
        requires
            self.wf(),
        ensures
            self.cur() + n < self.text().len() ==> r == Some(self.text()[self.cur() + n]),
            self.cur() + n >= self.text().len() ==> r is None,
    {
        if n < self.chars.len() - self.pos {
            Some(self.chars[self.pos + n])
        } else {
            None
        }
    }

    /// Consume the current character, returning its location and value;
    /// `None` at end of input. This is the only state-mutating operation.
    pub fn take(&mut self) -> (r: Option<(Location, char)>)
        requires
            old(self).wf(),
        ensures
            final(self).wf(),
            final(self).text() == old(self).text(),
            old(self).cur() < old(self).text().len() ==> {
                &&& r == Some((old(self).pos, old(self).text()[old(self).cur()]))
                &&& final(self).cur() == old(self).cur() + 1
            },
            old(self).cur() >= old(self).text().len() ==> {
                &&& r is None
                &&& final(self).cur() == old(self).cur()
            },
    {
        if self.pos < self.chars.len() {
            let loc = self.pos;
            let c = self.chars[self.pos];
            self.pos = self.pos + 1;
            Some((loc, c))
        } else {
            None
        }
    }

    /// Consume the current character exactly when it equals `expected`,
    /// returning its single-character span; otherwise leave the cursor alone.
    pub fn take_exact(&mut self, expected: char) -> (r: Option<Span>)
        requires
            old(self).wf(),
        ensures
            final(self).wf(),
            final(self).text() == old(self).text(),
            if old(self).spec_peek() == Some(expected) {
                &&& r == Some(Span { start: old(self).pos, end: old(self).pos })
                &&& final(self).cur() == old(self).cur() + 1
            } else {
                &&& r is None
                &&& final(self).cur() == old(self).cur()
            },
    {
        if self.pos < self.chars.len() && self.chars[self.pos] == expected {
            let loc = self.pos;
            self.pos = self.pos + 1;
            Some(Span { start: loc, end: loc })
        } else {
            None
        }
    }

    /// An independent copy of this cursor, for speculative lookahead.
    /// The fork observes the same text from the same position; advancing
    /// it never affects the original.
    pub fn fork(&self) -> (c: Cursor)
        requires
            self.wf(),
        ensures
            c.text() == self.text(),
            c.cur() == self.cur(),
            c.wf(),
    {
        let mut copy: Vec<char> = Vec::new();
        let mut i: usize = 0;
        while i < self.chars.len()
            invariant
                i <= self.chars@.len(),
                copy@ == self.chars@.take(i as int),
            decreases self.chars@.len() - i,
        {
            copy.push(self.chars[i]);
            i = i + 1;
        }
        proof {
            assert(copy@ =~= self.chars@);
        }
        Cursor { chars: copy, pos: self.pos }
    }
}

} // verus!
