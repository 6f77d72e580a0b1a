//! The lexing capability — a non-consuming `peek` and a consuming `lex`
//! answering to one specification — and the generic combinators built on
//! it: fixed-count repetition and literal-sequence matching.

use vstd::prelude::*;

use crate::cursor::Cursor;
use crate::span::{Location, Span};

verus! {

/// Why a lexing attempt is malformed, with the offending location.
#[derive(Debug, Clone, Copy, PartialEq, Eq, Structural)]
pub enum LexError {
    /// A multi-line comment reached end of input without its closing
    /// marker; carries the location of the opening marker.
    UnterminatedComment(Location),
    /// A hex or Unicode escape held fewer digits than required; carries
    /// the location where a digit was missing.
    InvalidEscapeDigitCount(Location),
    /// A `0` escape was followed by another digit; carries the zero's
    /// location.
    AmbiguousLeadingZero(Location),
    /// A backslash that passed the cheap identifier-start test failed
    /// full escape validation; carries the backslash's location. The
    /// identifier lexer here validates the escape while peeking, so its
    /// own outcomes never carry this kind; it is part of the taxonomy
    /// for lexers that run the cheap test only.
    MalformedUnicodeIdentifierEscape(Location),
}

/// The three-way result of attempting to lex one token type at a cursor
/// position.
#[derive(Debug)]
pub enum LexOutcome<T> {
    /// The cursor advanced exactly past the matched text.
    Matched(T),
    /// Definitely not this token type; the cursor is unchanged.
    NoMatch,
    /// The token's leading signature was recognized but the remainder
    /// violates the grammar; the cursor must not be lexed from further.
    Malformed(LexError),
}

/// The specification-level result of lexing: a matched value carries the
/// position just past the matched text.
pub enum SpecLexed<T> {
    Matched(T, int),
    NoMatch,
    Malformed(LexError),
}

/// How an executable outcome and final position realise a specified one.
/// The position after a malformed attempt is unspecified.
pub open spec fn lex_obeys_spec<T>(
    s: SpecLexed<T>,
    r: LexOutcome<T>,
    old_pos: int,
    new_pos: int,
) -> bool {
    match s {
        SpecLexed::Matched(v, p) => r == LexOutcome::Matched(v) && new_pos == p,
        SpecLexed::NoMatch => r is NoMatch && new_pos == old_pos,
        SpecLexed::Malformed(e) => r == LexOutcome::<T>::Malformed(e),
    }
}

/// For every token type satisfying the lexing capability: when `peek`
/// answers false — that is, the specification yields `NoMatch` — any
/// outcome that obeys the specification, as every `lex` must, is
/// `NoMatch` and leaves the cursor at the same position.
pub proof fn lemma_peek_false_lex_no_match<T: Lex>(
    text: Seq<char>,
    pos: int,
    r: LexOutcome<T>,
    new_pos: int,
)
    requires
        T::spec_lex(text, pos) is NoMatch,
        lex_obeys_spec(T::spec_lex(text, pos), r, pos, new_pos),
    ensures
        r is NoMatch,
        new_pos == pos,
{
}

/// Ordered alternation at the specification level: the first alternative's
/// match or error wins, and only `NoMatch` falls through to the rest.
pub open spec fn spec_alt<A, B>(
    first: SpecLexed<A>,
    inj: spec_fn(A) -> B,
    rest: SpecLexed<B>,
) -> SpecLexed<B> {
    match first {
        SpecLexed::Matched(v, p) => SpecLexed::Matched(inj(v), p),
        SpecLexed::NoMatch => rest,
        SpecLexed::Malformed(e) => SpecLexed::Malformed(e),
    }
}

/// A malformed alternative is never downgraded by ordered alternation:
/// the error is propagated unchanged, and the whole alternation answers
/// `NoMatch` only when the first alternative and all the rest do.
pub proof fn lemma_alt_never_downgrades<A, B>(
    first: SpecLexed<A>,
    inj: spec_fn(A) -> B,
    rest: SpecLexed<B>,
)
    ensures
        first matches SpecLexed::Malformed(e) ==> spec_alt(first, inj, rest)
            == SpecLexed::<B>::Malformed(e),
        spec_alt(first, inj, rest) is NoMatch ==> first is NoMatch && rest is NoMatch,
{
}

/// The lexing capability every token type implements.
///
/// `peek` is true exactly when `lex` would not return `NoMatch`; when
/// `peek` is false, `lex` returns `NoMatch` and leaves the cursor at the
/// same position. Both answer to the one specification `spec_lex`.
pub trait Lex: Sized {
    /// What lexing this token type at position `pos` of `text` yields.
    spec fn spec_lex(text: Seq<char>, pos: int) -> SpecLexed<Self>;

    /// Whether `lex` would engage here, without consuming anything.
    fn peek(cursor: &Cursor) -> (r: bool)
        requires
            cursor.wf(),
        ensures
            r == !(Self::spec_lex(cursor.text(), cursor.cur()) is NoMatch),
    ;

    /// Attempt to lex one token of this type at the cursor's position.
    fn lex(cursor: &mut Cursor) -> (r: LexOutcome<Self>)
        requires
            old(cursor).wf(),
        ensures
            final(cursor).wf(),
            final(cursor).text() == old(cursor).text(),
            final(cursor).cur() >= old(cursor).cur(),
            r is Matched ==> final(cursor).cur() > old(cursor).cur(),
            lex_obeys_spec(
                Self::spec_lex(old(cursor).text(), old(cursor).cur()),
                r,
                old(cursor).cur(),
                final(cursor).cur(),
            ),
    ;
}

/// Lexing `T` exactly `n` times: the `n` matched values in order, or the
/// first sub-lexer error, or a missing-item error at the position where a
/// `NoMatch` cut the repetition short.
pub open spec fn spec_lex_exactly<T: Lex>(text: Seq<char>, pos: int, n: nat) -> SpecLexed<Seq<T>>
    decreases n,
{
    if n == 0 {
        SpecLexed::Matched(Seq::empty(), pos)
    } else {
        match T::spec_lex(text, pos) {
            SpecLexed::Matched(v, p) => match spec_lex_exactly::<T>(text, p, (n - 1) as nat) {
                SpecLexed::Matched(vs, q) => SpecLexed::Matched(seq![v] + vs, q),
                SpecLexed::NoMatch => SpecLexed::NoMatch,
                SpecLexed::Malformed(e) => SpecLexed::Malformed(e),
            },
            SpecLexed::NoMatch => SpecLexed::Malformed(
                LexError::InvalidEscapeDigitCount(pos as usize),
            ),
            SpecLexed::Malformed(e) => SpecLexed::Malformed(e),
        }
    }
}

/// A fixed-count repetition never answers `NoMatch`: too few matches are
/// a malformed outcome, not an absent one.
pub proof fn lemma_lex_exactly_never_nomatch<T: Lex>(text: Seq<char>, pos: int, n: nat)
    ensures
        !(spec_lex_exactly::<T>(text, pos, n) is NoMatch),
    decreases n,
{
    if n > 0 {
        match T::spec_lex(text, pos) {
            SpecLexed::Matched(v, p) => {
                lemma_lex_exactly_never_nomatch::<T>(text, p, (n - 1) as nat);
            },
            _ => {},
        }
    }
}

/// A fixed-count repetition that matches yields exactly `n` values.
pub proof fn lemma_lex_exactly_len<T: Lex>(text: Seq<char>, pos: int, n: nat)
    ensures
        spec_lex_exactly::<T>(text, pos, n) matches SpecLexed::Matched(vs, p) ==> vs.len() == n,
    decreases n,
{
    if n > 0 {
        match T::spec_lex(text, pos) {
            SpecLexed::Matched(v, p) => {
                lemma_lex_exactly_len::<T>(text, p, (n - 1) as nat);
            },
            _ => {},
        }
    }
}

/// Lex `T` exactly `n` times, yielding the matched values in order; fewer
/// than `n` matches before a `NoMatch` or error is a malformed outcome.
pub fn lex_exactly<T: Lex>(cursor: &mut Cursor, n: usize) -> (r: LexOutcome<Vec<T>>)
    requires
        old(cursor).wf(),
    ensures
        final(cursor).wf(),
        final(cursor).text() == old(cursor).text(),
        final(cursor).cur() >= old(cursor).cur(),
        match spec_lex_exactly::<T>(old(cursor).text(), old(cursor).cur(), n as nat) {
            SpecLexed::Matched(vs, p) => (r matches LexOutcome::Matched(out) && out@ == vs
                && final(cursor).cur() == p),
            SpecLexed::NoMatch => false,
            SpecLexed::Malformed(e) => r == LexOutcome::<Vec<T>>::Malformed(e),
        },
    decreases n,
{
    proof {
        lemma_lex_exactly_never_nomatch::<T>(old(cursor).text(), old(cursor).cur(), n as nat);
    }
    if n == 0 {
        return LexOutcome::Matched(Vec::new());
    }
    match T::lex(cursor) {
        LexOutcome::Matched(v) => {
            match lex_exactly::<T>(cursor, n - 1) {
                LexOutcome::Matched(mut rest) => {
                    let mut out: Vec<T> = Vec::new();
                    out.push(v);
                    out.append(&mut rest);
                    LexOutcome::Matched(out)
                },
                LexOutcome::NoMatch => {
                    proof {
                        assert(false);
                    }
                    LexOutcome::NoMatch
                },
                LexOutcome::Malformed(e) => LexOutcome::Malformed(e),
            }
        },
        LexOutcome::NoMatch => LexOutcome::Malformed(LexError::InvalidEscapeDigitCount(cursor.pos)),
        LexOutcome::Malformed(e) => LexOutcome::Malformed(e),
    }
}

/// The next `lit.len()` characters equal `lit` exactly, one code point at
/// a time.
pub open spec fn spec_verbatim_at(text: Seq<char>, pos: int, lit: Seq<char>) -> bool {
    &&& 0 <= pos
    &&& pos + lit.len() <= text.len()
    &&& text.subrange(pos, pos + lit.len()) == lit
}

/// Literal-sequence matching: consume exactly the characters of `lit` when
/// they all stand next, yielding the span of the consumed positions;
/// otherwise consume nothing.
pub fn lex_verbatim(cursor: &mut Cursor, lit: &Vec<char>) -> (r: Option<Span>)
    requires
        old(cursor).wf(),
        lit@.len() > 0,
    ensures
        final(cursor).wf(),
        final(cursor).text() == old(cursor).text(),
        spec_verbatim_at(old(cursor).text(), old(cursor).cur(), lit@) ==> {
            &&& r == Some(
                Span { start: old(cursor).pos, end: (old(cursor).cur() + lit@.len() - 1) as usize },
            )
            &&& final(cursor).cur() == old(cursor).cur() + lit@.len()
        },
        !spec_verbatim_at(old(cursor).text(), old(cursor).cur(), lit@) ==> {
            &&& r is None
            &&& final(cursor).cur() == old(cursor).cur()
        },
{
    let ghost text0 = cursor.text();
    let ghost pos0 = cursor.cur();
    let mut i: usize = 0;
    while i < lit.len()
        invariant
            cursor.wf(),
            cursor.text() == text0,
            cursor.cur() == pos0,
            i <= lit@.len(),
            pos0 + i <= text0.len(),
            forall|j: int| 0 <= j < i ==> pos0 + j < text0.len() && #[trigger] text0[pos0 + j] == lit@[j],
        decreases lit@.len() - i,
    {
        match cursor.peek_at(i) {
            Some(c) => {
                if c != lit[i] {
                    proof {
                        if spec_verbatim_at(text0, pos0, lit@) {
                            assert(text0.subrange(pos0, pos0 + lit@.len())[i as int] == lit@[i as int]);
                        }
                    }
                    return None;
                }
            },
            None => {
                return None;
            },
        }
        i = i + 1;
    }
    proof {
        assert forall|j: int| 0 <= j < lit@.len() implies text0.subrange(
            pos0,
            pos0 + lit@.len(),
        )[j] == lit@[j] by {
            assert(text0[pos0 + j] == lit@[j]);
        }
        assert(text0.subrange(pos0, pos0 + lit@.len()) =~= lit@);
    }
    let start = cursor.pos;
    let mut k: usize = 0;
    while k < lit.len()
        invariant
            cursor.wf(),
            cursor.text() == text0,
            cursor.cur() == pos0 + k,
            k <= lit@.len(),
            pos0 + lit@.len() <= text0.len(),
        decreases lit@.len() - k,
    {
        cursor.take();
        k = k + 1;
    }
    Some(Span { start, end: cursor.pos - 1 })
}

} // verus!
