//! Escape sequences, used between strings and identifiers: character
//! escapes, the null escape, and hex / Unicode code-unit escapes.

use vstd::prelude::*;

use crate::cursor::Cursor;
use crate::lex::{
    lex_exactly, lemma_lex_exactly_len, lemma_lex_exactly_never_nomatch, spec_alt,
    spec_lex_exactly, Lex, LexError, LexOutcome, SpecLexed,
};
use crate::span::{spec_combine, Span, Spanned};
use crate::trivia::{is_line_terminator, spec_is_line_terminator};

verus! {

/// A hexadecimal digit: `0`-`9`, `a`-`f` or `A`-`F`.
pub open spec fn spec_is_hex_digit(c: char) -> bool {
    ||| ('0' <= c && c <= '9')
    ||| ('a' <= c && c <= 'f')
    ||| ('A' <= c && c <= 'F')
}

/// A decimal digit: `0`-`9`.
pub open spec fn spec_is_decimal_digit(c: char) -> bool {
    '0' <= c && c <= '9'
}

/// One hexadecimal digit, with its span and its raw character.
#[derive(Debug, Clone, Copy, PartialEq, Eq, Structural)]
pub struct HexDigit {
    pub span: Span,
    pub raw: char,
}

impl HexDigit {
    /// Whether `ch` is a hexadecimal digit.
    pub fn is_hex_digit(ch: &char) -> (r: bool)
        ensures
            r == spec_is_hex_digit(*ch),
    {
        ('0' <= *ch && *ch <= '9') || ('a' <= *ch && *ch <= 'f') || ('A' <= *ch && *ch <= 'F')
    }
}

impl Lex for HexDigit {
    open spec fn spec_lex(text: Seq<char>, pos: int) -> SpecLexed<HexDigit> {
        if 0 <= pos < text.len() && spec_is_hex_digit(text[pos]) {
            SpecLexed::Matched(
                HexDigit { span: Span { start: pos as usize, end: pos as usize }, raw: text[pos] },
                pos + 1,
            )
        } else {
            SpecLexed::NoMatch
        }
    }

    fn peek(cursor: &Cursor) -> bool {
        match cursor.peek() {
            Some(c) => HexDigit::is_hex_digit(&c),
            None => false,
        }
    }

    fn lex(cursor: &mut Cursor) -> LexOutcome<HexDigit> {
        match cursor.peek() {
            Some(c) => {
                if HexDigit::is_hex_digit(&c) {
                    let loc = cursor.pos;
                    cursor.take();
                    LexOutcome::Matched(HexDigit { span: Span { start: loc, end: loc }, raw: c })
                } else {
                    LexOutcome::NoMatch
                }
            },
            None => LexOutcome::NoMatch,
        }
    }
}

impl Spanned for HexDigit {
    open spec fn spec_span(&self) -> Span {
        self.span
    }

    fn span(&self) -> Span {
        self.span
    }
}

/// One of the single escape characters: `' " \ b f n r t v`.
pub open spec fn spec_is_single_escape_char(c: char) -> bool {
    ||| c == '\''
    ||| c == '"'
    ||| c == '\\'
    ||| c == 'b'
    ||| c == 'f'
    ||| c == 'n'
    ||| c == 'r'
    ||| c == 't'
    ||| c == 'v'
}

/// Whether `ch` is a single escape character.
pub fn is_single_escape_char(ch: &char) -> (r: bool)
    ensures
        r == spec_is_single_escape_char(*ch),
{
    *ch == '\'' || *ch == '"' || *ch == '\\' || *ch == 'b' || *ch == 'f' || *ch == 'n' || *ch == 'r'
        || *ch == 't' || *ch == 'v'
}

/// A character that is special after a backslash: a single escape
/// character, a decimal digit, `x`, or `u`.
pub open spec fn spec_is_escape_char(c: char) -> bool {
    ||| spec_is_single_escape_char(c)
    ||| spec_is_decimal_digit(c)
    ||| c == 'x'
    ||| c == 'u'
}

/// Whether `ch` is an escape character.
pub fn is_escape_char(ch: &char) -> (r: bool)
    ensures
        r == spec_is_escape_char(*ch),
{
    is_single_escape_char(ch) || ('0' <= *ch && *ch <= '9') || *ch == 'x' || *ch == 'u'
}

/// A single escape character, consumed verbatim with its raw value kept.
#[derive(Debug, Clone, Copy, PartialEq, Eq, Structural)]
pub struct SingleEscapeChar {
    pub span: Span,
    pub raw: char,
}

impl Lex for SingleEscapeChar {
    open spec fn spec_lex(text: Seq<char>, pos: int) -> SpecLexed<SingleEscapeChar> {
        if 0 <= pos < text.len() && spec_is_single_escape_char(text[pos]) {
            SpecLexed::Matched(
                SingleEscapeChar {
                    span: Span { start: pos as usize, end: pos as usize },
                    raw: text[pos],
                },
                pos + 1,
            )
        } else {
            SpecLexed::NoMatch
        }
    }

    fn peek(cursor: &Cursor) -> bool {
        match cursor.peek() {
            Some(c) => is_single_escape_char(&c),
            None => false,
        }
    }

    fn lex(cursor: &mut Cursor) -> LexOutcome<SingleEscapeChar> {
        match cursor.peek() {
            Some(c) => {
                if is_single_escape_char(&c) {
                    let loc = cursor.pos;
                    cursor.take();
                    LexOutcome::Matched(
                        SingleEscapeChar { span: Span { start: loc, end: loc }, raw: c },
                    )
                } else {
                    LexOutcome::NoMatch
                }
            },
            None => LexOutcome::NoMatch,
        }
    }
}

impl Spanned for SingleEscapeChar {
    open spec fn spec_span(&self) -> Span {
        self.span
    }

    fn span(&self) -> Span {
        self.span
    }
}

/// Any single character that is neither a line terminator nor an escape
/// character, consumed verbatim with its raw value kept.
#[derive(Debug, Clone, Copy, PartialEq, Eq, Structural)]
pub struct NonEscapeChar {
    pub span: Span,
    pub raw: char,
}

impl Lex for NonEscapeChar {
    open spec fn spec_lex(text: Seq<char>, pos: int) -> SpecLexed<NonEscapeChar> {
        if 0 <= pos < text.len() && !(spec_is_line_terminator(text[pos]) || spec_is_escape_char(
            text[pos],
        )) {
            SpecLexed::Matched(
                NonEscapeChar {
                    span: Span { start: pos as usize, end: pos as usize },
                    raw: text[pos],
                },
                pos + 1,
            )
        } else {
            SpecLexed::NoMatch
        }
    }

    fn peek(cursor: &Cursor) -> bool {
        match cursor.peek() {
            Some(c) => !(is_line_terminator(&c) || is_escape_char(&c)),
            None => false,
        }
    }

    fn lex(cursor: &mut Cursor) -> LexOutcome<NonEscapeChar> {
        match cursor.peek() {
            Some(c) => {
                if !(is_line_terminator(&c) || is_escape_char(&c)) {
                    let loc = cursor.pos;
                    cursor.take();
                    LexOutcome::Matched(
                        NonEscapeChar { span: Span { start: loc, end: loc }, raw: c },
                    )
                } else {
                    LexOutcome::NoMatch
                }
            },
            None => LexOutcome::NoMatch,
        }
    }
}

impl Spanned for NonEscapeChar {
    open spec fn spec_span(&self) -> Span {
        self.span
    }

    fn span(&self) -> Span {
        self.span
    }
}

/// The null escape: the digit `0` only when not followed by another
/// digit — a negative lookahead of one character.
#[derive(Debug, Clone, Copy, PartialEq, Eq, Structural)]
pub struct Null {
    pub span: Span,
}

impl Lex for Null {
    open spec fn spec_lex(text: Seq<char>, pos: int) -> SpecLexed<Null> {
        if 0 <= pos < text.len() && text[pos] == '0' && !(pos + 1 < text.len()
            && spec_is_decimal_digit(text[pos + 1])) {
            SpecLexed::Matched(
                Null { span: Span { start: pos as usize, end: pos as usize } },
                pos + 1,
            )
        } else {
            SpecLexed::NoMatch
        }
    }

    fn peek(cursor: &Cursor) -> bool {
        let zero_here = match cursor.peek() {
            Some(c) => c == '0',
            None => false,
        };
        if !zero_here {
            return false;
        }
        match cursor.peek_at(1) {
            Some(d) => !('0' <= d && d <= '9'),
            None => true,
        }
    }

    fn lex(cursor: &mut Cursor) -> LexOutcome<Null> {
        if !Self::peek(cursor) {
            return LexOutcome::NoMatch;
        }
        let loc = cursor.pos;
        cursor.take();
        LexOutcome::Matched(Null { span: Span { start: loc, end: loc } })
    }
}

impl Spanned for Null {
    open spec fn spec_span(&self) -> Span {
        self.span
    }

    fn span(&self) -> Span {
        self.span
    }
}

/// A character escape sequence: a single escape character, or any
/// character that is neither a line terminator nor an escape character.
#[derive(Debug, Clone, Copy, PartialEq, Eq, Structural)]
pub enum CharacterEscapeSequence {
    Single(SingleEscapeChar),
    NonEscape(NonEscapeChar),
}

impl Lex for CharacterEscapeSequence {
    open spec fn spec_lex(text: Seq<char>, pos: int) -> SpecLexed<CharacterEscapeSequence> {
        spec_alt(
            SingleEscapeChar::spec_lex(text, pos),
            |v: SingleEscapeChar| CharacterEscapeSequence::Single(v),
            spec_alt(
                NonEscapeChar::spec_lex(text, pos),
                |v: NonEscapeChar| CharacterEscapeSequence::NonEscape(v),
                SpecLexed::NoMatch,
            ),
        )
    }

    fn peek(cursor: &Cursor) -> bool {
        SingleEscapeChar::peek(cursor) || NonEscapeChar::peek(cursor)
    }

    fn lex(cursor: &mut Cursor) -> LexOutcome<CharacterEscapeSequence> {
        match SingleEscapeChar::lex(cursor) {
            LexOutcome::Matched(v) => {
                return LexOutcome::Matched(CharacterEscapeSequence::Single(v));
            },
            LexOutcome::Malformed(e) => {
                return LexOutcome::Malformed(e);
            },
            LexOutcome::NoMatch => {},
        }
        match NonEscapeChar::lex(cursor) {
            LexOutcome::Matched(v) => LexOutcome::Matched(CharacterEscapeSequence::NonEscape(v)),
            LexOutcome::Malformed(e) => LexOutcome::Malformed(e),
            LexOutcome::NoMatch => LexOutcome::NoMatch,
        }
    }
}

impl Spanned for CharacterEscapeSequence {
    open spec fn spec_span(&self) -> Span {
        match self {
            CharacterEscapeSequence::Single(t) => t.spec_span(),
            CharacterEscapeSequence::NonEscape(t) => t.spec_span(),
        }
    }

    fn span(&self) -> Span {
        match self {
            CharacterEscapeSequence::Single(t) => t.span(),
            CharacterEscapeSequence::NonEscape(t) => t.span(),
        }
    }
}

/// A hex escape: the marker `x` followed by exactly two hexadecimal
/// digits. Fewer digits than required is a malformed outcome.
#[derive(Debug, Clone, Copy, PartialEq, Eq, Structural)]
pub struct HexEscapeSequence {
    pub marker: Span,
    pub d0: HexDigit,
    pub d1: HexDigit,
}

impl Lex for HexEscapeSequence {
    open spec fn spec_lex(text: Seq<char>, pos: int) -> SpecLexed<HexEscapeSequence> {
        if 0 <= pos < text.len() && text[pos] == 'x' {
            match spec_lex_exactly::<HexDigit>(text, pos + 1, 2) {
                SpecLexed::Matched(ds, p) => SpecLexed::Matched(
                    HexEscapeSequence {
                        marker: Span { start: pos as usize, end: pos as usize },
                        d0: ds[0],
                        d1: ds[1],
                    },
                    p,
                ),
                SpecLexed::NoMatch => SpecLexed::NoMatch,
                SpecLexed::Malformed(e) => SpecLexed::Malformed(e),
            }
        } else {
            SpecLexed::NoMatch
        }
    }

    fn peek(cursor: &Cursor) -> bool {
        proof {
            lemma_lex_exactly_never_nomatch::<HexDigit>(cursor.text(), cursor.cur() + 1, 2);
        }
        match cursor.peek() {
            Some(c) => c == 'x',
            None => false,
        }
    }

    fn lex(cursor: &mut Cursor) -> LexOutcome<HexEscapeSequence> {
        proof {
            lemma_lex_exactly_never_nomatch::<HexDigit>(
                old(cursor).text(),
                old(cursor).cur() + 1,
                2,
            );
            lemma_lex_exactly_len::<HexDigit>(old(cursor).text(), old(cursor).cur() + 1, 2);
        }
        let marker = match cursor.take_exact('x') {
            Some(sp) => sp,
            None => {
                return LexOutcome::NoMatch;
            },
        };
        match lex_exactly::<HexDigit>(cursor, 2) {
            LexOutcome::Matched(ds) => {
                let d0 = ds[0];
                let d1 = ds[1];
                LexOutcome::Matched(HexEscapeSequence { marker, d0, d1 })
            },
            LexOutcome::NoMatch => {
                proof {
                    assert(false);
                }
                LexOutcome::NoMatch
            },
            LexOutcome::Malformed(e) => LexOutcome::Malformed(e),
        }
    }
}

impl Spanned for HexEscapeSequence {
    open spec fn spec_span(&self) -> Span {
        spec_combine(seq![self.marker, self.d0.span, self.d1.span])
    }

    fn span(&self) -> Span {
        Span { start: self.marker.start, end: self.d1.span.end }
    }
}

/// A Unicode escape: the marker `u` followed by exactly four hexadecimal
/// digits. Fewer digits than required is a malformed outcome.
#[derive(Debug, Clone, Copy, PartialEq, Eq, Structural)]
pub struct UnicodeEscapeSequence {
    pub marker: Span,
    pub d0: HexDigit,
    pub d1: HexDigit,
    pub d2: HexDigit,
    pub d3: HexDigit,
}

impl Lex for UnicodeEscapeSequence {
    open spec fn spec_lex(text: Seq<char>, pos: int) -> SpecLexed<UnicodeEscapeSequence> {
        if 0 <= pos < text.len() && text[pos] == 'u' {
            match spec_lex_exactly::<HexDigit>(text, pos + 1, 4) {
                SpecLexed::Matched(ds, p) => SpecLexed::Matched(
                    UnicodeEscapeSequence {
                        marker: Span { start: pos as usize, end: pos as usize },
                        d0: ds[0],
                        d1: ds[1],
                        d2: ds[2],
                        d3: ds[3],
                    },
                    p,
                ),
                SpecLexed::NoMatch => SpecLexed::NoMatch,
                SpecLexed::Malformed(e) => SpecLexed::Malformed(e),
            }
        } else {
            SpecLexed::NoMatch
        }
    }

    fn peek(cursor: &Cursor) -> bool {
        proof {
            lemma_lex_exactly_never_nomatch::<HexDigit>(cursor.text(), cursor.cur() + 1, 4);
        }
        match cursor.peek() {
            Some(c) => c == 'u',
            None => false,
        }
    }

    fn lex(cursor: &mut Cursor) -> LexOutcome<UnicodeEscapeSequence> {
        proof {
            lemma_lex_exactly_never_nomatch::<HexDigit>(
                old(cursor).text(),
                old(cursor).cur() + 1,
                4,
            );
            lemma_lex_exactly_len::<HexDigit>(old(cursor).text(), old(cursor).cur() + 1, 4);
        }
        let marker = match cursor.take_exact('u') {
            Some(sp) => sp,
            None => {
                return LexOutcome::NoMatch;
            },
        };
        match lex_exactly::<HexDigit>(cursor, 4) {
            LexOutcome::Matched(ds) => {
                let d0 = ds[0];
                let d1 = ds[1];
                let d2 = ds[2];
                let d3 = ds[3];
                LexOutcome::Matched(UnicodeEscapeSequence { marker, d0, d1, d2, d3 })
            },
            LexOutcome::NoMatch => {
                proof {
                    assert(false);
                }
                LexOutcome::NoMatch
            },
            LexOutcome::Malformed(e) => LexOutcome::Malformed(e),
        }
    }
}

impl Spanned for UnicodeEscapeSequence {
    open spec fn spec_span(&self) -> Span {
        spec_combine(seq![self.marker, self.d0.span, self.d1.span, self.d2.span, self.d3.span])
    }

    fn span(&self) -> Span {
        Span { start: self.marker.start, end: self.d3.span.end }
    }
}

/// An escape sequence of any of the four kinds, tried in order. A `0`
/// that is followed by another digit matches none of them and is
/// rejected as ambiguous rather than silently reinterpreted.
#[derive(Debug, Clone, Copy, PartialEq, Eq, Structural)]
pub enum EscapeSequence {
    CharacterEscapeSequence(CharacterEscapeSequence),
    Null(Null),
    HexEscapeSequence(HexEscapeSequence),
    UnicodeEscapeSequence(UnicodeEscapeSequence),
}

impl Lex for EscapeSequence {
    open spec fn spec_lex(text: Seq<char>, pos: int) -> SpecLexed<EscapeSequence> {
        spec_alt(
            CharacterEscapeSequence::spec_lex(text, pos),
            |v: CharacterEscapeSequence| EscapeSequence::CharacterEscapeSequence(v),
            spec_alt(
                Null::spec_lex(text, pos),
                |v: Null| EscapeSequence::Null(v),
                spec_alt(
                    HexEscapeSequence::spec_lex(text, pos),
                    |v: HexEscapeSequence| EscapeSequence::HexEscapeSequence(v),
                    spec_alt(
                        UnicodeEscapeSequence::spec_lex(text, pos),
                        |v: UnicodeEscapeSequence| EscapeSequence::UnicodeEscapeSequence(v),
                        if 0 <= pos < text.len() && text[pos] == '0' {
                            SpecLexed::Malformed(LexError::AmbiguousLeadingZero(pos as usize))
                        } else {
                            SpecLexed::NoMatch
                        },
                    ),
                ),
            ),
        )
    }

    fn peek(cursor: &Cursor) -> bool {
        if CharacterEscapeSequence::peek(cursor) || Null::peek(cursor) || HexEscapeSequence::peek(
            cursor,
        ) || UnicodeEscapeSequence::peek(cursor) {
            return true;
        }
        match cursor.peek() {
            Some(c) => c == '0',
            None => false,
        }
    }

    fn lex(cursor: &mut Cursor) -> LexOutcome<EscapeSequence> {
        match CharacterEscapeSequence::lex(cursor) {
            LexOutcome::Matched(v) => {
                return LexOutcome::Matched(EscapeSequence::CharacterEscapeSequence(v));
            },
            LexOutcome::Malformed(e) => {
                return LexOutcome::Malformed(e);
            },
            LexOutcome::NoMatch => {},
        }
        match Null::lex(cursor) {
            LexOutcome::Matched(v) => {
                return LexOutcome::Matched(EscapeSequence::Null(v));
            },
            LexOutcome::Malformed(e) => {
                return LexOutcome::Malformed(e);
            },
            LexOutcome::NoMatch => {},
        }
        match HexEscapeSequence::lex(cursor) {
            LexOutcome::Matched(v) => {
                return LexOutcome::Matched(EscapeSequence::HexEscapeSequence(v));
            },
            LexOutcome::Malformed(e) => {
                return LexOutcome::Malformed(e);
            },
            LexOutcome::NoMatch => {},
        }
        match UnicodeEscapeSequence::lex(cursor) {
            LexOutcome::Matched(v) => {
                return LexOutcome::Matched(EscapeSequence::UnicodeEscapeSequence(v));
            },
            LexOutcome::Malformed(e) => {
                return LexOutcome::Malformed(e);
            },
            LexOutcome::NoMatch => {},
        }
        let leading_zero = match cursor.peek() {
            Some(c) => c == '0',
            None => false,
        };
        if leading_zero {
            LexOutcome::Malformed(LexError::AmbiguousLeadingZero(cursor.pos))
        } else {
            LexOutcome::NoMatch
        }
    }
}

impl Spanned for EscapeSequence {
    open spec fn spec_span(&self) -> Span {
        match self {
            EscapeSequence::CharacterEscapeSequence(t) => t.spec_span(),
            EscapeSequence::Null(t) => t.spec_span(),
            EscapeSequence::HexEscapeSequence(t) => t.spec_span(),
            EscapeSequence::UnicodeEscapeSequence(t) => t.spec_span(),
        }
    }

    fn span(&self) -> Span {
        match self {
            EscapeSequence::CharacterEscapeSequence(t) => t.span(),
            EscapeSequence::Null(t) => t.span(),
            EscapeSequence::HexEscapeSequence(t) => t.span(),
            EscapeSequence::UnicodeEscapeSequence(t) => t.span(),
        }
    }
}

} // verus!
