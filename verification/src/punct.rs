//! Single-character punctuator tokens and the punctuator sum type.

use vstd::prelude::*;

use crate::cursor::Cursor;
use crate::lex::{Lex, LexOutcome, SpecLexed, spec_alt};
use crate::span::{Span, Spanned};

verus! {

/// Lexing a token that matches one fixed character verbatim: the span of
/// that single character, built by `make`.
pub open spec fn spec_lex_single_char<T>(
    text: Seq<char>,
    pos: int,
    ch: char,
    make: spec_fn(Span) -> T,
) -> SpecLexed<T> {
    if 0 <= pos < text.len() && text[pos] == ch {
        SpecLexed::Matched(make(Span { start: pos as usize, end: pos as usize }), pos + 1)
    } else {
        SpecLexed::NoMatch
    }
}

/// The `{` punctuator.
#[derive(Debug, Clone, Copy, PartialEq, Eq, Structural)]
pub struct OpenBrace(pub Span);

impl Lex for OpenBrace {
    open spec fn spec_lex(text: Seq<char>, pos: int) -> SpecLexed<OpenBrace> {
        spec_lex_single_char(text, pos, '{', |sp: Span| OpenBrace(sp))
    }

    fn peek(cursor: &Cursor) -> bool {
        match cursor.peek() {
            Some(c) => c == '{',
            None => false,
        }
    }

    fn lex(cursor: &mut Cursor) -> LexOutcome<OpenBrace> {
        match cursor.take_exact('{') {
            Some(sp) => LexOutcome::Matched(OpenBrace(sp)),
            None => LexOutcome::NoMatch,
        }
    }
}

impl Spanned for OpenBrace {
    open spec fn spec_span(&self) -> Span {
        self.0
    }

    fn span(&self) -> Span {
        self.0
    }
}

/// The `}` punctuator.
#[derive(Debug, Clone, Copy, PartialEq, Eq, Structural)]
pub struct CloseBrace(pub Span);

impl Lex for CloseBrace {
    open spec fn spec_lex(text: Seq<char>, pos: int) -> SpecLexed<CloseBrace> {
        spec_lex_single_char(text, pos, '}', |sp: Span| CloseBrace(sp))
    }

    fn peek(cursor: &Cursor) -> bool {
        match cursor.peek() {
            Some(c) => c == '}',
            None => false,
        }
    }

    fn lex(cursor: &mut Cursor) -> LexOutcome<CloseBrace> {
        match cursor.take_exact('}') {
            Some(sp) => LexOutcome::Matched(CloseBrace(sp)),
            None => LexOutcome::NoMatch,
        }
    }
}

impl Spanned for CloseBrace {
    open spec fn spec_span(&self) -> Span {
        self.0
    }

    fn span(&self) -> Span {
        self.0
    }
}

/// The `[` punctuator.
#[derive(Debug, Clone, Copy, PartialEq, Eq, Structural)]
pub struct OpenBracket(pub Span);

impl Lex for OpenBracket {
    open spec fn spec_lex(text: Seq<char>, pos: int) -> SpecLexed<OpenBracket> {
        spec_lex_single_char(text, pos, '[', |sp: Span| OpenBracket(sp))
    }

    fn peek(cursor: &Cursor) -> bool {
        match cursor.peek() {
            Some(c) => c == '[',
            None => false,
        }
    }

    fn lex(cursor: &mut Cursor) -> LexOutcome<OpenBracket> {
        match cursor.take_exact('[') {
            Some(sp) => LexOutcome::Matched(OpenBracket(sp)),
            None => LexOutcome::NoMatch,
        }
    }
}

impl Spanned for OpenBracket {
    open spec fn spec_span(&self) -> Span {
        self.0
    }

    fn span(&self) -> Span {
        self.0
    }
}

/// The `]` punctuator.
#[derive(Debug, Clone, Copy, PartialEq, Eq, Structural)]
pub struct CloseBracket(pub Span);

impl Lex for CloseBracket {
    open spec fn spec_lex(text: Seq<char>, pos: int) -> SpecLexed<CloseBracket> {
        spec_lex_single_char(text, pos, ']', |sp: Span| CloseBracket(sp))
    }

    fn peek(cursor: &Cursor) -> bool {
        match cursor.peek() {
            Some(c) => c == ']',
            None => false,
        }
    }

    fn lex(cursor: &mut Cursor) -> LexOutcome<CloseBracket> {
        match cursor.take_exact(']') {
            Some(sp) => LexOutcome::Matched(CloseBracket(sp)),
            None => LexOutcome::NoMatch,
        }
    }
}

impl Spanned for CloseBracket {
    open spec fn spec_span(&self) -> Span {
        self.0
    }

    fn span(&self) -> Span {
        self.0
    }
}

/// The `:` punctuator.
#[derive(Debug, Clone, Copy, PartialEq, Eq, Structural)]
pub struct Colon(pub Span);

impl Lex for Colon {
    open spec fn spec_lex(text: Seq<char>, pos: int) -> SpecLexed<Colon> {
        spec_lex_single_char(text, pos, ':', |sp: Span| Colon(sp))
    }

    fn peek(cursor: &Cursor) -> bool {
        match cursor.peek() {
            Some(c) => c == ':',
            None => false,
        }
    }

    fn lex(cursor: &mut Cursor) -> LexOutcome<Colon> {
        match cursor.take_exact(':') {
            Some(sp) => LexOutcome::Matched(Colon(sp)),
            None => LexOutcome::NoMatch,
        }
    }
}

impl Spanned for Colon {
    open spec fn spec_span(&self) -> Span {
        self.0
    }

    fn span(&self) -> Span {
        self.0
    }
}

/// The `,` punctuator.
#[derive(Debug, Clone, Copy, PartialEq, Eq, Structural)]
pub struct Comma(pub Span);

impl Lex for Comma {
    open spec fn spec_lex(text: Seq<char>, pos: int) -> SpecLexed<Comma> {
        spec_lex_single_char(text, pos, ',', |sp: Span| Comma(sp))
    }

    fn peek(cursor: &Cursor) -> bool {
        match cursor.peek() {
            Some(c) => c == ',',
            None => false,
        }
    }

    fn lex(cursor: &mut Cursor) -> LexOutcome<Comma> {
        match cursor.take_exact(',') {
            Some(sp) => LexOutcome::Matched(Comma(sp)),
            None => LexOutcome::NoMatch,
        }
    }
}

impl Spanned for Comma {
    open spec fn spec_span(&self) -> Span {
        self.0
    }

    fn span(&self) -> Span {
        self.0
    }
}

/// The `-` punctuator, used in numeric contexts.
#[derive(Debug, Clone, Copy, PartialEq, Eq, Structural)]
pub struct Minus(pub Span);

impl Lex for Minus {
    open spec fn spec_lex(text: Seq<char>, pos: int) -> SpecLexed<Minus> {
        spec_lex_single_char(text, pos, '-', |sp: Span| Minus(sp))
    }

    fn peek(cursor: &Cursor) -> bool {
        match cursor.peek() {
            Some(c) => c == '-',
            None => false,
        }
    }

    fn lex(cursor: &mut Cursor) -> LexOutcome<Minus> {
        match cursor.take_exact('-') {
            Some(sp) => LexOutcome::Matched(Minus(sp)),
            None => LexOutcome::NoMatch,
        }
    }
}

impl Spanned for Minus {
    open spec fn spec_span(&self) -> Span {
        self.0
    }

    fn span(&self) -> Span {
        self.0
    }
}

/// The `+` punctuator, used in numeric contexts.
#[derive(Debug, Clone, Copy, PartialEq, Eq, Structural)]
pub struct Plus(pub Span);

impl Lex for Plus {
    open spec fn spec_lex(text: Seq<char>, pos: int) -> SpecLexed<Plus> {
        spec_lex_single_char(text, pos, '+', |sp: Span| Plus(sp))
    }

    fn peek(cursor: &Cursor) -> bool {
        match cursor.peek() {
            Some(c) => c == '+',
            None => false,
        }
    }

    fn lex(cursor: &mut Cursor) -> LexOutcome<Plus> {
        match cursor.take_exact('+') {
            Some(sp) => LexOutcome::Matched(Plus(sp)),
            None => LexOutcome::NoMatch,
        }
    }
}

impl Spanned for Plus {
    open spec fn spec_span(&self) -> Span {
        self.0
    }

    fn span(&self) -> Span {
        self.0
    }
}

/// The `.` punctuator, used in numeric contexts.
#[derive(Debug, Clone, Copy, PartialEq, Eq, Structural)]
pub struct Dot(pub Span);

impl Lex for Dot {
    open spec fn spec_lex(text: Seq<char>, pos: int) -> SpecLexed<Dot> {
        spec_lex_single_char(text, pos, '.', |sp: Span| Dot(sp))
    }

    fn peek(cursor: &Cursor) -> bool {
        match cursor.peek() {
            Some(c) => c == '.',
            None => false,
        }
    }

    fn lex(cursor: &mut Cursor) -> LexOutcome<Dot> {
        match cursor.take_exact('.') {
            Some(sp) => LexOutcome::Matched(Dot(sp)),
            None => LexOutcome::NoMatch,
        }
    }
}

impl Spanned for Dot {
    open spec fn spec_span(&self) -> Span {
        self.0
    }

    fn span(&self) -> Span {
        self.0
    }
}

/// The punctuators of the grammar proper, tried in a fixed order.
#[derive(Debug, Clone, Copy, PartialEq, Eq, Structural)]
pub enum Punct {
    OpenBrace(OpenBrace),
    CloseBrace(CloseBrace),
    OpenBracket(OpenBracket),
    CloseBracket(CloseBracket),
    Colon(Colon),
    Comma(Comma),
}

impl Lex for Punct {
    open spec fn spec_lex(text: Seq<char>, pos: int) -> SpecLexed<Punct> {
        spec_alt(
            OpenBrace::spec_lex(text, pos),
            |v: OpenBrace| Punct::OpenBrace(v),
            spec_alt(
                CloseBrace::spec_lex(text, pos),
                |v: CloseBrace| Punct::CloseBrace(v),
                spec_alt(
                    OpenBracket::spec_lex(text, pos),
                    |v: OpenBracket| Punct::OpenBracket(v),
                    spec_alt(
                        CloseBracket::spec_lex(text, pos),
                        |v: CloseBracket| Punct::CloseBracket(v),
                        spec_alt(
                            Colon::spec_lex(text, pos),
                            |v: Colon| Punct::Colon(v),
                            spec_alt(
                                Comma::spec_lex(text, pos),
                                |v: Comma| Punct::Comma(v),
                                SpecLexed::NoMatch,
                            ),
                        ),
                    ),
                ),
            ),
        )
    }

    fn peek(cursor: &Cursor) -> bool {
        OpenBrace::peek(cursor) || CloseBrace::peek(cursor) || OpenBracket::peek(cursor)
            || CloseBracket::peek(cursor) || Colon::peek(cursor) || Comma::peek(cursor)
    }

    fn lex(cursor: &mut Cursor) -> LexOutcome<Punct> {
        match OpenBrace::lex(cursor) {
            LexOutcome::Matched(v) => {
                return LexOutcome::Matched(Punct::OpenBrace(v));
            },
            LexOutcome::Malformed(e) => {
                return LexOutcome::Malformed(e);
            },
            LexOutcome::NoMatch => {},
        }
        match CloseBrace::lex(cursor) {
            LexOutcome::Matched(v) => {
                return LexOutcome::Matched(Punct::CloseBrace(v));
            },
            LexOutcome::Malformed(e) => {
                return LexOutcome::Malformed(e);
            },
            LexOutcome::NoMatch => {},
        }
        match OpenBracket::lex(cursor) {
            LexOutcome::Matched(v) => {
                return LexOutcome::Matched(Punct::OpenBracket(v));
            },
            LexOutcome::Malformed(e) => {
                return LexOutcome::Malformed(e);
            },
            LexOutcome::NoMatch => {},
        }
        match CloseBracket::lex(cursor) {
            LexOutcome::Matched(v) => {
                return LexOutcome::Matched(Punct::CloseBracket(v));
            },
            LexOutcome::Malformed(e) => {
                return LexOutcome::Malformed(e);
            },
            LexOutcome::NoMatch => {},
        }
        match Colon::lex(cursor) {
            LexOutcome::Matched(v) => {
                return LexOutcome::Matched(Punct::Colon(v));
            },
            LexOutcome::Malformed(e) => {
                return LexOutcome::Malformed(e);
            },
            LexOutcome::NoMatch => {},
        }
        match Comma::lex(cursor) {
            LexOutcome::Matched(v) => {
                return LexOutcome::Matched(Punct::Comma(v));
            },
            LexOutcome::Malformed(e) => {
                return LexOutcome::Malformed(e);
            },
            LexOutcome::NoMatch => {},
        }
        LexOutcome::NoMatch
    }
}

impl Spanned for Punct {
    open spec fn spec_span(&self) -> Span {
        match self {
            Punct::OpenBrace(t) => t.spec_span(),
            Punct::CloseBrace(t) => t.spec_span(),
            Punct::OpenBracket(t) => t.spec_span(),
            Punct::CloseBracket(t) => t.spec_span(),
            Punct::Colon(t) => t.spec_span(),
            Punct::Comma(t) => t.spec_span(),
        }
    }

    fn span(&self) -> Span {
        match self {
            Punct::OpenBrace(t) => t.span(),
            Punct::CloseBrace(t) => t.span(),
            Punct::OpenBracket(t) => t.span(),
            Punct::CloseBracket(t) => t.span(),
            Punct::Colon(t) => t.span(),
            Punct::Comma(t) => t.span(),
        }
    }
}

} // verus!
