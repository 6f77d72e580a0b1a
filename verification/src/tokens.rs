//! The token dispatcher: ordered alternation across the token kinds into
//! one `Token`, and one level up into the top-level `InputElement`.

use vstd::prelude::*;

use crate::cursor::Cursor;
use crate::ident::LIdentifier;
use crate::lex::{spec_alt, Lex, LexOutcome, SpecLexed};
use crate::punct::Punct;
use crate::span::{Span, Spanned};
use crate::trivia::{Comment, LineTerminator, WhiteSpace};

verus! {

/// A token of the grammar proper: an identifier or a punctuator, tried
/// in that order.
#[derive(Debug, Clone, Copy, PartialEq, Eq, Structural)]
pub enum Token {
    Identifier(LIdentifier),
    Punctuator(Punct),
}

impl Lex for Token {
    open spec fn spec_lex(text: Seq<char>, pos: int) -> SpecLexed<Token> {
        spec_alt(
            LIdentifier::spec_lex(text, pos),
            |v: LIdentifier| Token::Identifier(v),
            spec_alt(
                Punct::spec_lex(text, pos),
                |v: Punct| Token::Punctuator(v),
                SpecLexed::NoMatch,
            ),
        )
    }

    fn peek(cursor: &Cursor) -> bool {
        LIdentifier::peek(cursor) || Punct::peek(cursor)
    }

    fn lex(cursor: &mut Cursor) -> LexOutcome<Token> {
        match LIdentifier::lex(cursor) {
            LexOutcome::Matched(v) => {
                return LexOutcome::Matched(Token::Identifier(v));
            },
            LexOutcome::Malformed(e) => {
                return LexOutcome::Malformed(e);
            },
            LexOutcome::NoMatch => {},
        }
        match Punct::lex(cursor) {
            LexOutcome::Matched(v) => LexOutcome::Matched(Token::Punctuator(v)),
            LexOutcome::Malformed(e) => LexOutcome::Malformed(e),
            LexOutcome::NoMatch => LexOutcome::NoMatch,
        }
    }
}

impl Spanned for Token {
    open spec fn spec_span(&self) -> Span {
        match self {
            Token::Identifier(t) => t.spec_span(),
            Token::Punctuator(t) => t.spec_span(),
        }
    }

    fn span(&self) -> Span {
        match self {
            Token::Identifier(t) => t.span(),
            Token::Punctuator(t) => t.span(),
        }
    }
}

/// One element of the input stream: a line terminator, whitespace, a
/// comment, or a token, tried in that order. Trivia is yielded, never
/// discarded; downstream consumers filter it as their grammar needs.
#[derive(Debug, Clone, Copy, PartialEq, Eq, Structural)]
pub enum InputElement {
    LineTerminator(LineTerminator),
    WhiteSpace(WhiteSpace),
    Comment(Comment),
    Token(Token),
}

impl Lex for InputElement {
    open spec fn spec_lex(text: Seq<char>, pos: int) -> SpecLexed<InputElement> {
        spec_alt(
            LineTerminator::spec_lex(text, pos),
            |v: LineTerminator| InputElement::LineTerminator(v),
            spec_alt(
                WhiteSpace::spec_lex(text, pos),
                |v: WhiteSpace| InputElement::WhiteSpace(v),
                spec_alt(
                    Comment::spec_lex(text, pos),
                    |v: Comment| InputElement::Comment(v),
                    spec_alt(
                        Token::spec_lex(text, pos),
                        |v: Token| InputElement::Token(v),
                        SpecLexed::NoMatch,
                    ),
                ),
            ),
        )
    }

    fn peek(cursor: &Cursor) -> bool {
        LineTerminator::peek(cursor) || WhiteSpace::peek(cursor) || Comment::peek(cursor)
            || Token::peek(cursor)
    }

    fn lex(cursor: &mut Cursor) -> LexOutcome<InputElement> {
        match LineTerminator::lex(cursor) {
            LexOutcome::Matched(v) => {
                return LexOutcome::Matched(InputElement::LineTerminator(v));
            },
            LexOutcome::Malformed(e) => {
                return LexOutcome::Malformed(e);
            },
            LexOutcome::NoMatch => {},
        }
        match WhiteSpace::lex(cursor) {
            LexOutcome::Matched(v) => {
                return LexOutcome::Matched(InputElement::WhiteSpace(v));
            },
            LexOutcome::Malformed(e) => {
                return LexOutcome::Malformed(e);
            },
            LexOutcome::NoMatch => {},
        }
        match Comment::lex(cursor) {
            LexOutcome::Matched(v) => {
                return LexOutcome::Matched(InputElement::Comment(v));
            },
            LexOutcome::Malformed(e) => {
                return LexOutcome::Malformed(e);
            },
            LexOutcome::NoMatch => {},
        }
        match Token::lex(cursor) {
            LexOutcome::Matched(v) => LexOutcome::Matched(InputElement::Token(v)),
            LexOutcome::Malformed(e) => LexOutcome::Malformed(e),
            LexOutcome::NoMatch => LexOutcome::NoMatch,
        }
    }
}

impl Spanned for InputElement {
    open spec fn spec_span(&self) -> Span {
        match self {
            InputElement::LineTerminator(t) => t.spec_span(),
            InputElement::WhiteSpace(t) => t.spec_span(),
            InputElement::Comment(t) => t.spec_span(),
            InputElement::Token(t) => t.spec_span(),
        }
    }

    fn span(&self) -> Span {
        match self {
            InputElement::LineTerminator(t) => t.span(),
            InputElement::WhiteSpace(t) => t.span(),
            InputElement::Comment(t) => t.span(),
            InputElement::Token(t) => t.span(),
        }
    }
}

} // verus!
