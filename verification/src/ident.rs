//! The identifier lexer: Unicode-category-driven start / continue
//! classification, with escape-sequence lookahead.

use vstd::prelude::*;

use crate::cursor::Cursor;
use crate::escapes::{spec_is_hex_digit, HexDigit};
use crate::lex::{Lex, LexOutcome, SpecLexed};
use crate::span::{Span, Spanned};
use crate::unicode::{minor_category, minor_category_of, CharCat};

verus! {

/// A Unicode letter: the uppercase, lowercase, titlecase, modifier and
/// other letter categories, or the letter-number category.
pub open spec fn spec_is_unicode_letter(c: char) -> bool {
    ||| minor_category_of(c) is Lu
    ||| minor_category_of(c) is Ll
    ||| minor_category_of(c) is Lt
    ||| minor_category_of(c) is Lm
    ||| minor_category_of(c) is Lo
    ||| minor_category_of(c) is Nl
}

/// A Unicode combining mark: nonspacing or spacing combining.
pub open spec fn spec_is_unicode_combining_mark(c: char) -> bool {
    minor_category_of(c) is Mn || minor_category_of(c) is Mc
}

/// A Unicode decimal digit.
pub open spec fn spec_is_unicode_digit(c: char) -> bool {
    minor_category_of(c) is Nd
}

/// Unicode connector punctuation.
pub open spec fn spec_is_unicode_connector_punctuation(c: char) -> bool {
    minor_category_of(c) is Pc
}

/// A backslash at `pos` begins a full Unicode escape: `\` then `u` and
/// four hexadecimal digits.
pub open spec fn spec_unicode_escape_at(text: Seq<char>, pos: int) -> bool {
    &&& pos + 6 <= text.len()
    &&& text[pos] == '\\'
    &&& text[pos + 1] == 'u'
    &&& spec_is_hex_digit(text[pos + 2])
    &&& spec_is_hex_digit(text[pos + 3])
    &&& spec_is_hex_digit(text[pos + 4])
    &&& spec_is_hex_digit(text[pos + 5])
}

/// The character at `pos` may begin an identifier: a Unicode letter,
/// `$`, `_`, or a backslash that begins a valid Unicode escape — a bare
/// backslash is not sufficient.
pub open spec fn spec_identifier_start_at(text: Seq<char>, pos: int) -> bool {
    0 <= pos < text.len() && {
        ||| spec_is_unicode_letter(text[pos])
        ||| text[pos] == '$'
        ||| text[pos] == '_'
        ||| (text[pos] == '\\' && spec_unicode_escape_at(text, pos))
    }
}

/// The character at `pos` may continue an identifier: anything that may
/// begin one, a combining mark, a decimal digit, connector punctuation,
/// or the zero-width non-joiner / joiner.
pub open spec fn spec_identifier_part_at(text: Seq<char>, pos: int) -> bool {
    ||| spec_identifier_start_at(text, pos)
    ||| (0 <= pos < text.len() && {
        ||| spec_is_unicode_combining_mark(text[pos])
        ||| spec_is_unicode_digit(text[pos])
        ||| spec_is_unicode_connector_punctuation(text[pos])
        ||| text[pos] == '\u{200c}'
        ||| text[pos] == '\u{200d}'
    })
}

/// The first position at or after `pos` whose character cannot continue
/// an identifier, or the end of the text.
pub open spec fn identifier_end(text: Seq<char>, pos: int) -> int
    decreases text.len() - pos,
{
    if 0 <= pos < text.len() && spec_identifier_part_at(text, pos) {
        identifier_end(text, pos + 1)
    } else {
        pos
    }
}

proof fn lemma_identifier_end_bounds(text: Seq<char>, pos: int)
    requires
        0 <= pos <= text.len(),
    ensures
        pos <= identifier_end(text, pos) <= text.len(),
    decreases text.len() - pos,
{
    if 0 <= pos < text.len() && spec_identifier_part_at(text, pos) {
        lemma_identifier_end_bounds(text, pos + 1);
    }
}

/// An identifier name, compliant with the ECMAScript `IdentifierName`
/// production.
#[derive(Debug, Clone, Copy, PartialEq, Eq, Structural)]
pub struct LIdentifier(pub Span);

impl LIdentifier {
    fn is_unicode_letter(ch: &char) -> (r: bool)
        ensures
            r == spec_is_unicode_letter(*ch),
    {
        let cat = minor_category(*ch);
        cat == CharCat::Lu || cat == CharCat::Ll || cat == CharCat::Lt || cat == CharCat::Lm || cat
            == CharCat::Lo || cat == CharCat::Nl
    }

    fn is_unicode_combining_mark(ch: &char) -> (r: bool)
        ensures
            r == spec_is_unicode_combining_mark(*ch),
    {
        let cat = minor_category(*ch);
        cat == CharCat::Mn || cat == CharCat::Mc
    }

    fn is_unicode_digit(ch: &char) -> (r: bool)
        ensures
            r == spec_is_unicode_digit(*ch),
    {
        minor_category(*ch) == CharCat::Nd
    }

    fn is_unicode_connector_punctuation(ch: &char) -> (r: bool)
        ensures
            r == spec_is_unicode_connector_punctuation(*ch),
    {
        minor_category(*ch) == CharCat::Pc
    }

    /// Whether an identifier may start at the cursor's position. For a
    /// backslash the whole Unicode escape is validated by lookahead
    /// before the start decision commits; nothing is consumed.
    pub fn is_identifier_start(input: &Cursor) -> (r: bool)
        requires
            input.wf(),
        ensures
            r == spec_identifier_start_at(input.text(), input.cur()),
    {
        let c = match input.peek() {
            Some(c) => c,
            None => {
                return false;
            },
        };
        if Self::is_unicode_letter(&c) {
            return true;
        }
        if c == '$' || c == '_' {
            return true;
        }
        if c == '\\' {
            let u_next = match input.peek_at(1) {
                Some(c1) => c1 == 'u',
                None => false,
            };
            if !u_next {
                return false;
            }
            let h2 = match input.peek_at(2) {
                Some(d) => HexDigit::is_hex_digit(&d),
                None => false,
            };
            let h3 = match input.peek_at(3) {
                Some(d) => HexDigit::is_hex_digit(&d),
                None => false,
            };
            let h4 = match input.peek_at(4) {
                Some(d) => HexDigit::is_hex_digit(&d),
                None => false,
            };
            let h5 = match input.peek_at(5) {
                Some(d) => HexDigit::is_hex_digit(&d),
                None => false,
            };
            return h2 && h3 && h4 && h5;
        }
        false
    }

    /// Whether an identifier may continue at the cursor's position.
    pub fn is_identifier_part(input: &Cursor) -> (r: bool)
        requires
            input.wf(),
        ensures
            r == spec_identifier_part_at(input.text(), input.cur()),
    {
        if Self::is_identifier_start(input) {
            return true;
        }
        let c = match input.peek() {
            Some(c) => c,
            None => {
                return false;
            },
        };
        Self::is_unicode_combining_mark(&c) || Self::is_unicode_digit(&c)
            || Self::is_unicode_connector_punctuation(&c) || c == '\u{200c}' || c == '\u{200d}'
    }

    /// Whether the middle of an identifier continues at the cursor's
    /// position.
    pub fn peek_middle(input: &Cursor) -> (r: bool)
        requires
            input.wf(),
        ensures
            r == spec_identifier_part_at(input.text(), input.cur()),
    {
        Self::is_identifier_part(input)
    }
}

impl Lex for LIdentifier {
    open spec fn spec_lex(text: Seq<char>, pos: int) -> SpecLexed<LIdentifier> {
        if spec_identifier_start_at(text, pos) {
            let end = identifier_end(text, pos + 1);
            SpecLexed::Matched(
                LIdentifier(Span { start: pos as usize, end: (end - 1) as usize }),
                end,
            )
        } else {
            SpecLexed::NoMatch
        }
    }

    fn peek(cursor: &Cursor) -> bool {
        Self::is_identifier_start(cursor)
    }

    fn lex(cursor: &mut Cursor) -> LexOutcome<LIdentifier> {
        if !Self::is_identifier_start(cursor) {
            return LexOutcome::NoMatch;
        }
        let ghost text0 = cursor.text();
        let ghost pos0 = cursor.cur();
        let start = cursor.pos;
        cursor.take();
        proof {
            lemma_identifier_end_bounds(text0, pos0 + 1);
        }
        while Self::peek_middle(cursor)
            invariant
                cursor.wf(),
                cursor.text() == text0,
                pos0 < cursor.cur() <= text0.len(),
                identifier_end(text0, cursor.cur()) == identifier_end(text0, pos0 + 1),
            decreases text0.len() - cursor.cur(),
        {
            cursor.take();
        }
        let end = cursor.pos - 1;
        LexOutcome::Matched(LIdentifier(Span { start, end }))
    }
}

impl Spanned for LIdentifier {
    open spec fn spec_span(&self) -> Span {
        self.0
    }

    fn span(&self) -> Span {
        self.0
    }
}

} // verus!
