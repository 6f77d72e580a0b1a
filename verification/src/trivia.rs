//! Trivia lexers: whitespace, line terminators and comments.

use vstd::prelude::*;

use crate::cursor::Cursor;
use crate::lex::{lex_verbatim, spec_alt, Lex, LexError, LexOutcome, SpecLexed};
use crate::span::{Span, Spanned};
use crate::unicode::{minor_category, minor_category_of, CharCat};

verus! {

/// A `Vec` holding exactly the two given characters, for literal matching.
fn two_chars(a: char, b: char) -> (v: Vec<char>)
    ensures
        v@ == seq![a, b],
{
    let mut v: Vec<char> = Vec::new();
    v.push(a);
    v.push(b);
    proof {
        assert(v@ =~= seq![a, b]);
    }
    v
}

/// Whitespace per the ECMAScript rule: tab, vertical tab, form feed,
/// space, no-break space, or any character of the Unicode "separator,
/// space" category.
pub open spec fn spec_is_whitespace(c: char) -> bool {
    ||| c == '\u{0009}'
    ||| c == '\u{000b}'
    ||| c == '\u{000c}'
    ||| c == '\u{0020}'
    ||| c == '\u{00a0}'
    ||| minor_category_of(c) is Zs
}

/// The first position at or after `pos` whose character is not
/// whitespace, or the end of the text.
pub open spec fn whitespace_run_end(text: Seq<char>, pos: int) -> int
    decreases text.len() - pos,
{
    if 0 <= pos < text.len() && spec_is_whitespace(text[pos]) {
        whitespace_run_end(text, pos + 1)
    } else {
        pos
    }
}

proof fn lemma_whitespace_run_end_bounds(text: Seq<char>, pos: int)
    requires
        0 <= pos <= text.len(),
    ensures
        pos <= whitespace_run_end(text, pos) <= text.len(),
    decreases text.len() - pos,
{
    if 0 <= pos < text.len() && spec_is_whitespace(text[pos]) {
        lemma_whitespace_run_end_bounds(text, pos + 1);
    }
}

/// A maximal run of one or more whitespace characters.
#[derive(Debug, Clone, Copy, PartialEq, Eq, Structural)]
pub struct WhiteSpace(pub Span);

impl WhiteSpace {
    /// In accordance with the ECMAScript whitespace rule.
    pub fn is_whitespace(ch: &char) -> (r: bool)
        ensures
            r == spec_is_whitespace(*ch),
    {
        *ch == '\u{0009}' || *ch == '\u{000b}' || *ch == '\u{000c}' || *ch == '\u{0020}' || *ch
            == '\u{00a0}' || minor_category(*ch) == CharCat::Zs
    }
}

impl Lex for WhiteSpace {
    open spec fn spec_lex(text: Seq<char>, pos: int) -> SpecLexed<WhiteSpace> {
        if 0 <= pos < text.len() && spec_is_whitespace(text[pos]) {
            let end = whitespace_run_end(text, pos);
            SpecLexed::Matched(
                WhiteSpace(Span { start: pos as usize, end: (end - 1) as usize }),
                end,
            )
        } else {
            SpecLexed::NoMatch
        }
    }

    fn peek(cursor: &Cursor) -> bool {
        match cursor.peek() {
            Some(c) => WhiteSpace::is_whitespace(&c),
            None => false,
        }
    }

    fn lex(cursor: &mut Cursor) -> LexOutcome<WhiteSpace> {
        let first = match cursor.peek() {
            Some(c) => c,
            None => {
                return LexOutcome::NoMatch;
            },
        };
        if !WhiteSpace::is_whitespace(&first) {
            return LexOutcome::NoMatch;
        }
        let ghost text0 = cursor.text();
        let ghost pos0 = cursor.cur();
        let start = cursor.pos;
        cursor.take();
        while WhiteSpace::peek(cursor)
            invariant
                cursor.wf(),
                cursor.text() == text0,
                pos0 < cursor.cur() <= text0.len(),
                whitespace_run_end(text0, cursor.cur()) == whitespace_run_end(text0, pos0),
            decreases text0.len() - cursor.cur(),
        {
            cursor.take();
        }
        let end = cursor.pos - 1;
        LexOutcome::Matched(WhiteSpace(Span { start, end }))
    }
}

impl Spanned for WhiteSpace {
    open spec fn spec_span(&self) -> Span {
        self.0
    }

    fn span(&self) -> Span {
        self.0
    }
}

/// A line terminator character: LF, CR, LS or PS.
pub open spec fn spec_is_line_terminator(c: char) -> bool {
    ||| c == '\u{000a}'
    ||| c == '\u{000d}'
    ||| c == '\u{2028}'
    ||| c == '\u{2029}'
}

/// In accordance with the ECMAScript line-terminator rule.
pub fn is_line_terminator(ch: &char) -> (r: bool)
    ensures
        r == spec_is_line_terminator(*ch),
{
    *ch == '\u{000a}' || *ch == '\u{000d}' || *ch == '\u{2028}' || *ch == '\u{2029}'
}

/// Exactly one line terminator character, as a single-character span.
#[derive(Debug, Clone, Copy, PartialEq, Eq, Structural)]
pub struct LineTerminator(pub Span);

impl Lex for LineTerminator {
    open spec fn spec_lex(text: Seq<char>, pos: int) -> SpecLexed<LineTerminator> {
        if 0 <= pos < text.len() && spec_is_line_terminator(text[pos]) {
            SpecLexed::Matched(
                LineTerminator(Span { start: pos as usize, end: pos as usize }),
                pos + 1,
            )
        } else {
            SpecLexed::NoMatch
        }
    }

    fn peek(cursor: &Cursor) -> bool {
        match cursor.peek() {
            Some(c) => is_line_terminator(&c),
            None => false,
        }
    }

    fn lex(cursor: &mut Cursor) -> LexOutcome<LineTerminator> {
        match cursor.peek() {
            Some(c) => {
                if is_line_terminator(&c) {
                    let loc = cursor.pos;
                    cursor.take();
                    LexOutcome::Matched(LineTerminator(Span { start: loc, end: loc }))
                } else {
                    LexOutcome::NoMatch
                }
            },
            None => LexOutcome::NoMatch,
        }
    }
}

impl Spanned for LineTerminator {
    open spec fn spec_span(&self) -> Span {
        self.0
    }

    fn span(&self) -> Span {
        self.0
    }
}

/// A logical line break: CR immediately followed by LF counts as one
/// two-character unit; otherwise a single line terminator character.
#[derive(Debug, Clone, Copy, PartialEq, Eq, Structural)]
pub struct LineTerminatorSeq(pub Span);

impl Lex for LineTerminatorSeq {
    open spec fn spec_lex(text: Seq<char>, pos: int) -> SpecLexed<LineTerminatorSeq> {
        if 0 <= pos && pos + 2 <= text.len() && text[pos] == '\u{000d}' && text[pos + 1]
            == '\u{000a}' {
            SpecLexed::Matched(
                LineTerminatorSeq(Span { start: pos as usize, end: (pos + 1) as usize }),
                pos + 2,
            )
        } else if 0 <= pos < text.len() && spec_is_line_terminator(text[pos]) {
            SpecLexed::Matched(
                LineTerminatorSeq(Span { start: pos as usize, end: pos as usize }),
                pos + 1,
            )
        } else {
            SpecLexed::NoMatch
        }
    }

    fn peek(cursor: &Cursor) -> bool {
        match cursor.peek() {
            Some(c) => is_line_terminator(&c),
            None => false,
        }
    }

    fn lex(cursor: &mut Cursor) -> LexOutcome<LineTerminatorSeq> {
        let c = match cursor.peek() {
            Some(c) => c,
            None => {
                return LexOutcome::NoMatch;
            },
        };
        if c == '\u{000d}' {
            let next_is_lf = match cursor.peek_at(1) {
                Some(c2) => c2 == '\u{000a}',
                None => false,
            };
            if next_is_lf {
                let start = cursor.pos;
                cursor.take();
                cursor.take();
                return LexOutcome::Matched(LineTerminatorSeq(Span { start, end: start + 1 }));
            }
        }
        if is_line_terminator(&c) {
            let loc = cursor.pos;
            cursor.take();
            LexOutcome::Matched(LineTerminatorSeq(Span { start: loc, end: loc }))
        } else {
            LexOutcome::NoMatch
        }
    }
}

impl Spanned for LineTerminatorSeq {
    open spec fn spec_span(&self) -> Span {
        self.0
    }

    fn span(&self) -> Span {
        self.0
    }
}

/// The first position at or after `pos` whose character is a line
/// terminator, or the end of the text: where a single-line comment's
/// body stops.
pub open spec fn comment_body_end(text: Seq<char>, pos: int) -> int
    decreases text.len() - pos,
{
    if 0 <= pos < text.len() && !spec_is_line_terminator(text[pos]) {
        comment_body_end(text, pos + 1)
    } else {
        pos
    }
}

proof fn lemma_comment_body_end_bounds(text: Seq<char>, pos: int)
    requires
        0 <= pos <= text.len(),
    ensures
        pos <= comment_body_end(text, pos) <= text.len(),
    decreases text.len() - pos,
{
    if 0 <= pos < text.len() && !spec_is_line_terminator(text[pos]) {
        lemma_comment_body_end_bounds(text, pos + 1);
    }
}

/// A `//` comment: the two slashes and every character up to, but not
/// including, the next line terminator or the end of input. A comment
/// that meets the end of input is accepted.
#[derive(Debug, Clone, Copy, PartialEq, Eq, Structural)]
pub struct SingleLineComment(pub Span);

impl SingleLineComment {
    /// Whether the cursor still stands on a character of the comment body.
    fn in_body(cursor: &Cursor) -> (r: bool)
        requires
            cursor.wf(),
        ensures
            r == (cursor.cur() < cursor.text().len() && !spec_is_line_terminator(
                cursor.text()[cursor.cur()],
            )),
    {
        match cursor.peek() {
            Some(c) => !is_line_terminator(&c),
            None => false,
        }
    }
}

impl Lex for SingleLineComment {
    open spec fn spec_lex(text: Seq<char>, pos: int) -> SpecLexed<SingleLineComment> {
        if 0 <= pos && pos + 2 <= text.len() && text[pos] == '/' && text[pos + 1] == '/' {
            let end = comment_body_end(text, pos + 2);
            SpecLexed::Matched(
                SingleLineComment(Span { start: pos as usize, end: (end - 1) as usize }),
                end,
            )
        } else {
            SpecLexed::NoMatch
        }
    }

    fn peek(cursor: &Cursor) -> bool {
        match cursor.peek() {
            Some(c) => {
                if c == '/' {
                    match cursor.peek_at(1) {
                        Some(c2) => c2 == '/',
                        None => false,
                    }
                } else {
                    false
                }
            },
            None => false,
        }
    }

    fn lex(cursor: &mut Cursor) -> LexOutcome<SingleLineComment> {
        if !Self::peek(cursor) {
            return LexOutcome::NoMatch;
        }
        let ghost text0 = cursor.text();
        let ghost pos0 = cursor.cur();
        let start = cursor.pos;
        let opener = two_chars('/', '/');
        proof {
            assert(text0.subrange(pos0, pos0 + 2) =~= seq!['/', '/']);
            lemma_comment_body_end_bounds(text0, pos0 + 2);
        }
        lex_verbatim(cursor, &opener);
        while Self::in_body(cursor)
            invariant
                cursor.wf(),
                cursor.text() == text0,
                pos0 + 2 <= cursor.cur() <= text0.len(),
                comment_body_end(text0, cursor.cur()) == comment_body_end(text0, pos0 + 2),
            decreases text0.len() - cursor.cur(),
        {
            cursor.take();
        }
        let end = cursor.pos - 1;
        LexOutcome::Matched(SingleLineComment(Span { start, end }))
    }
}

impl Spanned for SingleLineComment {
    open spec fn spec_span(&self) -> Span {
        self.0
    }

    fn span(&self) -> Span {
        self.0
    }
}

/// A `*/` closing marker stands at `pos`.
pub open spec fn spec_close_here(text: Seq<char>, pos: int) -> bool {
    0 <= pos && pos + 2 <= text.len() && text[pos] == '*' && text[pos + 1] == '/'
}

/// The first position at or after `pos` where a `*/` closing marker
/// stands, or the length of the text when there is none.
pub open spec fn multi_comment_close(text: Seq<char>, pos: int) -> int
    decreases text.len() - pos,
{
    if pos + 2 > text.len() {
        text.len() as int
    } else if text[pos] == '*' && text[pos + 1] == '/' {
        pos
    } else {
        multi_comment_close(text, pos + 1)
    }
}

proof fn lemma_multi_comment_close(text: Seq<char>, pos: int)
    requires
        0 <= pos <= text.len(),
    ensures
        pos <= multi_comment_close(text, pos) <= text.len(),
        multi_comment_close(text, pos) < text.len() ==> spec_close_here(
            text,
            multi_comment_close(text, pos),
        ),
    decreases text.len() - pos,
{
    if pos + 2 > text.len() {
    } else if text[pos] == '*' && text[pos + 1] == '/' {
    } else {
        lemma_multi_comment_close(text, pos + 1);
    }
}

/// A `/* ... */` comment. Reaching the end of input before the closing
/// marker is a malformed outcome, not a silently truncated match.
#[derive(Debug, Clone, Copy, PartialEq, Eq, Structural)]
pub struct MultiLineComment(pub Span);

impl MultiLineComment {
    /// Whether a `*/` closing marker stands at the cursor's position.
    pub fn peek_end(input: &Cursor) -> (r: bool)
        requires
            input.wf(),
        ensures
            r == spec_close_here(input.text(), input.cur()),
    {
        match input.peek() {
            Some(c) => {
                if c == '*' {
                    match input.peek_at(1) {
                        Some(c2) => c2 == '/',
                        None => false,
                    }
                } else {
                    false
                }
            },
            None => false,
        }
    }

    /// Whether the scan for the closing marker must go on here.
    fn scanning(cursor: &Cursor) -> (r: bool)
        requires
            cursor.wf(),
        ensures
            r == (cursor.cur() < cursor.text().len() && !spec_close_here(
                cursor.text(),
                cursor.cur(),
            )),
    {
        match cursor.peek() {
            Some(_) => !Self::peek_end(cursor),
            None => false,
        }
    }
}

impl Lex for MultiLineComment {
    open spec fn spec_lex(text: Seq<char>, pos: int) -> SpecLexed<MultiLineComment> {
        if 0 <= pos && pos + 2 <= text.len() && text[pos] == '/' && text[pos + 1] == '*' {
            let close = multi_comment_close(text, pos + 2);
            if close < text.len() {
                SpecLexed::Matched(
                    MultiLineComment(Span { start: pos as usize, end: (close + 1) as usize }),
                    close + 2,
                )
            } else {
                SpecLexed::Malformed(LexError::UnterminatedComment(pos as usize))
            }
        } else {
            SpecLexed::NoMatch
        }
    }

    fn peek(cursor: &Cursor) -> bool {
        match cursor.peek() {
            Some(c) => {
                if c == '/' {
                    match cursor.peek_at(1) {
                        Some(c2) => c2 == '*',
                        None => false,
                    }
                } else {
                    false
                }
            },
            None => false,
        }
    }

    fn lex(cursor: &mut Cursor) -> LexOutcome<MultiLineComment> {
        if !Self::peek(cursor) {
            return LexOutcome::NoMatch;
        }
        let ghost text0 = cursor.text();
        let ghost pos0 = cursor.cur();
        let start = cursor.pos;
        let opener = two_chars('/', '*');
        proof {
            assert(text0.subrange(pos0, pos0 + 2) =~= seq!['/', '*']);
            lemma_multi_comment_close(text0, pos0 + 2);
        }
        lex_verbatim(cursor, &opener);
        while Self::scanning(cursor)
            invariant
                cursor.wf(),
                cursor.text() == text0,
                pos0 + 2 <= cursor.cur() <= text0.len(),
                multi_comment_close(text0, cursor.cur()) == multi_comment_close(text0, pos0 + 2),
            decreases text0.len() - cursor.cur(),
        {
            cursor.take();
        }
        if Self::peek_end(cursor) {
            let ghost close = cursor.cur();
            let closer = two_chars('*', '/');
            proof {
                assert(text0.subrange(close, close + 2) =~= seq!['*', '/']);
            }
            lex_verbatim(cursor, &closer);
            let end = cursor.pos - 1;
            LexOutcome::Matched(MultiLineComment(Span { start, end }))
        } else {
            LexOutcome::Malformed(LexError::UnterminatedComment(start))
        }
    }
}

impl Spanned for MultiLineComment {
    open spec fn spec_span(&self) -> Span {
        self.0
    }

    fn span(&self) -> Span {
        self.0
    }
}

/// A comment of either form.
#[derive(Debug, Clone, Copy, PartialEq, Eq, Structural)]
pub enum Comment {
    MultiLine(MultiLineComment),
    SingleLine(SingleLineComment),
}

impl Lex for Comment {
    open spec fn spec_lex(text: Seq<char>, pos: int) -> SpecLexed<Comment> {
        spec_alt(
            MultiLineComment::spec_lex(text, pos),
            |v: MultiLineComment| Comment::MultiLine(v),
            spec_alt(
                SingleLineComment::spec_lex(text, pos),
                |v: SingleLineComment| Comment::SingleLine(v),
                SpecLexed::NoMatch,
            ),
        )
    }

    fn peek(cursor: &Cursor) -> bool {
        MultiLineComment::peek(cursor) || SingleLineComment::peek(cursor)
    }

    fn lex(cursor: &mut Cursor) -> LexOutcome<Comment> {
        match MultiLineComment::lex(cursor) {
            LexOutcome::Matched(v) => {
                return LexOutcome::Matched(Comment::MultiLine(v));
            },
            LexOutcome::Malformed(e) => {
                return LexOutcome::Malformed(e);
            },
            LexOutcome::NoMatch => {},
        }
        match SingleLineComment::lex(cursor) {
            LexOutcome::Matched(v) => LexOutcome::Matched(Comment::SingleLine(v)),
            LexOutcome::Malformed(e) => LexOutcome::Malformed(e),
            LexOutcome::NoMatch => LexOutcome::NoMatch,
        }
    }
}

impl Spanned for Comment {
    open spec fn spec_span(&self) -> Span {
        match self {
            Comment::MultiLine(t) => t.spec_span(),
            Comment::SingleLine(t) => t.spec_span(),
        }
    }

    fn span(&self) -> Span {
        match self {
            Comment::MultiLine(t) => t.span(),
            Comment::SingleLine(t) => t.span(),
        }
    }
}

} // verus!
