use json5_lex::cursor::Cursor;
use json5_lex::escapes::{EscapeSequence, HexEscapeSequence, Null, UnicodeEscapeSequence};
use json5_lex::ident::LIdentifier;
use json5_lex::lex::{lex_verbatim, Lex, LexError, LexOutcome};
use json5_lex::punct::{Dot, Minus, Plus, Punct};
use json5_lex::span::{combine, Span, Spanned};
use json5_lex::tokens::{InputElement, Token};
use json5_lex::trivia::{
    Comment, LineTerminator, LineTerminatorSeq, MultiLineComment, SingleLineComment, WhiteSpace,
};

fn cursor_of(text: &str) -> Cursor {
    Cursor::new(text.chars().collect())
}

#[test]
fn lexxing_tests() {
    let src = "\
        []\n\
        21, 5.65
        {     }:,\n\
        // Single line comment\n\
        /* Multi line Comment\n\
        Wa-hey!*/\r\n
        \"Here's a string!\"\n
        1.234678\t7.2367\t-Infinity";

    println!("{src:?}");
    let iter = &mut cursor_of(src);
    while let LexOutcome::Matched(l) = InputElement::lex(iter) {
        println!("--> {l:?}");
    }
}

#[test]
fn peek_is_idempotent() {
    let cur = cursor_of("ab");
    assert_eq!(cur.peek(), cur.peek());
    assert_eq!(cur.peek(), Some('a'));
    let empty = cursor_of("");
    assert_eq!(empty.peek(), empty.peek());
    assert_eq!(empty.peek(), None);
}

#[test]
fn peek_false_means_no_match_and_no_movement() {
    let mut cur = cursor_of("01");
    assert!(!Null::peek(&cur));
    assert!(matches!(Null::lex(&mut cur), LexOutcome::NoMatch));
    assert_eq!(cur.pos, 0);

    let mut cur = cursor_of("x");
    assert!(!Punct::peek(&cur));
    assert!(matches!(Punct::lex(&mut cur), LexOutcome::NoMatch));
    assert_eq!(cur.pos, 0);
}

#[test]
fn combine_is_associative_on_values() {
    let a = Span { start: 0, end: 2 };
    let b = Span { start: 4, end: 5 };
    let c = Span { start: 6, end: 9 };
    let ab = combine(&vec![a, b]);
    let all = combine(&vec![a, b, c]);
    assert_eq!(combine(&vec![ab, c]), all);
    let bc = combine(&vec![b, c]);
    assert_eq!(combine(&vec![a, bc]), all);
    assert_eq!(all, Span { start: 0, end: 9 });
    assert_eq!(combine(&vec![a]), a);
}

#[test]
fn crlf_is_one_terminator_sequence() {
    let mut cur = cursor_of("\r\n");
    match LineTerminatorSeq::lex(&mut cur) {
        LexOutcome::Matched(t) => assert_eq!(t.span(), Span { start: 0, end: 1 }),
        _ => panic!("CRLF must lex as one sequence"),
    }
    assert_eq!(cur.pos, 2);

    let mut cur = cursor_of("\rx");
    match LineTerminatorSeq::lex(&mut cur) {
        LexOutcome::Matched(t) => assert_eq!(t.span(), Span { start: 0, end: 0 }),
        _ => panic!("bare CR must lex as one terminator"),
    }
    assert_eq!(cur.pos, 1);
}

#[test]
fn null_accepts_zero_without_digit() {
    let mut cur = cursor_of("0x");
    match Null::lex(&mut cur) {
        LexOutcome::Matched(t) => assert_eq!(t.span, Span { start: 0, end: 0 }),
        _ => panic!("0 before a non-digit must match"),
    }
}

#[test]
fn punctuators_whitespace_and_terminator_in_order() {
    let iter = &mut cursor_of("{     }:,\n");
    match InputElement::lex(iter) {
        LexOutcome::Matched(InputElement::Token(Token::Punctuator(Punct::OpenBrace(t)))) => {
            assert_eq!(t.span(), Span { start: 0, end: 0 });
        }
        other => panic!("expected an open brace, got {other:?}"),
    }
    match InputElement::lex(iter) {
        LexOutcome::Matched(InputElement::WhiteSpace(t)) => {
            assert_eq!(t.span(), Span { start: 1, end: 5 });
        }
        other => panic!("expected whitespace, got {other:?}"),
    }
    match InputElement::lex(iter) {
        LexOutcome::Matched(InputElement::Token(Token::Punctuator(Punct::CloseBrace(t)))) => {
            assert_eq!(t.span(), Span { start: 6, end: 6 });
        }
        other => panic!("expected a close brace, got {other:?}"),
    }
    match InputElement::lex(iter) {
        LexOutcome::Matched(InputElement::Token(Token::Punctuator(Punct::Colon(t)))) => {
            assert_eq!(t.span(), Span { start: 7, end: 7 });
        }
        other => panic!("expected a colon, got {other:?}"),
    }
    match InputElement::lex(iter) {
        LexOutcome::Matched(InputElement::Token(Token::Punctuator(Punct::Comma(t)))) => {
            assert_eq!(t.span(), Span { start: 8, end: 8 });
        }
        other => panic!("expected a comma, got {other:?}"),
    }
    match InputElement::lex(iter) {
        LexOutcome::Matched(InputElement::LineTerminator(t)) => {
            assert_eq!(t.span(), Span { start: 9, end: 9 });
        }
        other => panic!("expected a line terminator, got {other:?}"),
    }
    assert!(matches!(InputElement::lex(iter), LexOutcome::NoMatch));
}

#[test]
fn single_line_comment_stops_before_terminator() {
    let iter = &mut cursor_of("// comment\n");
    match InputElement::lex(iter) {
        LexOutcome::Matched(InputElement::Comment(Comment::SingleLine(t))) => {
            assert_eq!(t.span(), Span { start: 0, end: 9 });
        }
        other => panic!("expected a single-line comment, got {other:?}"),
    }
    match InputElement::lex(iter) {
        LexOutcome::Matched(InputElement::LineTerminator(t)) => {
            assert_eq!(t.span(), Span { start: 10, end: 10 });
        }
        other => panic!("expected a line terminator, got {other:?}"),
    }

    let mut cur = cursor_of("//");
    match SingleLineComment::lex(&mut cur) {
        LexOutcome::Matched(t) => assert_eq!(t.span(), Span { start: 0, end: 1 }),
        other => panic!("a comment at end of input is accepted, got {other:?}"),
    }
}

#[test]
fn unterminated_multi_line_comment_is_malformed() {
    let mut cur = cursor_of("/* unterminated");
    match MultiLineComment::lex(&mut cur) {
        LexOutcome::Malformed(LexError::UnterminatedComment(loc)) => assert_eq!(loc, 0),
        other => panic!("expected an unterminated-comment error, got {other:?}"),
    }

    let mut cur = cursor_of("/* ok */x");
    match MultiLineComment::lex(&mut cur) {
        LexOutcome::Matched(t) => assert_eq!(t.span(), Span { start: 0, end: 7 }),
        other => panic!("expected a multi-line comment, got {other:?}"),
    }
    assert_eq!(cur.pos, 8);
}

#[test]
fn multi_line_comment_end_marker_peek() {
    let cur = cursor_of("*/");
    assert!(MultiLineComment::peek_end(&cur));
    let cur = cursor_of("*x");
    assert!(!MultiLineComment::peek_end(&cur));
}

#[test]
fn identifier_spans() {
    let mut cur = cursor_of("$_a1");
    match LIdentifier::lex(&mut cur) {
        LexOutcome::Matched(t) => assert_eq!(t.span(), Span { start: 0, end: 3 }),
        other => panic!("expected an identifier, got {other:?}"),
    }

    let mut cur = cursor_of("_");
    match LIdentifier::lex(&mut cur) {
        LexOutcome::Matched(t) => assert_eq!(t.span(), Span { start: 0, end: 0 }),
        other => panic!("expected an identifier, got {other:?}"),
    }
}

#[test]
fn identifier_uses_unicode_categories() {
    let mut cur = cursor_of("héllo ");
    match LIdentifier::lex(&mut cur) {
        LexOutcome::Matched(t) => assert_eq!(t.span(), Span { start: 0, end: 4 }),
        other => panic!("expected an identifier, got {other:?}"),
    }

    // A combining acute accent continues an identifier.
    let mut cur = cursor_of("a\u{0301}");
    match LIdentifier::lex(&mut cur) {
        LexOutcome::Matched(t) => assert_eq!(t.span(), Span { start: 0, end: 1 }),
        other => panic!("expected an identifier, got {other:?}"),
    }

    // A digit cannot begin an identifier.
    let mut cur = cursor_of("1a");
    assert!(matches!(LIdentifier::lex(&mut cur), LexOutcome::NoMatch));
}

#[test]
fn identifier_backslash_needs_full_escape() {
    let mut cur = cursor_of("\\u0041x");
    match LIdentifier::lex(&mut cur) {
        LexOutcome::Matched(t) => assert_eq!(t.span(), Span { start: 0, end: 6 }),
        other => panic!("expected an identifier, got {other:?}"),
    }

    // A backslash alone is not an identifier start.
    let mut cur = cursor_of("\\u12 ");
    assert!(matches!(LIdentifier::lex(&mut cur), LexOutcome::NoMatch));
    assert_eq!(cur.pos, 0);
}

#[test]
fn whitespace_uses_separator_category() {
    // EN QUAD is in the separator-space category.
    assert!(WhiteSpace::is_whitespace(&'\u{2000}'));
    assert!(WhiteSpace::is_whitespace(&' '));
    assert!(!WhiteSpace::is_whitespace(&'a'));
    assert!(!WhiteSpace::is_whitespace(&'\n'));

    let mut cur = cursor_of(" \t\u{2000}x");
    match WhiteSpace::lex(&mut cur) {
        LexOutcome::Matched(t) => assert_eq!(t.span(), Span { start: 0, end: 2 }),
        other => panic!("expected whitespace, got {other:?}"),
    }
}

#[test]
fn hex_escape_digit_count_errors() {
    let mut cur = cursor_of("x2");
    match HexEscapeSequence::lex(&mut cur) {
        LexOutcome::Malformed(LexError::InvalidEscapeDigitCount(loc)) => assert_eq!(loc, 2),
        other => panic!("expected a digit-count error, got {other:?}"),
    }

    let mut cur = cursor_of("ug");
    match UnicodeEscapeSequence::lex(&mut cur) {
        LexOutcome::Malformed(LexError::InvalidEscapeDigitCount(loc)) => assert_eq!(loc, 1),
        other => panic!("expected a digit-count error, got {other:?}"),
    }

    let mut cur = cursor_of("x2f");
    match HexEscapeSequence::lex(&mut cur) {
        LexOutcome::Matched(t) => {
            assert_eq!(t.span(), Span { start: 0, end: 2 });
            assert_eq!(t.d0.raw, '2');
            assert_eq!(t.d1.raw, 'f');
        }
        other => panic!("expected a hex escape, got {other:?}"),
    }
}

#[test]
fn leading_zero_before_digit_is_ambiguous() {
    let mut cur = cursor_of("01");
    match EscapeSequence::lex(&mut cur) {
        LexOutcome::Malformed(LexError::AmbiguousLeadingZero(loc)) => assert_eq!(loc, 0),
        other => panic!("expected an ambiguous-zero error, got {other:?}"),
    }
}

#[test]
fn verbatim_matches_whole_literal_only() {
    let mut cur = cursor_of("abc");
    let lit = vec!['a', 'b', 'c'];
    match lex_verbatim(&mut cur, &lit) {
        Some(sp) => assert_eq!(sp, Span { start: 0, end: 2 }),
        None => panic!("the literal stands next"),
    }
    assert_eq!(cur.pos, 3);

    let mut cur = cursor_of("abd");
    assert!(lex_verbatim(&mut cur, &lit).is_none());
    assert_eq!(cur.pos, 0);
}

#[test]
fn span_construction() {
    assert_eq!(Span::single_char(3), Span { start: 3, end: 3 });
    assert_eq!(Span::range(2, 5), Some(Span { start: 2, end: 5 }));
    assert_eq!(Span::range(5, 2), None);
}

#[test]
fn numeric_context_punctuators() {
    let mut cur = cursor_of("-");
    match Minus::lex(&mut cur) {
        LexOutcome::Matched(t) => assert_eq!(t.span(), Span { start: 0, end: 0 }),
        other => panic!("expected a minus, got {other:?}"),
    }
    let mut cur = cursor_of("+");
    match Plus::lex(&mut cur) {
        LexOutcome::Matched(t) => assert_eq!(t.span(), Span { start: 0, end: 0 }),
        other => panic!("expected a plus, got {other:?}"),
    }
    let mut cur = cursor_of(".");
    match Dot::lex(&mut cur) {
        LexOutcome::Matched(t) => assert_eq!(t.span(), Span { start: 0, end: 0 }),
        other => panic!("expected a dot, got {other:?}"),
    }
    let mut cur = cursor_of("x");
    assert!(matches!(Minus::lex(&mut cur), LexOutcome::NoMatch));
}

#[test]
fn fork_is_independent() {
    let cur = cursor_of("xyz");
    let mut fork = cur.fork();
    assert_eq!(fork.take(), Some((0, 'x')));
    assert_eq!(fork.take(), Some((1, 'y')));
    assert_eq!(cur.peek(), Some('x'));
    assert_eq!(cur.pos, 0);
}
