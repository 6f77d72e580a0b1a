use json5_lex::cursor::Cursor;
use json5_lex::escapes::{
    CharacterEscapeSequence, EscapeSequence, HexEscapeSequence, NonEscapeChar, Null,
    SingleEscapeChar, UnicodeEscapeSequence,
};
use json5_lex::lex::{lex_exactly, Lex, LexOutcome};

fn cursor_of(text: &str) -> Cursor {
    Cursor::new(text.chars().collect())
}

#[test]
fn single_escape() {
    let mut input = cursor_of("'\"\\bfnrtv");
    let esc: Vec<SingleEscapeChar> = match lex_exactly(&mut input, 9) {
        LexOutcome::Matched(v) => v,
        _ => panic!("Valid parse"),
    };
    let raws: Vec<char> = esc.iter().map(|e| e.raw).collect();
    assert_eq!(raws, vec!['\'', '"', '\\', 'b', 'f', 'n', 'r', 't', 'v']);
}

#[test]
fn non_escape_char() {
    let mut input = cursor_of("a!£%*&-=💩");
    let esc: Vec<NonEscapeChar> = match lex_exactly(&mut input, 9) {
        LexOutcome::Matched(v) => v,
        _ => panic!("Valid parse"),
    };
    let raws: Vec<char> = esc.iter().map(|e| e.raw).collect();
    assert_eq!(raws, vec!['a', '!', '£', '%', '*', '&', '-', '=', '💩']);
}

#[test]
fn character_escape_sequence() {
    let mut input = cursor_of("'\"\\bfnrtva!£%*&-=💩");
    let esc: Vec<CharacterEscapeSequence> = match lex_exactly(&mut input, 18) {
        LexOutcome::Matched(v) => v,
        _ => panic!("Valid parse"),
    };
    assert!(matches!(esc[0], CharacterEscapeSequence::Single(SingleEscapeChar { raw: '\'', .. })));
    assert!(matches!(esc[1], CharacterEscapeSequence::Single(SingleEscapeChar { raw: '"', .. })));
    assert!(matches!(esc[2], CharacterEscapeSequence::Single(SingleEscapeChar { raw: '\\', .. })));
    assert!(matches!(esc[3], CharacterEscapeSequence::Single(SingleEscapeChar { raw: 'b', .. })));
    assert!(matches!(esc[4], CharacterEscapeSequence::Single(SingleEscapeChar { raw: 'f', .. })));
    assert!(matches!(esc[5], CharacterEscapeSequence::Single(SingleEscapeChar { raw: 'n', .. })));
    assert!(matches!(esc[6], CharacterEscapeSequence::Single(SingleEscapeChar { raw: 'r', .. })));
    assert!(matches!(esc[7], CharacterEscapeSequence::Single(SingleEscapeChar { raw: 't', .. })));
    assert!(matches!(esc[8], CharacterEscapeSequence::Single(SingleEscapeChar { raw: 'v', .. })));
    assert!(matches!(esc[9], CharacterEscapeSequence::NonEscape(NonEscapeChar { raw: 'a', .. })));
    assert!(matches!(esc[10], CharacterEscapeSequence::NonEscape(NonEscapeChar { raw: '!', .. })));
    assert!(matches!(esc[11], CharacterEscapeSequence::NonEscape(NonEscapeChar { raw: '£', .. })));
    assert!(matches!(esc[12], CharacterEscapeSequence::NonEscape(NonEscapeChar { raw: '%', .. })));
    assert!(matches!(esc[13], CharacterEscapeSequence::NonEscape(NonEscapeChar { raw: '*', .. })));
    assert!(matches!(esc[14], CharacterEscapeSequence::NonEscape(NonEscapeChar { raw: '&', .. })));
    assert!(matches!(esc[15], CharacterEscapeSequence::NonEscape(NonEscapeChar { raw: '-', .. })));
    assert!(matches!(esc[16], CharacterEscapeSequence::NonEscape(NonEscapeChar { raw: '=', .. })));
    assert!(matches!(esc[17], CharacterEscapeSequence::NonEscape(NonEscapeChar { raw: '💩', .. })));
}

#[test]
fn null_char() {
    {
        let mut input = cursor_of("0");
        match Null::lex(&mut input) {
            LexOutcome::Matched(_) => {}
            _ => panic!("Valid parse"),
        }
    }

    {
        let mut input = cursor_of("01");
        let esc = Null::lex(&mut input);
        assert!(matches!(esc, LexOutcome::NoMatch));
    }
}

#[test]
fn hex_escape() {
    let mut input = cursor_of("x20x26x25x3c");
    let esc: Vec<HexEscapeSequence> = match lex_exactly(&mut input, 4) {
        LexOutcome::Matched(v) => v,
        _ => panic!("Valid parse"),
    };
    assert_eq!(esc.len(), 4);
}

#[test]
fn unicode_escape() {
    let mut input = cursor_of("u0000u2AFCu6798u1623");
    let esc: Vec<UnicodeEscapeSequence> = match lex_exactly(&mut input, 4) {
        LexOutcome::Matched(v) => v,
        _ => panic!("Valid parse"),
    };
    assert_eq!(esc.len(), 4);
}

#[test]
fn mixed() {
    let mut input = cursor_of("'\"\\bfnrtva!£%*&-=💩0x20x26x25x3cu0000u2AFCu6798u1623");
    let esc: Vec<EscapeSequence> = match lex_exactly(&mut input, 27) {
        LexOutcome::Matched(v) => v,
        _ => panic!("Valid parse"),
    };
    let singles = ['\'', '"', '\\', 'b', 'f', 'n', 'r', 't', 'v'];
    for i in 0..9 {
        match esc[i] {
            EscapeSequence::CharacterEscapeSequence(CharacterEscapeSequence::Single(
                SingleEscapeChar { raw, .. },
            )) => assert_eq!(raw, singles[i]),
            other => panic!("expected a single escape, got {other:?}"),
        }
    }
    let non_escapes = ['a', '!', '£', '%', '*', '&', '-', '=', '💩'];
    for i in 9..18 {
        match esc[i] {
            EscapeSequence::CharacterEscapeSequence(CharacterEscapeSequence::NonEscape(
                NonEscapeChar { raw, .. },
            )) => assert_eq!(raw, non_escapes[i - 9]),
            other => panic!("expected a non-escape character, got {other:?}"),
        }
    }
    assert!(matches!(esc[18], EscapeSequence::Null(Null { .. })));
    for i in 19..23 {
        assert!(matches!(esc[i], EscapeSequence::HexEscapeSequence(_)));
    }
    for i in 23..27 {
        assert!(matches!(esc[i], EscapeSequence::UnicodeEscapeSequence(_)));
    }
}
