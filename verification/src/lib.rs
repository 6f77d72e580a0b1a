//! Lexical analysis core for a JSON5 / ECMAScript-literal text format:
//! a forkable source cursor, exact source spans with a combination algebra,
//! a peek/lex capability with combinators, and the lexers for trivia,
//! identifiers, punctuators and escape sequences.

pub mod cursor;
pub mod escapes;
pub mod ident;
pub mod lex;
pub mod punct;
pub mod span;
pub mod tokens;
pub mod trivia;
pub mod unicode;
