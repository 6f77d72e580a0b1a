//! Unicode minor-category classification of characters.
//!
//! The lexical grammar classifies characters by their Unicode general
//! category (letters, combining marks, decimal digits, connector
//! punctuation, space separators). The lookup itself is done by the
//! `finl_unicode` crate; everything built on top of it is verified
//! against the named result `minor_category_of`.

use vstd::prelude::*;

use finl_unicode::categories::{CharacterCategories, MinorCategory};

verus! {

/// The Unicode minor categories that the lexical grammar reads, and
/// `Other` for every remaining one.
#[derive(Debug, Clone, Copy, PartialEq, Eq, Structural)]
pub enum CharCat {
    /// Letter, uppercase.
    Lu,
    /// Letter, lowercase.
    Ll,
    /// Letter, titlecase.
    Lt,
    /// Letter, modifier.
    Lm,
    /// Letter, other.
    Lo,
    /// Number, letter.
    Nl,
    /// Mark, nonspacing.
    Mn,
    /// Mark, spacing combining.
    Mc,
    /// Number, decimal digit.
    Nd,
    /// Punctuation, connector.
    Pc,
    /// Separator, space.
    Zs,
    /// Any category the grammar does not read.
    Other,
}

/// The Unicode minor category of a character, as the built-in table of
/// `finl_unicode` gives it: a function of the character alone.
pub uninterp spec fn minor_category_of(c: char) -> CharCat;

/// Relies on `CharacterCategories::get_minor_category` for `char` from
/// `finl_unicode`: a lookup in the crate's compiled-in Unicode category
/// table, a function of the character alone. Each category the grammar
/// reads is carried over one to one; every other one becomes `Other`.
#[verifier::external_body]
pub(crate) fn minor_category(c: char) -> (r: CharCat)
    ensures
        r == minor_category_of(c),
{
    match c.get_minor_category() {
        MinorCategory::Lu => CharCat::Lu,
        MinorCategory::Ll => CharCat::Ll,
        MinorCategory::Lt => CharCat::Lt,
        MinorCategory::Lm => CharCat::Lm,
        MinorCategory::Lo => CharCat::Lo,
        MinorCategory::Nl => CharCat::Nl,
        MinorCategory::Mn => CharCat::Mn,
        MinorCategory::Mc => CharCat::Mc,
        MinorCategory::Nd => CharCat::Nd,
        MinorCategory::Pc => CharCat::Pc,
        MinorCategory::Zs => CharCat::Zs,
        _ => CharCat::Other,
    }
}

} // verus!
