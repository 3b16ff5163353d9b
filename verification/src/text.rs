//! Normalization of a typed guess before it is compared with a capital:
//! surrounding whitespace is dropped and the comparison ignores case.

use vstd::prelude::*;

verus! {

/// The lowercase form of a piece of text, as `str::to_lowercase` produces it.
pub uninterp spec fn lower_of(s: Seq<char>) -> Seq<char>;

/// A piece of text with its leading and trailing whitespace removed, as
/// `str::trim` produces it.
pub uninterp spec fn trimmed_of(s: Seq<char>) -> Seq<char>;

/// A guess matches a capital when, once its surrounding whitespace is
/// removed, it equals the capital up to case. No other normalization is
/// applied.
pub open spec fn answer_matches(raw: Seq<char>, capital: Seq<char>) -> bool {
    lower_of(trimmed_of(raw)) == lower_of(capital)
}

/// Relies on str::to_lowercase: the lowercase form is a function of the
/// characters alone.
#[verifier::external_body]
fn lowercase(s: &str) -> (r: String)
    ensures
        r@ == lower_of(s@),
{
    s.to_lowercase()
}

/// Relies on str::trim: the text left after removing surrounding whitespace
/// is a function of the characters alone.
#[verifier::external_body]
fn trim_text(s: &str) -> (r: String)
    ensures
        r@ == trimmed_of(s@),
{
    s.trim().to_owned()
}

/// Whether the raw guess, once trimmed, equals the capital up to case.
pub fn matches_capital(raw: &str, capital: &str) -> (r: bool)
    ensures
        r == answer_matches(raw@, capital@),
{
    let guess = lowercase(trim_text(raw).as_str());
    let expected = lowercase(capital);
    guess == expected
}

} // verus!
