//! The calls that the library makes into code it does not verify, each with
//! the contract that the rest of the library relies on.
use vstd::prelude::*;
use fuzzy_matcher::FuzzyMatcher;

verus! {

/// The extension of a path, as `std::path::Path::extension` finds it.
pub uninterp spec fn path_extension_of(path: Seq<char>) -> Option<Seq<char>>;

/// The lowercase form of a string, as `str::to_lowercase` gives it.
pub uninterp spec fn lower_of(s: Seq<char>) -> Seq<char>;

/// The uppercase form of a string, as `str::to_uppercase` gives it.
pub uninterp spec fn upper_of(s: Seq<char>) -> Seq<char>;

/// The score of `choice` against `pattern` under the skim fuzzy matcher with
/// smart case; `None` where the pattern does not match.
pub uninterp spec fn smart_fuzzy_score(choice: Seq<char>, pattern: Seq<char>) -> Option<i64>;

/// Relies on `std::path::Path::extension`: the part of the final component
/// after its last dot, if any. The result depends on the path alone.
#[verifier::external_body]
pub(crate) fn path_extension(path: &str) -> (r: Option<String>)
    ensures
        r is Some <==> path_extension_of(path@) is Some,
        r is Some ==> path_extension_of(path@) == Some(r->0@),
{
    std::path::Path::new(path).extension().and_then(|e| e.to_str()).map(|e| e.to_string())
}

/// Relies on `str::to_lowercase`: the result depends on the characters alone.
#[verifier::external_body]
pub(crate) fn lowercase(s: &str) -> (r: String)
    ensures
        r@ == lower_of(s@),
{
    s.to_lowercase()
}

/// Relies on `str::to_uppercase`: the result depends on the characters alone.
#[verifier::external_body]
pub(crate) fn uppercase(s: &str) -> (r: String)
    ensures
        r@ == upper_of(s@),
{
    s.to_uppercase()
}

/// Relies on `fuzzy_matcher::skim::SkimMatcherV2::fuzzy_match`, with the
/// default scoring and smart case: the score of `choice` against `pattern`,
/// or `None` where they do not match. The result depends on the two strings
/// alone.
#[verifier::external_body]
pub(crate) fn fuzzy_score(choice: &str, pattern: &str) -> (r: Option<i64>)
    ensures
        r == smart_fuzzy_score(choice@, pattern@),
{
    fuzzy_matcher::skim::SkimMatcherV2::default().smart_case().fuzzy_match(choice, pattern)
}

} // verus!
