//! Regular-expression rewriting of text, through the `regex` crate.
//!
//! What a pattern matches and what a replacement expands to is the `regex`
//! crate's business: the results are named here, not restated. The library
//! states its own text transformations as a sequence of such rewrites.

use vstd::prelude::*;

verus! {

/// Whether `regex::Regex::new` accepts `pattern`.
pub uninterp spec fn regex_compiles(pattern: Seq<char>) -> bool;

/// What `Regex::replace_all` gives for the compiled `pattern`, the haystack
/// `text` and the replacement template `rep`.
pub uninterp spec fn regex_replace_all(pattern: Seq<char>, text: Seq<char>, rep: Seq<char>) -> Seq<char>;

/// What `Regex::replace` (first match only) gives for the compiled
/// `pattern`, the haystack `text` and the replacement template `rep`.
pub uninterp spec fn regex_replace_first(pattern: Seq<char>, text: Seq<char>, rep: Seq<char>) -> Seq<char>;

/// Compiles `pattern` with `regex::Regex::new` and, when it compiles,
/// replaces every match in `text` by the template `rep` with
/// `Regex::replace_all`. Claims: the result is present exactly when the
/// pattern compiles, and is then the named replacement result of these
/// three arguments.
#[verifier::external_body]
fn replace_all_matches(pattern: &str, text: &str, rep: &str) -> (r: Option<String>)
    ensures
        r is Some <==> regex_compiles(pattern@),
        r matches Some(s) ==> s@ == regex_replace_all(pattern@, text@, rep@),
{
    match regex::Regex::new(pattern) {
        Ok(re) => Some(re.replace_all(text, rep).into_owned()),
        Err(_) => None,
    }
}

/// Compiles `pattern` with `regex::Regex::new` and, when it compiles,
/// replaces the first match in `text` by the template `rep` with
/// `Regex::replace`. Claims: the result is present exactly when the
/// pattern compiles, and is then the named replacement result of these
/// three arguments.
#[verifier::external_body]
fn replace_first_match(pattern: &str, text: &str, rep: &str) -> (r: Option<String>)
    ensures
        r is Some <==> regex_compiles(pattern@),
        r matches Some(s) ==> s@ == regex_replace_first(pattern@, text@, rep@),
{
    match regex::Regex::new(pattern) {
        Ok(re) => Some(re.replace(text, rep).into_owned()),
        Err(_) => None,
    }
}

/// One rewriting step: every match of `pattern` in `text` replaced by
/// `rep`; the text unchanged when the pattern does not compile.
pub open spec fn rewrite_all(pattern: Seq<char>, text: Seq<char>, rep: Seq<char>) -> Seq<char> {
    if regex_compiles(pattern) {
        regex_replace_all(pattern, text, rep)
    } else {
        text
    }
}

/// One rewriting step on the first match of `pattern` only; the text
/// unchanged when the pattern does not compile.
pub open spec fn rewrite_first(pattern: Seq<char>, text: Seq<char>, rep: Seq<char>) -> Seq<char> {
    if regex_compiles(pattern) {
        regex_replace_first(pattern, text, rep)
    } else {
        text
    }
}

/// Every match of `pattern` in `text` replaced by the template `rep`.
pub fn replace_all(pattern: &str, text: &str, rep: &str) -> (r: String)
    ensures
        r@ == rewrite_all(pattern@, text@, rep@),
{
    match replace_all_matches(pattern, text, rep) {
        Some(s) => s,
        None => String::from_str(text),
    }
}

/// The first match of `pattern` in `text` replaced by the template `rep`.
pub fn replace_first(pattern: &str, text: &str, rep: &str) -> (r: String)
    ensures
        r@ == rewrite_first(pattern@, text@, rep@),
{
    match replace_first_match(pattern, text, rep) {
        Some(s) => s,
        None => String::from_str(text),
    }
}

} // verus!
