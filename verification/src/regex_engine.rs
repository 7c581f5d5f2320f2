//! Regular expressions through the `regex` crate.
//!
//! What a match yields is named by spec functions: the crate's matching
//! algorithm is not restated here. The verified code states its results
//! over these names.

use vstd::prelude::*;

verus! {

#[verifier::external_type_specification]
#[verifier::external_body]
pub struct ExRegex(regex::Regex);

#[verifier::external_type_specification]
#[verifier::external_body]
pub struct ExRegexError(regex::Error);

/// Whether `regex::Regex::new` accepts `pattern`.
pub uninterp spec fn regex_compiles(pattern: Seq<char>) -> bool;

/// The capture groups of the leftmost-first match of `pattern` in
/// `haystack` (`regex::Regex::captures`): group 0 is the whole match, and a
/// group that took no part in the match is `None`. `None` when nothing
/// matches.
pub uninterp spec fn regex_first_match(pattern: Seq<char>, haystack: Seq<char>) -> Option<
    Seq<Option<Seq<char>>>,
>;

/// The capture groups of each successive non-overlapping match of `pattern`
/// in `haystack` (`regex::Regex::captures_iter`), in order.
pub uninterp spec fn regex_all_matches(pattern: Seq<char>, haystack: Seq<char>) -> Seq<
    Seq<Option<Seq<char>>>,
>;

/// The pattern was refused by the regex compiler.
pub struct InvalidPattern;

/// A compiled regular expression together with the text it was compiled
/// from. Only [`Pattern::compile`] makes one, so `compiled` always stands
/// for `source`.
pub struct Pattern {
    source: String,
    compiled: regex::Regex,
}

/// `regex::Regex::new`: compiles `pattern`. Claimed: it succeeds exactly
/// when the pattern is one the crate accepts, which depends on the pattern
/// alone.
#[verifier::external_body]
fn regex_new(pattern: &str) -> (r: Result<regex::Regex, regex::Error>)
    ensures
        r is Ok == regex_compiles(pattern@),
{
    regex::Regex::new(pattern)
}

/// `regex::Regex::captures`, with each group turned into an owned string.
/// Claimed: the result is `regex_first_match` of the compiled source and
/// the haystack.
#[verifier::external_body]
pub(crate) fn regex_captures(p: &Pattern, haystack: &str) -> (r: Option<Vec<Option<String>>>)
    ensures
        r.deep_view() == regex_first_match(p.source(), haystack@),
{
    p.compiled.captures(haystack).map(
        |c| c.iter().map(|g| g.map(|m| m.as_str().to_string())).collect(),
    )
}

/// `regex::Regex::captures_iter`, collected, with each group turned into an
/// owned string. Claimed: the result is `regex_all_matches` of the compiled
/// source and the haystack.
#[verifier::external_body]
pub(crate) fn regex_captures_iter(p: &Pattern, haystack: &str) -> (r: Vec<Vec<Option<String>>>)
    ensures
        r.deep_view() == regex_all_matches(p.source(), haystack@),
{
    p.compiled.captures_iter(haystack).map(
        |c| c.iter().map(|g| g.map(|m| m.as_str().to_string())).collect(),
    ).collect()
}

impl Pattern {
    /// The text this pattern was compiled from.
    pub closed spec fn source(&self) -> Seq<char> {
        self.source@
    }

    /// Compiles `pattern`; refused exactly when the regex crate refuses it.
    pub fn compile(pattern: &str) -> (r: Result<Pattern, InvalidPattern>)
        ensures
            r is Ok == regex_compiles(pattern@),
            r matches Ok(p) ==> p.source() == pattern@,
    {
        match regex_new(pattern) {
            Ok(re) => Ok(Pattern { source: pattern.to_owned(), compiled: re }),
            Err(_) => Err(InvalidPattern),
        }
    }
}

} // verus!
