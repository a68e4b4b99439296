//! Regular-expression matching, supplied by the `regex` crate.
//!
//! The picker treats a query string as a regular expression and matches it
//! unanchored against each source line.  Both the set of syntactically valid
//! patterns and the matching relation itself are the `regex` crate's business;
//! the library names their results and builds its contracts on those names.

use vstd::prelude::*;

verus! {

/// Whether `pat` is a syntactically valid regular expression, i.e. whether
/// `regex::Regex::new` accepts it.  The outcome depends on the pattern alone.
pub uninterp spec fn pattern_valid(pat: Seq<char>) -> bool;

/// Whether the regular expression `pat` matches anywhere in `line`
/// (unanchored substring search).  Defined only through the contracts of the
/// trusted calls below; the outcome depends on the two strings alone.
pub uninterp spec fn pattern_match(pat: Seq<char>, line: Seq<char>) -> bool;

/// Relies on `regex::Regex::new`: it returns `Ok` exactly on syntactically
/// valid patterns (with the crate's default size limits), and never panics.
#[verifier::external_body]
pub(crate) fn pattern_compiles(pat: &str) -> (r: bool)
    ensures
        r == pattern_valid(pat@),
{
    regex::Regex::new(pat).is_ok()
}

/// Relies on `regex::Regex::is_match`: it reports whether the compiled
/// pattern matches anywhere in `line`.  `regex::Regex::new` is known to
/// succeed here because the pattern is valid, so the `unwrap` cannot panic.
#[verifier::external_body]
pub(crate) fn pattern_matches(pat: &str, line: &str) -> (r: bool)
    requires
        pattern_valid(pat@),
    ensures
        r == pattern_match(pat@, line@),
{
    regex::Regex::new(pat).unwrap().is_match(line)
}

} // verus!
