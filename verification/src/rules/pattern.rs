//! Matching a title against a configured regular expression.
//!
//! Compiling and matching are done by the `regex` crate. What it returns is
//! not proved here: this module gives each of its answers a name and says
//! what the rules make of them.

use regex::Regex;
use vstd::prelude::*;
use vstd::string::*;

verus! {

/// `regex::Regex`, a compiled regular expression, carried through as an
/// opaque value.
#[verifier::external_type_specification]
#[verifier::external_body]
pub struct ExRegex(regex::Regex);

/// `regex::Error`, the reason why a pattern did not compile, carried through
/// as an opaque value.
#[verifier::external_type_specification]
#[verifier::external_body]
pub struct ExRegexError(regex::Error);

/// What `Regex::new` returns for `pattern`: the compiled expression, or the
/// error that says why there is none.
pub uninterp spec fn compiled(pattern: Seq<char>) -> Result<regex::Regex, regex::Error>;

/// What `Regex::is_match` answers: whether `re` matches anywhere in
/// `haystack`.
pub uninterp spec fn finds_match(re: regex::Regex, haystack: Seq<char>) -> bool;

/// The text that `regex::Error` displays for `e`.
pub uninterp spec fn error_text(e: regex::Error) -> Seq<char>;

/// Trusted, not proved: `regex::Regex::new` parses and compiles its argument
/// under the crate's default limits. It returns the expression, or an error
/// for a pattern that is invalid or compiles to more than the size limit; it
/// does not panic and reads nothing but the pattern. Its result is what
/// [`compiled`] means.
pub assume_specification[ Regex::new ](re: &str) -> (r: Result<Regex, regex::Error>)
    ensures
        r == compiled(re@),
;

/// Trusted, not proved: `regex::Regex::is_match` answers whether there is a
/// match for the expression anywhere in the haystack, from these two alone.
/// Its answer is what [`finds_match`] means.
pub assume_specification[ Regex::is_match ](re: &Regex, haystack: &str) -> (b: bool)
    ensures
        b == finds_match(*re, haystack@),
;

/// Trusted, not proved: `to_string` on a `regex::Error` returns what the
/// crate's `Display` impl writes for it, which is made of the error's own
/// fields alone. That text is what [`error_text`] means.
#[verifier::external_body]
fn describe(e: &regex::Error) -> (r: String)
    ensures
        r@ == error_text(*e),
{
    e.to_string()
}

/// How a pattern fared against a title.
#[derive(Debug, Clone, PartialEq, Eq)]
pub enum PatternOutcome {
    /// The pattern compiled and matches somewhere in the title.
    Matched,
    /// The pattern compiled and matches nowhere in the title.
    Mismatched,
    /// The pattern is no valid regular expression; the reason is given.
    Invalid(String),
}

/// Mathematical model of a [`PatternOutcome`].
pub enum PatternOutcomeView {
    Matched,
    Mismatched,
    Invalid(Seq<char>),
}

impl View for PatternOutcome {
    type V = PatternOutcomeView;

    open spec fn view(&self) -> PatternOutcomeView {
        match self {
            PatternOutcome::Matched => PatternOutcomeView::Matched,
            PatternOutcome::Mismatched => PatternOutcomeView::Mismatched,
            PatternOutcome::Invalid(reason) => PatternOutcomeView::Invalid(reason@),
        }
    }
}

/// The outcome of compiling `pattern` and searching `title` with it.
pub open spec fn pattern_outcome(pattern: Seq<char>, title: Seq<char>) -> PatternOutcomeView {
    match compiled(pattern) {
        Ok(re) => if finds_match(re, title) {
            PatternOutcomeView::Matched
        } else {
            PatternOutcomeView::Mismatched
        },
        Err(e) => PatternOutcomeView::Invalid(error_text(e)),
    }
}

/// Compiles `pattern` and searches `title` with it.
pub fn apply_pattern(pattern: &str, title: &str) -> (outcome: PatternOutcome)
    ensures
        outcome@ == pattern_outcome(pattern@, title@),
{
    match Regex::new(pattern) {
        Ok(re) => {
            if re.is_match(title) {
                PatternOutcome::Matched
            } else {
                PatternOutcome::Mismatched
            }
        },
        Err(e) => PatternOutcome::Invalid(describe(&e)),
    }
}

} // verus!
