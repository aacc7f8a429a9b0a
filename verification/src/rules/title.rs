//! The title rule: an optional pattern and optional bounds on the length.
//!
//! The three checks are independent of one another. Their violations come in
//! the order pattern, least length, greatest length. A pattern that is no
//! valid regular expression is reported as a violation and stops nothing.

use crate::config::{TitleRule, TitleRuleView};
use crate::github::PullRequest;
use crate::rules::pattern::{apply_pattern, pattern_outcome, PatternOutcome, PatternOutcomeView};
use crate::rules::{lemma_messages_concat, messages, violation, RuleResult, Violation};
use crate::text::{byte_len, byte_length, decimal, decimal_string};
use vstd::prelude::*;
use vstd::string::*;

verus! {

/// Text of the violation for a title in which the pattern finds no match.
pub open spec fn mismatch_message(title: Seq<char>, pattern: Seq<char>) -> Seq<char> {
    "PR title '"@ + title + "' does not match required pattern: "@ + pattern
}

/// Text of the violation for a pattern that does not compile.
pub open spec fn invalid_pattern_message(pattern: Seq<char>, reason: Seq<char>) -> Seq<char> {
    "Invalid regex pattern '"@ + pattern + "': "@ + reason
}

/// Text of the violation for a title of `len` bytes where `min` are asked.
pub open spec fn too_short_message(title: Seq<char>, len: nat, min: nat) -> Seq<char> {
    "PR title '"@ + title + "' is too short ("@ + decimal(len) + " chars), minimum required: "@
        + decimal(min)
}

/// Text of the violation for a title of `len` bytes where `max` are allowed.
pub open spec fn too_long_message(title: Seq<char>, len: nat, max: nat) -> Seq<char> {
    "PR title '"@ + title + "' is too long ("@ + decimal(len) + " chars), maximum allowed: "@
        + decimal(max)
}

/// What the pattern check reports for an outcome: nothing for a match, one
/// message otherwise.
pub open spec fn outcome_messages(
    title: Seq<char>,
    pattern: Seq<char>,
    outcome: PatternOutcomeView,
) -> Seq<Seq<char>> {
    match outcome {
        PatternOutcomeView::Matched => Seq::empty(),
        PatternOutcomeView::Mismatched => seq![mismatch_message(title, pattern)],
        PatternOutcomeView::Invalid(reason) => seq![invalid_pattern_message(pattern, reason)],
    }
}

/// What the pattern check reports; nothing where no pattern is configured.
pub open spec fn pattern_messages(title: Seq<char>, pattern: Option<Seq<char>>) -> Seq<Seq<char>> {
    match pattern {
        Some(p) => outcome_messages(title, p, pattern_outcome(p, title)),
        None => Seq::empty(),
    }
}

/// What the check of the least length reports.
pub open spec fn min_length_messages(title: Seq<char>, min_length: Option<nat>) -> Seq<Seq<char>> {
    match min_length {
        Some(min) if byte_len(title) < min => seq![too_short_message(title, byte_len(title), min)],
        _ => Seq::empty(),
    }
}

/// What the check of the greatest length reports.
pub open spec fn max_length_messages(title: Seq<char>, max_length: Option<nat>) -> Seq<Seq<char>> {
    match max_length {
        Some(max) if byte_len(title) > max => seq![too_long_message(title, byte_len(title), max)],
        _ => Seq::empty(),
    }
}

/// What the two length checks report, the least length first.
pub open spec fn length_messages(title: Seq<char>, rule: TitleRuleView) -> Seq<Seq<char>> {
    min_length_messages(title, rule.min_length) + max_length_messages(title, rule.max_length)
}

/// Everything the title rule reports for `title`, in order.
pub open spec fn title_messages(title: Seq<char>, rule: TitleRuleView) -> Seq<Seq<char>> {
    pattern_messages(title, rule.pattern) + length_messages(title, rule)
}

/// Turns the outcome of the pattern check into its violations.
pub fn pattern_violations(title: &str, pattern: &str, outcome: &PatternOutcome) -> (r: RuleResult)
    ensures
        messages(r@) == outcome_messages(title@, pattern@, outcome@),
{
    let mut r: Vec<Violation> = Vec::new();
    match outcome {
        PatternOutcome::Matched => {},
        PatternOutcome::Mismatched => {
            let mut m = String::from_str("PR title '");
            m.append(title);
            m.append("' does not match required pattern: ");
            m.append(pattern);
            r.push(violation(m));
        },
        PatternOutcome::Invalid(reason) => {
            let mut m = String::from_str("Invalid regex pattern '");
            m.append(pattern);
            m.append("': ");
            m.append(reason.as_str());
            r.push(violation(m));
        },
    }
    r
}

/// Checks the length of `title` against the bounds of `rule`.
pub fn length_violations(title: &str, rule: &TitleRule) -> (r: RuleResult)
    ensures
        messages(r@) == length_messages(title@, rule@),
{
    let mut r: Vec<Violation> = Vec::new();
    let len = byte_length(title);
    if let Some(min) = rule.min_length {
        if len < min {
            let mut m = String::from_str("PR title '");
            m.append(title);
            m.append("' is too short (");
            m.append(decimal_string(len as u64).as_str());
            m.append(" chars), minimum required: ");
            m.append(decimal_string(min as u64).as_str());
            r.push(violation(m));
        }
    }
    if let Some(max) = rule.max_length {
        if len > max {
            let mut m = String::from_str("PR title '");
            m.append(title);
            m.append("' is too long (");
            m.append(decimal_string(len as u64).as_str());
            m.append(" chars), maximum allowed: ");
            m.append(decimal_string(max as u64).as_str());
            r.push(violation(m));
        }
    }
    r
}

/// Checks the title of `pr` against `rule`.
pub fn check_title(pr: &PullRequest, rule: &TitleRule) -> (r: RuleResult)
    ensures
        messages(r@) == title_messages(pr@.title, rule@),
{
    let title = pr.title.as_str();
    let mut r: Vec<Violation> = Vec::new();
    if let Some(pattern) = &rule.pattern {
        let outcome = apply_pattern(pattern.as_str(), title);
        r = pattern_violations(title, pattern.as_str(), &outcome);
    }
    let mut by_length = length_violations(title, rule);
    proof {
        lemma_messages_concat(r@, by_length@);
    }
    r.append(&mut by_length);
    r
}

/// With nothing but a pattern configured, a title draws no violation where
/// the pattern finds a match in it and exactly one where it finds none; a
/// pattern that does not compile draws exactly one as well.
pub proof fn lemma_pattern_alone(title: Seq<char>, pattern: Seq<char>)
    ensures
        ({
            let rule = TitleRuleView { pattern: Some(pattern), min_length: None, max_length: None };
            let found = title_messages(title, rule);
            &&& found.len() <= 1
            &&& found.len() == 1 <==> !(pattern_outcome(pattern, title) is Matched)
            &&& pattern_outcome(pattern, title) is Mismatched ==> found == seq![
                mismatch_message(title, pattern),
            ]
        }),
{
}

/// The two length checks do not depend on one another: each fires by its own
/// bound alone, and both can fire for one title only where the least length
/// is set above the greatest.
pub proof fn lemma_length_checks_independent(title: Seq<char>, rule: TitleRuleView)
    ensures
        min_length_messages(title, rule.min_length).len() == 1 <==> (rule.min_length matches Some(
            min,
        ) && byte_len(title) < min),
        max_length_messages(title, rule.max_length).len() == 1 <==> (rule.max_length matches Some(
            max,
        ) && byte_len(title) > max),
        length_messages(title, rule).len() == 2 ==> rule.min_length->0 > rule.max_length->0,
{
}

} // verus!
