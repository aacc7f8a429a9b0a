//! Evaluation of a whole policy against one pull request.
//!
//! The title rule, the label rule and the rule that ties the title's type to
//! a label are evaluated independently; their violations are put together in
//! that order. Where there is any violation, a line that restates the title
//! and the labels comes first.

use crate::config::{Config, ConfigView, LabelRule, LabelRuleView};
use crate::github::pr::{labels_text, show_labels};
use crate::github::{PullRequest, PullRequestView};
use crate::rules::labels::label_messages;
use crate::rules::title::title_messages;
use crate::rules::{
    check_labels, check_title, lemma_messages_concat, messages, violation, RuleResult, Violation,
};
use crate::text::{
    before_first, contains_text, cut_before, lower_case, same_text, trim, trimmed,
};
use vstd::prelude::*;
use vstd::string::*;

verus! {

/// The type that a title announces: what stands before its first colon, cut
/// off at a scope in parentheses, without surrounding white space, in lower
/// case. For `Feat(api): add x` it is `feat`.
pub open spec fn type_token(title: Seq<char>) -> Seq<char> {
    lower_case(trimmed(before_first(trimmed(before_first(title, ':')), '(')))
}

/// The label that goes with a title type; none for a type outside the table.
pub open spec fn label_for(token: Seq<char>) -> Option<Seq<char>> {
    if token == "feat"@ {
        Some("kind/feature"@)
    } else if token == "fix"@ {
        Some("kind/bug"@)
    } else if token == "docs"@ {
        Some("kind/docs"@)
    } else if token == "chore"@ {
        Some("kind/chore"@)
    } else if token == "refactor"@ {
        Some("kind/refactor"@)
    } else if token == "test"@ {
        Some("kind/test"@)
    } else if token == "perf"@ {
        Some("kind/performance"@)
    } else if token == "ci"@ {
        Some("kind/ci"@)
    } else if token == "build"@ {
        Some("kind/build"@)
    } else if token == "security"@ {
        Some("kind/security"@)
    } else if token == "dependencies"@ {
        Some("kind/dependencies"@)
    } else {
        None
    }
}

/// Whether the rule that ties the title's type to a label fires: labels are
/// required at all, the type has a label, that label is itself required,
/// and the pull request does not carry it.
pub open spec fn cross_rule_fires(token: Seq<char>, pr: PullRequestView, rule: LabelRuleView) -> bool {
    &&& rule.required_labels().len() > 0
    &&& label_for(token) matches Some(expected)
    &&& rule.required_labels().contains(expected)
    &&& !pr.labels.contains(expected)
}

/// Text of the violation for a title type whose label is missing.
pub open spec fn cross_message(token: Seq<char>, expected: Seq<char>, pr: PullRequestView) -> Seq<
    char,
> {
    "Title type '"@ + token + "' requires label '"@ + expected + "', current labels: ["@
        + labels_text(pr.labels) + "], title: '"@ + pr.title + "'"@
}

/// What the cross rule reports for a title of type `token`.
pub open spec fn cross_messages_for(token: Seq<char>, pr: PullRequestView, rule: LabelRuleView) -> Seq<
    Seq<char>,
> {
    if cross_rule_fires(token, pr, rule) {
        seq![cross_message(token, label_for(token)->0, pr)]
    } else {
        Seq::empty()
    }
}

/// What the cross rule reports for `pr`.
pub open spec fn cross_messages(pr: PullRequestView, rule: LabelRuleView) -> Seq<Seq<char>> {
    cross_messages_for(type_token(pr.title), pr, rule)
}

/// The line that restates title and labels ahead of the violations.
pub open spec fn context_message(pr: PullRequestView) -> Seq<char> {
    "Context -> title: '"@ + pr.title + "'; labels: ["@ + labels_text(pr.labels) + "]"@
}

/// The three results in fixed order, behind the context line where there is
/// anything to report; nothing at all otherwise.
pub open spec fn aggregated(
    pr: PullRequestView,
    by_title: Seq<Seq<char>>,
    by_labels: Seq<Seq<char>>,
    by_cross: Seq<Seq<char>>,
) -> Seq<Seq<char>> {
    let found = by_title + by_labels + by_cross;
    if found.len() == 0 {
        found
    } else {
        seq![context_message(pr)] + found
    }
}

/// What the title rule contributes; nothing where the policy has none.
pub open spec fn title_part(pr: PullRequestView, config: ConfigView) -> Seq<Seq<char>> {
    match config.title {
        Some(rule) => title_messages(pr.title, rule),
        None => Seq::empty(),
    }
}

/// What the label rule contributes; nothing where the policy has none.
pub open spec fn label_part(pr: PullRequestView, config: ConfigView) -> Seq<Seq<char>> {
    match config.labels {
        Some(rule) => label_messages(pr.labels, rule),
        None => Seq::empty(),
    }
}

/// What the cross rule contributes; nothing where the policy has no label
/// rule.
pub open spec fn cross_part(pr: PullRequestView, config: ConfigView) -> Seq<Seq<char>> {
    match config.labels {
        Some(rule) => cross_messages(pr, rule),
        None => Seq::empty(),
    }
}

/// The full report for `pr` under `config`.
pub open spec fn evaluation(pr: PullRequestView, config: ConfigView) -> Seq<Seq<char>> {
    aggregated(pr, title_part(pr, config), label_part(pr, config), cross_part(pr, config))
}

/// Whether `pr` carries a label named `name`.
pub fn has_label(pr: &PullRequest, name: &str) -> (found: bool)
    ensures
        found == pr@.labels.contains(name@),
{
    let mut i: usize = 0;
    while i < pr.labels.len()
        invariant
            i <= pr.labels.len(),
            forall|j: int| 0 <= j < i ==> pr@.labels[j] != name@,
        decreases pr.labels.len() - i,
    {
        if same_text(pr.labels[i].name.as_str(), name) {
            assert(pr@.labels[i as int] == name@);
            return true;
        }
        i += 1;
    }
    false
}

/// The labels of `pr` as shown in messages.
pub fn format_labels(pr: &PullRequest) -> (r: String)
    ensures
        r@ == labels_text(pr@.labels),
{
    let names = pr.label_names();
    show_labels(&names)
}

/// The type that `title` announces.
pub fn title_type(title: &str) -> (r: String)
    ensures
        r@ == type_token(title@),
{
    let prefix = trim(cut_before(title, ':'));
    let type_only = trim(cut_before(prefix, '('));
    type_only.to_lowercase()
}

/// Looks a title type up in the table of labels.
pub fn label_for_type(token: &str) -> (r: Option<&'static str>)
    ensures
        match r {
            Some(label) => label_for(token@) == Some(label@),
            None => label_for(token@) is None,
        },
{
    if same_text(token, "feat") {
        Some("kind/feature")
    } else if same_text(token, "fix") {
        Some("kind/bug")
    } else if same_text(token, "docs") {
        Some("kind/docs")
    } else if same_text(token, "chore") {
        Some("kind/chore")
    } else if same_text(token, "refactor") {
        Some("kind/refactor")
    } else if same_text(token, "test") {
        Some("kind/test")
    } else if same_text(token, "perf") {
        Some("kind/performance")
    } else if same_text(token, "ci") {
        Some("kind/ci")
    } else if same_text(token, "build") {
        Some("kind/build")
    } else if same_text(token, "security") {
        Some("kind/security")
    } else if same_text(token, "dependencies") {
        Some("kind/dependencies")
    } else {
        None
    }
}

/// The label that the type of `title` asks for, if its type is in the table.
pub fn expected_label_for_title(title: &str) -> (r: Option<&'static str>)
    ensures
        match r {
            Some(label) => label_for(type_token(title@)) == Some(label@),
            None => label_for(type_token(title@)) is None,
        },
{
    let token = title_type(title);
    label_for_type(token.as_str())
}

/// Applies the cross rule to a pull request whose title has type `token`.
pub fn cross_violations_for(token: &str, pr: &PullRequest, rule: &LabelRule) -> (r: RuleResult)
    ensures
        messages(r@) == cross_messages_for(token@, pr@, rule@),
        r@.len() == 1 <==> cross_rule_fires(token@, pr@, rule@),
        r@.len() <= 1,
{
    let mut r: Vec<Violation> = Vec::new();
    if let Some(required) = &rule.required {
        if required.len() > 0 {
            if let Some(expected) = label_for_type(token) {
                if contains_text(required, expected) && !has_label(pr, expected) {
                    let mut m = String::from_str("Title type '");
                    m.append(token);
                    m.append("' requires label '");
                    m.append(expected);
                    m.append("', current labels: [");
                    m.append(format_labels(pr).as_str());
                    m.append("], title: '");
                    m.append(pr.title.as_str());
                    m.append("'");
                    r.push(violation(m));
                }
            }
        }
    }
    r
}

/// Checks that the label for the title's type is present, where that label
/// is one of the required ones.
pub fn check_cross(pr: &PullRequest, rule: &LabelRule) -> (r: RuleResult)
    ensures
        messages(r@) == cross_messages(pr@, rule@),
        r@.len() <= 1,
        r@.len() == 1 <==> cross_rule_fires(type_token(pr@.title), pr@, rule@),
        rule@.required_labels().len() == 0 ==> r@.len() == 0,
        r@.len() == 1 ==> rule@.required_labels().contains(label_for(type_token(pr@.title))->0),
{
    let mut r: Vec<Violation> = Vec::new();
    if let Some(required) = &rule.required {
        if required.len() > 0 {
            let token = title_type(pr.title.as_str());
            r = cross_violations_for(token.as_str(), pr, rule);
        }
    }
    r
}

/// Puts the three results together in fixed order and, where any of them
/// holds a violation, sets the context line in front.
pub fn aggregate(
    pr: &PullRequest,
    title_result: RuleResult,
    label_result: RuleResult,
    cross_result: RuleResult,
) -> (r: RuleResult)
    ensures
        messages(r@) == aggregated(
            pr@,
            messages(title_result@),
            messages(label_result@),
            messages(cross_result@),
        ),
        r@.len() == 0 <==> title_result@.len() == 0 && label_result@.len() == 0
            && cross_result@.len() == 0,
        r@.len() > 0 ==> {
            &&& r@[0]@ == context_message(pr@)
            &&& r@.len() == 1 + title_result@.len() + label_result@.len() + cross_result@.len()
            &&& messages(r@).skip(1) == messages(title_result@) + messages(label_result@)
                + messages(cross_result@)
        },
{
    let mut title_result = title_result;
    let mut label_result = label_result;
    let mut cross_result = cross_result;
    let mut r: Vec<Violation> = Vec::new();
    if title_result.len() == 0 && label_result.len() == 0 && cross_result.len() == 0 {
        return r;
    }
    let mut m = String::from_str("Context -> title: '");
    m.append(pr.title.as_str());
    m.append("'; labels: [");
    m.append(format_labels(pr).as_str());
    m.append("]");
    r.push(violation(m));
    proof {
        lemma_messages_concat(r@, title_result@);
        lemma_messages_concat(r@ + title_result@, label_result@);
        lemma_messages_concat(r@ + title_result@ + label_result@, cross_result@);
    }
    r.append(&mut title_result);
    r.append(&mut label_result);
    r.append(&mut cross_result);
    r
}

/// Evaluates every configured rule against `pr` and returns the full,
/// ordered report. An empty report means that `pr` passes.
pub fn evaluate(pr: &PullRequest, config: &Config) -> (r: RuleResult)
    ensures
        messages(r@) == evaluation(pr@, config@),
{
    let title_result = match &config.title {
        Some(rule) => check_title(pr, rule),
        None => Vec::new(),
    };
    let label_result = match &config.labels {
        Some(rule) => check_labels(pr, rule),
        None => Vec::new(),
    };
    let cross_result = match &config.labels {
        Some(rule) => check_cross(pr, rule),
        None => Vec::new(),
    };
    aggregate(pr, title_result, label_result, cross_result)
}

/// Without required labels the cross rule reports nothing, whatever the
/// title says: be the label rule absent, its list absent, or its list empty.
pub proof fn lemma_cross_rule_needs_required_labels(pr: PullRequestView, config: ConfigView)
    requires
        config.labels matches Some(rule) ==> rule.required_labels().len() == 0,
    ensures
        cross_part(pr, config).len() == 0,
{
}

/// The cross rule reports one violation at most, and only for a title whose
/// type has a label that is itself required and that the pull request lacks.
pub proof fn lemma_cross_rule_fires_at_most_once(pr: PullRequestView, rule: LabelRuleView)
    ensures
        cross_messages(pr, rule).len() <= 1,
        cross_messages(pr, rule).len() == 1 ==> {
            &&& label_for(type_token(pr.title)) matches Some(expected)
            &&& rule.required_labels().contains(expected)
            &&& !pr.labels.contains(expected)
        },
{
}

/// Evaluating the same pull request under the same policy again gives the
/// same report, message for message and in the same order.
pub proof fn lemma_evaluation_repeatable(
    pr: PullRequest,
    config: Config,
    first: Seq<Violation>,
    second: Seq<Violation>,
)
    requires
        messages(first) == evaluation(pr@, config@),
        messages(second) == evaluation(pr@, config@),
    ensures
        messages(first) == messages(second),
        first.len() == second.len(),
        forall|i: int| 0 <= i < first.len() ==> (#[trigger] first[i])@ == second[i]@,
{
    assert(messages(first).len() == first.len());
    assert(messages(second).len() == second.len());
    assert forall|i: int| 0 <= i < first.len() implies (#[trigger] first[i])@ == second[i]@ by {
        assert(messages(first)[i] == first[i]@);
        assert(messages(second)[i] == second[i]@);
    }
}

} // verus!
