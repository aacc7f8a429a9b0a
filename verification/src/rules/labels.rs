//! The label rule: every required label must be among the pull request's
//! labels. Names are compared exactly, letter case included.

use crate::config::{LabelRule, LabelRuleView};
use crate::github::pr::{labels_text, show_labels};
use crate::github::PullRequest;
use crate::rules::{messages, violation, RuleResult, Violation};
use crate::text::{contains_text, texts};
use vstd::prelude::*;
use vstd::string::*;

verus! {

/// The required labels that are not among `present`, in the order in which
/// they were declared.
pub open spec fn missing_labels(required: Seq<Seq<char>>, present: Seq<Seq<char>>) -> Seq<
    Seq<char>,
> {
    required.filter(|label: Seq<char>| !present.contains(label))
}

/// Text of the violation for a required label that is missing.
pub open spec fn missing_label_message(label: Seq<char>, present: Seq<Seq<char>>) -> Seq<char> {
    "PR is missing required label: '"@ + label + "'. Current labels: ["@ + labels_text(present)
        + "]"@
}

/// Everything the label rule reports: one message for each missing label, in
/// declaration order; nothing where no list is configured.
pub open spec fn label_messages(present: Seq<Seq<char>>, rule: LabelRuleView) -> Seq<Seq<char>> {
    missing_labels(rule.required_labels(), present).map_values(
        |label: Seq<char>| missing_label_message(label, present),
    )
}

/// Each missing label stands for one position of the required list whose
/// label the pull request lacks, no such position is left out, and the
/// positions rise: the missing labels are as many as those positions and
/// come in the order of declaration. The positions are returned.
pub proof fn lemma_missing_labels_in_declaration_order(
    required: Seq<Seq<char>>,
    present: Seq<Seq<char>>,
) -> (at: Seq<int>)
    ensures
        at.len() == missing_labels(required, present).len(),
        forall|i: int|
            0 <= i < at.len() ==> 0 <= #[trigger] at[i] < required.len() && required[at[i]]
                == missing_labels(required, present)[i],
        forall|i: int, j: int| 0 <= i < j < at.len() ==> at[i] < at[j],
        forall|k: int|
            0 <= k < required.len() ==> (at.contains(k) <==> !present.contains(
                #[trigger] required[k],
            )),
    decreases required.len(),
{
    let absent = |label: Seq<char>| !present.contains(label);
    if required.len() == 0 {
        assert(required.filter(absent).len() <= required.len()) by {
            required.lemma_filter_len(absent);
        }
        Seq::empty()
    } else {
        let earlier = required.drop_last();
        let last = required.last();
        let k = required.len() - 1;
        let before = lemma_missing_labels_in_declaration_order(earlier, present);
        assert(required =~= earlier.push(last));
        Seq::lemma_filter_push(earlier, last, absent);
        let at = if present.contains(last) {
            before
        } else {
            before.push(k)
        };
        assert forall|p: int| 0 <= p < required.len() implies (at.contains(p) <==> !present.contains(
            #[trigger] required[p],
        )) by {
            if p < k {
                if before.contains(p) {
                    let i = choose|i: int| 0 <= i < before.len() && before[i] == p;
                    assert(at[i] == p);
                }
            } else if !present.contains(last) {
                assert(at[at.len() - 1] == k);
            }
        }
        at
    }
}

/// Checks the labels of `pr` against `rule`.
pub fn check_labels(pr: &PullRequest, rule: &LabelRule) -> (r: RuleResult)
    ensures
        messages(r@) == label_messages(pr@.labels, rule@),
        r@.len() == missing_labels(rule@.required_labels(), pr@.labels).len(),
        forall|i: int|
            0 <= i < r@.len() ==> (#[trigger] r@[i])@ == missing_label_message(
                missing_labels(rule@.required_labels(), pr@.labels)[i],
                pr@.labels,
            ),
{
    let mut r: Vec<Violation> = Vec::new();
    if let Some(required) = &rule.required {
        let names = pr.label_names();
        let shown = show_labels(&names);
        let ghost present = pr@.labels;
        let ghost wanted = texts(required@);
        let ghost absent = |label: Seq<char>| !present.contains(label);
        let ghost explain = |label: Seq<char>| missing_label_message(label, present);
        let mut i: usize = 0;
        while i < required.len()
            invariant
                i <= required.len(),
                present == pr@.labels,
                texts(names@) == present,
                shown@ == labels_text(present),
                wanted == texts(required@),
                absent == |label: Seq<char>| !present.contains(label),
                explain == |label: Seq<char>| missing_label_message(label, present),
                messages(r@) == wanted.take(i as int).filter(absent).map_values(explain),
            decreases required.len() - i,
        {
            let label = &required[i];
            proof {
                let seen = wanted.take(i as int);
                assert(wanted.take(i + 1) =~= seen.push(wanted[i as int]));
                Seq::lemma_filter_push(seen, wanted[i as int], absent);
            }
            if !contains_text(&names, label.as_str()) {
                let mut m = String::from_str("PR is missing required label: '");
                m.append(label.as_str());
                m.append("'. Current labels: [");
                m.append(shown.as_str());
                m.append("]");
                r.push(violation(m));
                proof {
                    let kept = wanted.take(i as int).filter(absent);
                    assert(kept.push(label@).map_values(explain) =~= kept.map_values(explain).push(
                        explain(label@),
                    ));
                }
            }
            i += 1;
        }
        assert(wanted.take(i as int) =~= wanted);
    }
    assert forall|i: int| 0 <= i < r@.len() implies (#[trigger] r@[i])@ == missing_label_message(
        missing_labels(rule@.required_labels(), pr@.labels)[i],
        pr@.labels,
    ) by {
        assert(messages(r@)[i] == r@[i]@);
    }
    r
}

} // verus!
