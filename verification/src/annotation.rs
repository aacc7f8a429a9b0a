//! Report of a run in the host's annotation format, with its exit code.
//!
//! One line is written for each violation, in the form
//! `::error title=<title>::<message>`. In title and message the characters
//! `%`, carriage return, line feed, `:` and `,` are percent-escaped.

use crate::error::{CheckError, CheckErrorView};
use crate::rules::{messages, RuleResult, Violation};
use crate::text::texts;
use vstd::prelude::*;
use vstd::string::*;

verus! {

/// What stands for `c` in an annotation.
pub open spec fn escaped_char(c: char) -> Seq<char> {
    if c == '%' {
        "%25"@
    } else if c == '\r' {
        "%0D"@
    } else if c == '\n' {
        "%0A"@
    } else if c == ':' {
        "%3A"@
    } else if c == ',' {
        "%2C"@
    } else {
        seq![c]
    }
}

/// `s` with each character replaced by what stands for it.
pub open spec fn escaped(s: Seq<char>) -> Seq<char>
    decreases s.len(),
{
    if s.len() == 0 {
        Seq::empty()
    } else {
        escaped(s.drop_last()) + escaped_char(s.last())
    }
}

/// Whether `c` would end or split a field of an annotation if written as it
/// is.
pub open spec fn breaks_field(c: char) -> bool {
    c == '\r' || c == '\n' || c == ':' || c == ','
}

/// Escaped text holds no character that breaks a field, and it is as long
/// as the text it was made of, or longer.
pub proof fn lemma_escaped_keeps_fields_whole(s: Seq<char>)
    ensures
        forall|i: int| 0 <= i < escaped(s).len() ==> !breaks_field(#[trigger] escaped(s)[i]),
        escaped(s).len() >= s.len(),
    decreases s.len(),
{
    reveal_strlit("%25");
    reveal_strlit("%0D");
    reveal_strlit("%0A");
    reveal_strlit("%3A");
    reveal_strlit("%2C");
    if s.len() > 0 {
        lemma_escaped_keeps_fields_whole(s.drop_last());
        let last = escaped_char(s.last());
        assert(forall|i: int| 0 <= i < last.len() ==> !breaks_field(#[trigger] last[i]));
    }
}

/// One annotation line.
pub open spec fn annotation(level: Seq<char>, title: Seq<char>, message: Seq<char>) -> Seq<char> {
    "::"@ + level + " title="@ + escaped(title) + "::"@ + escaped(message)
}

/// Escapes `s` for use in an annotation.
pub fn escape_annotation(s: &str) -> (r: String)
    ensures
        r@ == escaped(s@),
{
    let mut r = String::new();
    for c in it: s.chars()
        invariant
            it.seq() == s@,
            r@ == escaped(s@.take(it.index() as int)),
    {
        assert(s@.take(it.index() + 1).drop_last() =~= s@.take(it.index() as int));
        if c == '%' {
            r.append("%25");
        } else if c == '\r' {
            r.append("%0D");
        } else if c == '\n' {
            r.append("%0A");
        } else if c == ':' {
            r.append("%3A");
        } else if c == ',' {
            r.append("%2C");
        } else {
            r.push(c);
        }
    }
    assert(s@.take(s@.len() as int) =~= s@);
    r
}

/// Writes one annotation line.
pub fn format_annotation(level: &str, title: &str, message: &str) -> (r: String)
    ensures
        r@ == annotation(level@, title@, message@),
{
    let mut r = String::from_str("::");
    r.append(level);
    r.append(" title=");
    r.append(escape_annotation(title).as_str());
    r.append("::");
    r.append(escape_annotation(message).as_str());
    r
}

/// What a run writes for the host and the code it exits with.
#[derive(Debug, Clone, PartialEq, Eq)]
pub struct Report {
    /// The annotation lines, in the order in which they are written.
    pub lines: Vec<String>,
    /// 0 where nothing is violated, 1 where something is, another code where
    /// no evaluation took place.
    pub exit_code: i32,
}

/// Mathematical model of a [`Report`].
pub struct ReportView {
    pub lines: Seq<Seq<char>>,
    pub exit_code: int,
}

impl View for Report {
    type V = ReportView;

    open spec fn view(&self) -> ReportView {
        ReportView { lines: texts(self.lines@), exit_code: self.exit_code as int }
    }
}

/// The line for one violation.
pub open spec fn violation_line(message: Seq<char>) -> Seq<char> {
    annotation("error"@, "PR validation failed"@, message)
}

/// The title under which a failed run is annotated.
pub open spec fn failure_title(e: CheckErrorView) -> Seq<char> {
    match e {
        CheckErrorView::Config(_) => "Configuration error"@,
        CheckErrorView::GitHubApi(_) => "GitHub API error"@,
        CheckErrorView::EventParse(_) => "Event parsing error"@,
        _ => "Internal error"@,
    }
}

/// The text with which a failed run is annotated: the detail alone for a
/// failure of configuration, fetch or event, the whole message otherwise.
pub open spec fn failure_text(e: CheckErrorView) -> Seq<char> {
    match e {
        CheckErrorView::Config(m) => m,
        CheckErrorView::GitHubApi(m) => m,
        CheckErrorView::EventParse(m) => m,
        _ => e.message(),
    }
}

/// The report of a run that found the violations `found`.
pub open spec fn report_of_violations(found: Seq<Seq<char>>) -> ReportView {
    ReportView {
        lines: found.map_values(|m: Seq<char>| violation_line(m)),
        exit_code: if found.len() == 0 {
            0
        } else {
            1
        },
    }
}

/// The report of a run that ended with the error `e`.
pub open spec fn report_of_failure(e: CheckErrorView) -> ReportView {
    ReportView {
        lines: seq![annotation("error"@, failure_title(e), failure_text(e))],
        exit_code: e.exit_code(),
    }
}

/// Reports the violations of a completed evaluation.
pub fn report_violations(violations: &RuleResult) -> (r: Report)
    ensures
        r@ == report_of_violations(messages(violations@)),
{
    let mut lines: Vec<String> = Vec::new();
    let mut i: usize = 0;
    while i < violations.len()
        invariant
            i <= violations.len(),
            lines@.len() == i,
            forall|j: int| 0 <= j < i ==> lines@[j]@ == violation_line(violations@[j]@),
        decreases violations.len() - i,
    {
        lines.push(format_annotation("error", "PR validation failed", violations[i].message.as_str()));
        i += 1;
    }
    let exit_code: i32 = if violations.len() == 0 {
        0
    } else {
        1
    };
    let r = Report { lines, exit_code };
    assert(r@.lines =~= report_of_violations(messages(violations@)).lines);
    r
}

/// Reports a run that ended with an error.
pub fn report_failure(e: &CheckError) -> (r: Report)
    ensures
        r@ == report_of_failure(e@),
{
    let line = match e {
        CheckError::Config(m) => format_annotation("error", "Configuration error", m.as_str()),
        CheckError::GitHubApi(m) => format_annotation("error", "GitHub API error", m.as_str()),
        CheckError::EventParse(m) => format_annotation("error", "Event parsing error", m.as_str()),
        _ => format_annotation("error", "Internal error", e.message().as_str()),
    };
    let mut lines: Vec<String> = Vec::new();
    lines.push(line);
    let r = Report { lines, exit_code: e.exit_code() };
    assert(r@.lines =~= report_of_failure(e@).lines);
    r
}

/// Reports how a run ended.
pub fn report(outcome: &Result<RuleResult, CheckError>) -> (r: Report)
    ensures
        r@ == match outcome {
            Ok(violations) => report_of_violations(messages(violations@)),
            Err(e) => report_of_failure(e@),
        },
{
    match outcome {
        Ok(violations) => report_violations(violations),
        Err(e) => report_failure(e),
    }
}

} // verus!
