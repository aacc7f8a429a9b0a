use pr_checker::config::TitleRule;
use pr_checker::github::PullRequest;
use pr_checker::rules::pattern::{apply_pattern, PatternOutcome};
use pr_checker::rules::title::{length_violations, pattern_violations};
use pr_checker::rules::check_title;

fn create_pr(title: &str) -> PullRequest {
    PullRequest { number: 1, title: title.to_string(), labels: vec![] }
}

fn pattern_only(pattern: &str) -> TitleRule {
    TitleRule { pattern: Some(pattern.to_string()), min_length: None, max_length: None }
}

#[test]
fn test_pattern_match() {
    let pr = create_pr("feat: add new feature");
    let rule = TitleRule {
        pattern: Some("^(feat|fix|docs):".to_string()),
        min_length: None,
        max_length: None,
    };

    let violations = check_title(&pr, &rule);
    assert!(violations.is_empty());
}

#[test]
fn test_pattern_mismatch() {
    let pr = create_pr("invalid title");
    let rule = TitleRule {
        pattern: Some("^(feat|fix|docs):".to_string()),
        min_length: None,
        max_length: None,
    };

    let violations = check_title(&pr, &rule);
    assert_eq!(violations.len(), 1);
    assert!(violations[0].message.contains("does not match"));
}

#[test]
fn test_min_length() {
    let pr = create_pr("short");
    let rule = TitleRule { pattern: None, min_length: Some(10), max_length: None };

    let violations = check_title(&pr, &rule);
    assert_eq!(violations.len(), 1);
    assert!(violations[0].message.contains("too short"));
}

#[test]
fn test_max_length() {
    let pr = create_pr("a".repeat(100).as_str());
    let rule = TitleRule { pattern: None, min_length: None, max_length: Some(50) };

    let violations = check_title(&pr, &rule);
    assert_eq!(violations.len(), 1);
    assert!(violations[0].message.contains("too long"));
}

#[test]
fn mismatch_message_is_exact() {
    let violations = check_title(&create_pr("invalid title"), &pattern_only("^(feat|fix|docs):"));
    assert_eq!(
        violations[0].message,
        "PR title 'invalid title' does not match required pattern: ^(feat|fix|docs):"
    );
}

#[test]
fn too_short_message_reports_both_lengths() {
    let rule = TitleRule { pattern: None, min_length: Some(10), max_length: None };
    let violations = check_title(&create_pr("short"), &rule);
    assert_eq!(
        violations[0].message,
        "PR title 'short' is too short (5 chars), minimum required: 10"
    );
}

#[test]
fn too_long_message_reports_both_lengths() {
    let rule = TitleRule { pattern: None, min_length: None, max_length: Some(50) };
    let title = "a".repeat(100);
    let violations = check_title(&create_pr(&title), &rule);
    assert_eq!(
        violations[0].message,
        format!("PR title '{}' is too long (100 chars), maximum allowed: 50", title)
    );
}

#[test]
fn invalid_pattern_is_a_violation() {
    let violations = check_title(&create_pr("feat: x"), &pattern_only("(unclosed"));
    assert_eq!(violations.len(), 1);
    let expected = format!(
        "Invalid regex pattern '(unclosed': {}",
        regex::Regex::new("(unclosed").unwrap_err()
    );
    assert_eq!(violations[0].message, expected);
    assert!(violations[0].message.contains("unclosed group"));
}

#[test]
fn invalid_pattern_does_not_stop_length_checks() {
    let rule = TitleRule {
        pattern: Some("[".to_string()),
        min_length: Some(10),
        max_length: Some(2),
    };
    let violations = check_title(&create_pr("short"), &rule);
    assert_eq!(violations.len(), 3);
    assert!(violations[0].message.starts_with("Invalid regex pattern '['"));
    assert!(violations[1].message.contains("too short"));
    assert!(violations[2].message.contains("too long"));
}

#[test]
fn violations_come_in_fixed_order() {
    let rule = TitleRule {
        pattern: Some("^feat:".to_string()),
        min_length: Some(20),
        max_length: Some(3),
    };
    let violations = check_title(&create_pr("chore: x"), &rule);
    assert_eq!(violations.len(), 3);
    assert!(violations[0].message.contains("does not match"));
    assert!(violations[1].message.contains("too short (8 chars), minimum required: 20"));
    assert!(violations[2].message.contains("too long (8 chars), maximum allowed: 3"));
}

#[test]
fn both_length_checks_fire_only_for_crossed_bounds() {
    let crossed = TitleRule { pattern: None, min_length: Some(9), max_length: Some(3) };
    assert_eq!(check_title(&create_pr("title"), &crossed).len(), 2);
    let sane = TitleRule { pattern: None, min_length: Some(3), max_length: Some(9) };
    assert_eq!(check_title(&create_pr("title"), &sane).len(), 0);
    assert_eq!(check_title(&create_pr("ab"), &sane).len(), 1);
    assert_eq!(check_title(&create_pr("abcdefghij"), &sane).len(), 1);
}

#[test]
fn length_bounds_are_inclusive() {
    let rule = TitleRule { pattern: None, min_length: Some(5), max_length: Some(5) };
    assert!(check_title(&create_pr("exact"), &rule).is_empty());
}

#[test]
fn length_is_counted_in_bytes() {
    let rule = TitleRule { pattern: None, min_length: Some(6), max_length: None };
    // Five characters, six bytes.
    assert!(check_title(&create_pr("caf\u{e9}s"), &rule).is_empty());
    let violations = check_title(&create_pr("cafes"), &rule);
    assert_eq!(violations.len(), 1);
    let wide = TitleRule { pattern: None, min_length: None, max_length: Some(5) };
    let violations = check_title(&create_pr("caf\u{e9}s"), &wide);
    assert_eq!(
        violations[0].message,
        "PR title 'caf\u{e9}s' is too long (6 chars), maximum allowed: 5"
    );
}

#[test]
fn empty_rule_reports_nothing() {
    let rule = TitleRule { pattern: None, min_length: None, max_length: None };
    assert!(check_title(&create_pr(""), &rule).is_empty());
}

#[test]
fn zero_bounds() {
    let rule = TitleRule { pattern: None, min_length: Some(0), max_length: Some(0) };
    assert!(check_title(&create_pr(""), &rule).is_empty());
    let violations = check_title(&create_pr("x"), &rule);
    assert_eq!(violations.len(), 1);
    assert_eq!(
        violations[0].message,
        "PR title 'x' is too long (1 chars), maximum allowed: 0"
    );
}

#[test]
fn pattern_alone_reports_one_violation_iff_no_match() {
    for (title, pattern, expected) in [
        ("feat: a", "^feat", 0),
        ("fix: a", "^feat", 1),
        ("anything", "", 0),
        ("", "^$", 0),
        ("", ".", 1),
        ("a feat", "feat$", 0),
    ] {
        let found = check_title(&create_pr(title), &pattern_only(pattern));
        assert_eq!(found.len(), expected, "{title:?} against {pattern:?}");
    }
}

#[test]
fn apply_pattern_tells_the_three_outcomes() {
    assert_eq!(apply_pattern("^a+$", "aaa"), PatternOutcome::Matched);
    assert_eq!(apply_pattern("^a+$", "aab"), PatternOutcome::Mismatched);
    assert!(matches!(apply_pattern("a{2,1}", "aa"), PatternOutcome::Invalid(_)));
}

#[test]
fn pattern_is_searched_not_anchored() {
    assert_eq!(apply_pattern("b", "abc"), PatternOutcome::Matched);
    assert_eq!(apply_pattern("abc", "b"), PatternOutcome::Mismatched);
}

#[test]
fn pattern_violations_for_each_outcome() {
    assert!(pattern_violations("t", "p", &PatternOutcome::Matched).is_empty());
    let found = pattern_violations("t", "p", &PatternOutcome::Mismatched);
    assert_eq!(found.len(), 1);
    assert_eq!(found[0].message, "PR title 't' does not match required pattern: p");
    let found = pattern_violations("t", "p", &PatternOutcome::Invalid("why".to_string()));
    assert_eq!(found.len(), 1);
    assert_eq!(found[0].message, "Invalid regex pattern 'p': why");
}

#[test]
fn length_violations_ignore_the_pattern() {
    let rule = TitleRule {
        pattern: Some("never".to_string()),
        min_length: Some(2),
        max_length: None,
    };
    let found = length_violations("x", &rule);
    assert_eq!(found.len(), 1);
    assert_eq!(found[0].message, "PR title 'x' is too short (1 chars), minimum required: 2");
}
