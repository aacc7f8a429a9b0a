use pr_checker::error::CheckError;
use pr_checker::github::pr::{bearer, pr_number_of, pull_request_url, repository_of};
use pr_checker::github::{GitHubEvent, Owner, PullRequest, PullRequestLabel, Repository};

fn event(number: Option<u64>, repository: Option<(&str, &str)>) -> GitHubEvent {
    GitHubEvent {
        pull_request: number.map(|number| PullRequest {
            number,
            title: "t".to_string(),
            labels: vec![PullRequestLabel { name: "l".to_string() }],
        }),
        repository: repository.map(|(login, name)| Repository {
            owner: Owner { login: login.to_string() },
            name: name.to_string(),
        }),
    }
}

#[test]
fn pr_number_comes_from_the_event() {
    assert_eq!(pr_number_of(&event(Some(42), None)), Ok(42));
    assert_eq!(pr_number_of(&event(Some(u64::MAX), Some(("o", "r")))), Ok(u64::MAX));
}

#[test]
fn event_without_pull_request_is_an_error() {
    assert_eq!(
        pr_number_of(&event(None, Some(("o", "r")))),
        Err(CheckError::EventParse("Pull request not found in event".to_string()))
    );
}

#[test]
fn repository_comes_from_the_event() {
    assert_eq!(
        repository_of(&event(None, Some(("octo", "hello")))),
        Ok(("octo".to_string(), "hello".to_string()))
    );
}

#[test]
fn event_without_repository_is_an_error() {
    assert_eq!(
        repository_of(&event(Some(1), None)),
        Err(CheckError::EventParse("Repository information not found in event".to_string()))
    );
}

#[test]
fn pull_request_url_names_owner_repo_and_number() {
    assert_eq!(
        pull_request_url("octo", "hello", 1347),
        "https://api.github.com/repos/octo/hello/pulls/1347"
    );
    assert_eq!(pull_request_url("", "", 0), "https://api.github.com/repos///pulls/0");
}

#[test]
fn bearer_prefixes_the_token() {
    assert_eq!(bearer("abc"), "Bearer abc");
    assert_eq!(bearer(""), "Bearer ");
}

#[test]
fn label_names_keep_order_and_duplicates() {
    let pr = PullRequest {
        number: 1,
        title: String::new(),
        labels: ["b", "a", "b"].iter().map(|n| PullRequestLabel { name: n.to_string() }).collect(),
    };
    assert_eq!(pr.label_names(), vec!["b", "a", "b"]);
}
