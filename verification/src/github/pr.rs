//! Snapshot of a pull request: number, title and labels in the order the
//! host lists them. Duplicates among the labels are possible.

use crate::error::{CheckError, CheckErrorView};
use crate::text::{decimal, decimal_string, join, joined, texts};
use vstd::prelude::*;
use vstd::string::*;

verus! {

/// A pull request as read from the host.
#[derive(Debug, Clone, PartialEq, Eq)]
pub struct PullRequest {
    pub number: u64,
    pub title: String,
    pub labels: Vec<PullRequestLabel>,
}

/// One label of a pull request.
#[derive(Debug, Clone, PartialEq, Eq)]
pub struct PullRequestLabel {
    pub name: String,
}

/// Mathematical model of a [`PullRequest`]: its labels are their names.
pub struct PullRequestView {
    pub number: nat,
    pub title: Seq<char>,
    pub labels: Seq<Seq<char>>,
}

impl View for PullRequestLabel {
    type V = Seq<char>;

    open spec fn view(&self) -> Seq<char> {
        self.name@
    }
}

impl View for PullRequest {
    type V = PullRequestView;

    open spec fn view(&self) -> PullRequestView {
        PullRequestView {
            number: self.number as nat,
            title: self.title@,
            labels: self.labels@.map_values(|l: PullRequestLabel| l@),
        }
    }
}

/// The payload of the event that triggered the run, as far as it is read.
#[derive(Debug, Clone, PartialEq, Eq)]
pub struct GitHubEvent {
    pub pull_request: Option<PullRequest>,
    pub repository: Option<Repository>,
}

/// The repository that an event belongs to.
#[derive(Debug, Clone, PartialEq, Eq)]
pub struct Repository {
    pub owner: Owner,
    pub name: String,
}

/// The account that owns a repository.
#[derive(Debug, Clone, PartialEq, Eq)]
pub struct Owner {
    pub login: String,
}

/// Address from which a pull request is read.
pub open spec fn pull_request_address(owner: Seq<char>, repo: Seq<char>, number: nat) -> Seq<char> {
    "https://api.github.com/repos/"@ + owner + "/"@ + repo + "/pulls/"@ + decimal(number)
}

/// How a label set is shown in messages: the names separated by a comma and
/// a space, or the word `none` for the empty set.
pub open spec fn labels_text(labels: Seq<Seq<char>>) -> Seq<char> {
    if labels.len() == 0 {
        "none"@
    } else {
        joined(labels, ", "@)
    }
}

impl PullRequest {
    /// The names of the labels, in order.
    pub fn label_names(&self) -> (names: Vec<String>)
        ensures
            texts(names@) == self@.labels,
    {
        let mut names: Vec<String> = Vec::new();
        let mut i: usize = 0;
        while i < self.labels.len()
            invariant
                i <= self.labels.len(),
                names@.len() == i,
                forall|j: int| 0 <= j < i ==> names@[j]@ == self.labels@[j].name@,
            decreases self.labels.len() - i,
        {
            names.push(self.labels[i].name.clone());
            i += 1;
        }
        names
    }
}

/// Renders a label set for a message.
pub fn show_labels(names: &Vec<String>) -> (r: String)
    ensures
        r@ == labels_text(texts(names@)),
{
    if names.len() == 0 {
        String::from_str("none")
    } else {
        join(names, ", ")
    }
}

/// The number of the pull request that an event is about. An event without
/// a pull request is an error of the event, and the only one.
pub fn pr_number_of(event: &GitHubEvent) -> (r: Result<u64, CheckError>)
    ensures
        match event.pull_request {
            Some(pr) => r == Ok::<u64, CheckError>(pr.number),
            None => r is Err && r->Err_0@ == CheckErrorView::EventParse(
                "Pull request not found in event"@,
            ),
        },
{
    match &event.pull_request {
        Some(pr) => Ok(pr.number),
        None => Err(CheckError::EventParse(String::from_str("Pull request not found in event"))),
    }
}

/// Owner and name of the repository that an event belongs to. An event
/// without a repository is an error of the event, and the only one.
pub fn repository_of(event: &GitHubEvent) -> (r: Result<(String, String), CheckError>)
    ensures
        match event.repository {
            Some(repository) => r is Ok && r->Ok_0.0@ == repository.owner.login@ && r->Ok_0.1@
                == repository.name@,
            None => r is Err && r->Err_0@ == CheckErrorView::EventParse(
                "Repository information not found in event"@,
            ),
        },
{
    match &event.repository {
        Some(repository) => Ok((repository.owner.login.clone(), repository.name.clone())),
        None => Err(
            CheckError::EventParse(String::from_str("Repository information not found in event")),
        ),
    }
}

/// The address from which pull request `number` of `owner`'s `repo` is read.
pub fn pull_request_url(owner: &str, repo: &str, number: u64) -> (r: String)
    ensures
        r@ == pull_request_address(owner@, repo@, number as nat),
{
    let mut r = String::from_str("https://api.github.com/repos/");
    r.append(owner);
    r.append("/");
    r.append(repo);
    r.append("/pulls/");
    r.append(decimal_string(number).as_str());
    r
}

/// The value of the authorization header for `token`.
pub fn bearer(token: &str) -> (r: String)
    ensures
        r@ == "Bearer "@ + token@,
{
    String::from_str("Bearer ").concat(token)
}

} // verus!
