//! What is known of a pull request and of the event that triggered the check.

pub mod pr;

pub use pr::{GitHubEvent, Owner, PullRequest, PullRequestLabel, PullRequestView, Repository};
