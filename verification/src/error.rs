//! What can keep a check from running, and how each failure is reported.
//!
//! A rule that fails, and a pattern that does not compile, are violations and
//! no errors. An error means that no evaluation took place.

use vstd::prelude::*;
use vstd::string::*;

verus! {

/// Why a run ended without an evaluation. Each variant carries the text that
/// explains the failure.
#[derive(Debug, Clone, PartialEq, Eq)]
pub enum CheckError {
    /// The policy or the environment is unusable.
    Config(String),
    /// The host refused or garbled the pull request.
    GitHubApi(String),
    /// The event that triggered the run is malformed or incomplete.
    EventParse(String),
    /// Reading a file failed.
    Io(String),
    /// The policy is no valid YAML.
    Yaml(String),
    /// A payload is no valid JSON.
    Json(String),
    /// The request to the host failed.
    Http(String),
    /// A regular expression was refused.
    Pattern(String),
}

/// Mathematical model of a [`CheckError`].
pub enum CheckErrorView {
    Config(Seq<char>),
    GitHubApi(Seq<char>),
    EventParse(Seq<char>),
    Io(Seq<char>),
    Yaml(Seq<char>),
    Json(Seq<char>),
    Http(Seq<char>),
    Pattern(Seq<char>),
}

impl View for CheckError {
    type V = CheckErrorView;

    open spec fn view(&self) -> CheckErrorView {
        match self {
            CheckError::Config(m) => CheckErrorView::Config(m@),
            CheckError::GitHubApi(m) => CheckErrorView::GitHubApi(m@),
            CheckError::EventParse(m) => CheckErrorView::EventParse(m@),
            CheckError::Io(m) => CheckErrorView::Io(m@),
            CheckError::Yaml(m) => CheckErrorView::Yaml(m@),
            CheckError::Json(m) => CheckErrorView::Json(m@),
            CheckError::Http(m) => CheckErrorView::Http(m@),
            CheckError::Pattern(m) => CheckErrorView::Pattern(m@),
        }
    }
}

impl CheckErrorView {
    /// The text that the error carries.
    pub open spec fn detail(self) -> Seq<char> {
        match self {
            CheckErrorView::Config(m) => m,
            CheckErrorView::GitHubApi(m) => m,
            CheckErrorView::EventParse(m) => m,
            CheckErrorView::Io(m) => m,
            CheckErrorView::Yaml(m) => m,
            CheckErrorView::Json(m) => m,
            CheckErrorView::Http(m) => m,
            CheckErrorView::Pattern(m) => m,
        }
    }

    /// What introduces the detail when the error is written out.
    pub open spec fn heading(self) -> Seq<char> {
        match self {
            CheckErrorView::Config(_) => "Configuration error: "@,
            CheckErrorView::GitHubApi(_) => "GitHub API error: "@,
            CheckErrorView::EventParse(_) => "GitHub event parsing error: "@,
            CheckErrorView::Io(_) => "IO error: "@,
            CheckErrorView::Yaml(_) => "YAML parsing error: "@,
            CheckErrorView::Json(_) => "JSON parsing error: "@,
            CheckErrorView::Http(_) => "HTTP error: "@,
            CheckErrorView::Pattern(_) => "Regex error: "@,
        }
    }

    /// The error written out: heading, then detail.
    pub open spec fn message(self) -> Seq<char> {
        self.heading() + self.detail()
    }

    /// The exit code of a run that ended with this error: 2 for a failure of
    /// configuration or event, 3 for a failed fetch, 10 for anything else.
    pub open spec fn exit_code(self) -> int {
        match self {
            CheckErrorView::Config(_) => 2,
            CheckErrorView::EventParse(_) => 2,
            CheckErrorView::GitHubApi(_) => 3,
            _ => 10,
        }
    }
}

impl CheckError {
    /// The error written out for a reader.
    pub fn message(&self) -> (r: String)
        ensures
            r@ == self@.message(),
    {
        match self {
            CheckError::Config(m) => String::from_str("Configuration error: ").concat(m.as_str()),
            CheckError::GitHubApi(m) => String::from_str("GitHub API error: ").concat(m.as_str()),
            CheckError::EventParse(m) => String::from_str("GitHub event parsing error: ").concat(
                m.as_str(),
            ),
            CheckError::Io(m) => String::from_str("IO error: ").concat(m.as_str()),
            CheckError::Yaml(m) => String::from_str("YAML parsing error: ").concat(m.as_str()),
            CheckError::Json(m) => String::from_str("JSON parsing error: ").concat(m.as_str()),
            CheckError::Http(m) => String::from_str("HTTP error: ").concat(m.as_str()),
            CheckError::Pattern(m) => String::from_str("Regex error: ").concat(m.as_str()),
        }
    }

    /// The exit code of a run that ended with this error.
    pub fn exit_code(&self) -> (code: i32)
        ensures
            code == self@.exit_code(),
    {
        match self {
            CheckError::Config(_) => 2,
            CheckError::EventParse(_) => 2,
            CheckError::GitHubApi(_) => 3,
            _ => 10,
        }
    }
}

} // verus!
