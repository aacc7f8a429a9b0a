//! The policy a repository declares for its pull requests.

pub mod schema;

pub use schema::{Config, ConfigView, LabelRule, LabelRuleView, TitleRule, TitleRuleView};
