//! Checks a pull request's title and labels against a declarative policy and
//! reports every violation found.

pub mod annotation;
pub mod config;
pub mod engine;
pub mod error;
pub mod github;
pub mod rules;
pub mod text;
