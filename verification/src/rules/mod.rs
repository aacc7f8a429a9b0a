//! The rules and what they report.

pub mod labels;
pub mod pattern;
pub mod title;

pub use labels::check_labels;
pub use title::check_title;

use vstd::prelude::*;

verus! {

/// One rule failure, explained for a human reader.
#[derive(Debug, Clone, PartialEq, Eq)]
pub struct Violation {
    pub message: String,
}

/// What one rule reports: its violations in the order they were found.
pub type RuleResult = Vec<Violation>;

impl View for Violation {
    type V = Seq<char>;

    open spec fn view(&self) -> Seq<char> {
        self.message@
    }
}

/// The texts of a list of violations, in order.
pub open spec fn messages(violations: Seq<Violation>) -> Seq<Seq<char>> {
    violations.map_values(|v: Violation| v@)
}

/// Nothing is lost or reordered when two lists are put together.
pub proof fn lemma_messages_concat(a: Seq<Violation>, b: Seq<Violation>)
    ensures
        messages(a + b) == messages(a) + messages(b),
{
}

/// A violation that carries `message`.
pub fn violation(message: String) -> (v: Violation)
    ensures
        v@ == message@,
{
    Violation { message }
}

} // verus!
