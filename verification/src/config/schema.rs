//! Policy model: which rules are configured, each part optional.

use vstd::prelude::*;

verus! {

/// Policy for one repository. A section that is absent switches its rules off.
#[derive(Debug, Clone, PartialEq, Eq)]
pub struct Config {
    pub title: Option<TitleRule>,
    pub labels: Option<LabelRule>,
}

/// Constraints on the title. An absent field skips that check.
#[derive(Debug, Clone, PartialEq, Eq)]
pub struct TitleRule {
    /// Regular expression that must find a match in the title.
    pub pattern: Option<String>,
    /// Least length of the title, in bytes.
    pub min_length: Option<usize>,
    /// Greatest length of the title, in bytes.
    pub max_length: Option<usize>,
}

/// Constraints on the labels.
#[derive(Debug, Clone, PartialEq, Eq)]
pub struct LabelRule {
    /// Labels that must all be present, in the order they were declared.
    pub required: Option<Vec<String>>,
}

/// Mathematical model of a [`TitleRule`].
pub struct TitleRuleView {
    pub pattern: Option<Seq<char>>,
    pub min_length: Option<nat>,
    pub max_length: Option<nat>,
}

/// Mathematical model of a [`LabelRule`].
pub struct LabelRuleView {
    pub required: Option<Seq<Seq<char>>>,
}

/// Mathematical model of a [`Config`].
pub struct ConfigView {
    pub title: Option<TitleRuleView>,
    pub labels: Option<LabelRuleView>,
}

impl View for TitleRule {
    type V = TitleRuleView;

    open spec fn view(&self) -> TitleRuleView {
        TitleRuleView {
            pattern: match self.pattern {
                Some(p) => Some(p@),
                None => None,
            },
            min_length: match self.min_length {
                Some(n) => Some(n as nat),
                None => None,
            },
            max_length: match self.max_length {
                Some(n) => Some(n as nat),
                None => None,
            },
        }
    }
}

impl View for LabelRule {
    type V = LabelRuleView;

    open spec fn view(&self) -> LabelRuleView {
        LabelRuleView {
            required: match self.required {
                Some(list) => Some(list@.map_values(|s: String| s@)),
                None => None,
            },
        }
    }
}

impl View for Config {
    type V = ConfigView;

    open spec fn view(&self) -> ConfigView {
        ConfigView {
            title: match self.title {
                Some(rule) => Some(rule@),
                None => None,
            },
            labels: match self.labels {
                Some(rule) => Some(rule@),
                None => None,
            },
        }
    }
}

impl LabelRuleView {
    /// The required labels in declaration order; none where the list is absent.
    pub open spec fn required_labels(self) -> Seq<Seq<char>> {
        match self.required {
            Some(list) => list,
            None => Seq::empty(),
        }
    }
}

} // verus!
