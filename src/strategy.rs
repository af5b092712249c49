use vstd::prelude::*;

use crate::text::same_text;

verus! {

/// The comparison an alert applies to an indicator value.
#[derive(Debug, Clone, Copy, PartialEq, Eq, Structural)]
pub enum ConditionKind {
    Above,
    Below,
    CrossAbove,
    CrossBelow,
    Between,
}

/// The condition that a configuration spelling denotes, if any.
pub open spec fn condition_named(s: Seq<char>) -> Option<ConditionKind> {
    if s == "above"@ {
        Some(ConditionKind::Above)
    } else if s == "below"@ {
        Some(ConditionKind::Below)
    } else if s == "cross_above"@ {
        Some(ConditionKind::CrossAbove)
    } else if s == "cross_below"@ {
        Some(ConditionKind::CrossBelow)
    } else if s == "between"@ {
        Some(ConditionKind::Between)
    } else {
        None
    }
}

impl ConditionKind {
    /// Parses `above`, `below`, `cross_above`, `cross_below` or `between`.
    pub fn parse(s: &str) -> (r: Option<ConditionKind>)
        ensures
            r == condition_named(s@),
    {
        if same_text(s, "above") {
            Some(ConditionKind::Above)
        } else if same_text(s, "below") {
            Some(ConditionKind::Below)
        } else if same_text(s, "cross_above") {
            Some(ConditionKind::CrossAbove)
        } else if same_text(s, "cross_below") {
            Some(ConditionKind::CrossBelow)
        } else if same_text(s, "between") {
            Some(ConditionKind::Between)
        } else {
            None
        }
    }

    /// Every condition but `between` compares against the rule's threshold; `between`
    /// takes its bounds from the rule's parameters.
    pub open spec fn spec_needs_threshold(self) -> bool {
        !(self is Between)
    }

    pub fn needs_threshold(self) -> (r: bool)
        ensures
            r == self.spec_needs_threshold(),
    {
        !matches!(self, ConditionKind::Between)
    }
}

} // verus!
