use vstd::prelude::*;

verus! {

/// How users become members of a group, as stored.
#[derive(Clone, Copy, Debug, PartialEq, Eq, Structural)]
pub enum GroupType {
    Open,
    Auto,
    Apply,
    Hidden,
}

/// Whether all or any of a rule set must hold, as stored.
#[derive(Clone, Copy, Debug, PartialEq, Eq, Structural)]
pub enum GroupFilterType {
    All,
    Any,
}

/// What a filter rule looks at, as stored.
#[derive(Clone, Copy, Debug, PartialEq, Eq, Structural)]
pub enum GroupFilterCriteria {
    Group,
    Corporation,
    Alliance,
    Role,
}

/// How a filter rule compares, as stored.
#[derive(Clone, Copy, Debug, PartialEq, Eq, Structural)]
pub enum GroupFilterCriteriaType {
    Is,
    IsNot,
    GreaterThan,
    LessThan,
}

/// The state of a group application, as stored.
#[derive(Clone, Copy, Debug, PartialEq, Eq, Structural)]
pub enum GroupApplicationStatus {
    Outstanding,
    Accepted,
    Rejected,
}

/// Whether an application asks to join or to leave, as stored.
#[derive(Clone, Copy, Debug, PartialEq, Eq, Structural)]
pub enum GroupApplicationType {
    Join,
    Leave,
}

} // verus!
