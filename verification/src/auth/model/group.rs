//! The first form of the group requests: a group type, and filters
//! given as a filter type with rules and nested rule sets.

use vstd::prelude::*;
use vstd::std_specs::convert::FromSpecImpl;

use crate::entity::auth_group;
use crate::entity::sea_orm_active_enums;

verus! {

/// How users become members of a group.
#[derive(Clone, Copy, Debug, PartialEq, Eq, Structural)]
pub enum GroupType {
    Open,
    Auto,
    Apply,
    Hidden,
}

/// The stored group type a group type stands for.
pub open spec fn stored_group_type(item: GroupType) -> sea_orm_active_enums::GroupType {
    match item {
        GroupType::Open => sea_orm_active_enums::GroupType::Open,
        GroupType::Auto => sea_orm_active_enums::GroupType::Auto,
        GroupType::Apply => sea_orm_active_enums::GroupType::Apply,
        GroupType::Hidden => sea_orm_active_enums::GroupType::Hidden,
    }
}

/// The group type a stored one stands for.
pub open spec fn group_type_of(item: sea_orm_active_enums::GroupType) -> GroupType {
    match item {
        sea_orm_active_enums::GroupType::Open => GroupType::Open,
        sea_orm_active_enums::GroupType::Auto => GroupType::Auto,
        sea_orm_active_enums::GroupType::Apply => GroupType::Apply,
        sea_orm_active_enums::GroupType::Hidden => GroupType::Hidden,
    }
}

impl From<GroupType> for sea_orm_active_enums::GroupType {
    fn from(item: GroupType) -> (r: Self) {
        match item {
            GroupType::Open => sea_orm_active_enums::GroupType::Open,
            GroupType::Auto => sea_orm_active_enums::GroupType::Auto,
            GroupType::Apply => sea_orm_active_enums::GroupType::Apply,
            GroupType::Hidden => sea_orm_active_enums::GroupType::Hidden,
        }
    }
}

impl FromSpecImpl<GroupType> for sea_orm_active_enums::GroupType {
    open spec fn obeys_from_spec() -> bool {
        true
    }

    open spec fn from_spec(item: GroupType) -> Self {
        stored_group_type(item)
    }
}

impl From<sea_orm_active_enums::GroupType> for GroupType {
    fn from(item: sea_orm_active_enums::GroupType) -> (r: Self) {
        match item {
            sea_orm_active_enums::GroupType::Open => GroupType::Open,
            sea_orm_active_enums::GroupType::Auto => GroupType::Auto,
            sea_orm_active_enums::GroupType::Apply => GroupType::Apply,
            sea_orm_active_enums::GroupType::Hidden => GroupType::Hidden,
        }
    }
}

impl FromSpecImpl<sea_orm_active_enums::GroupType> for GroupType {
    open spec fn obeys_from_spec() -> bool {
        true
    }

    open spec fn from_spec(item: sea_orm_active_enums::GroupType) -> Self {
        group_type_of(item)
    }
}

/// Converting a group type to its stored form and back gives the same
/// value, and the other way round.
pub proof fn lemma_group_type_round_trip(item: GroupType, stored: sea_orm_active_enums::GroupType)
    ensures
        group_type_of(stored_group_type(item)) == item,
        stored_group_type(group_type_of(stored)) == stored,
{
}

/// Whether all rules of a rule set must hold or at least one.
#[derive(Clone, Copy, Debug, PartialEq, Eq, Structural)]
pub enum FilterType {
    All,
    Any,
}

/// What a filter rule looks at.
#[derive(Clone, Copy, Debug, PartialEq, Eq, Structural)]
pub enum FilterCriteria {
    Group,
    Corporation,
    Alliance,
    Role,
}

/// How a filter rule compares.
#[derive(Clone, Copy, Debug, PartialEq, Eq, Structural)]
pub enum FilterCriteriaType {
    Is,
    IsNot,
    GreaterThan,
    LessThan,
}

/// A group as shown to clients.
pub struct GroupDto {
    pub id: i32,
    pub name: String,
    pub description: Option<String>,
    pub group_type: GroupType,
}

impl From<auth_group::Model> for GroupDto {
    fn from(model: auth_group::Model) -> (r: Self) {
        GroupDto {
            id: model.id,
            name: model.name,
            description: model.description,
            group_type: GroupType::from(model.group_type),
        }
    }
}

impl FromSpecImpl<auth_group::Model> for GroupDto {
    open spec fn obeys_from_spec() -> bool {
        true
    }

    open spec fn from_spec(model: auth_group::Model) -> Self {
        GroupDto {
            id: model.id,
            name: model.name,
            description: model.description,
            group_type: group_type_of(model.group_type),
        }
    }
}

/// A new group without filters.
pub struct NewGroupDto {
    pub name: String,
    pub confidential: bool,
    pub description: Option<String>,
    pub group_type: GroupType,
}

/// One filter rule.
pub struct GroupFilterRuleDto {
    pub criteria: FilterCriteria,
    pub criteria_type: FilterCriteriaType,
    pub criteria_value: String,
}

/// A nested rule set.
pub struct FilterGroupDto {
    pub filter_type: FilterType,
    pub rules: Vec<GroupFilterRuleDto>,
}

/// The new filters of a group.
pub struct UpdateGroupFilterDto {
    pub filter_type: FilterType,
    pub filter_rules: Vec<GroupFilterRuleDto>,
    pub filter_groups: Vec<FilterGroupDto>,
}

} // verus!
