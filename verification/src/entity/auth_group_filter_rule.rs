use vstd::prelude::*;

use crate::entity::sea_orm_active_enums::{GroupFilterCriteria, GroupFilterCriteriaType};

verus! {

/// A stored filter rule of a group; `filter_group_id` names the nested rule
/// set it belongs to, or is `None` for the group's own rules.
pub struct Model {
    pub id: i32,
    pub group_id: i32,
    pub filter_group_id: Option<i32>,
    pub criteria: GroupFilterCriteria,
    pub criteria_type: GroupFilterCriteriaType,
    pub criteria_value: String,
}

} // verus!
