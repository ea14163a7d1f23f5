use vstd::prelude::*;

use crate::entity::sea_orm_active_enums::{GroupFilterType, GroupType};

verus! {

/// A stored group.
pub struct Model {
    pub id: i32,
    pub name: String,
    pub description: Option<String>,
    pub confidential: bool,
    pub leave_applications: bool,
    pub group_type: GroupType,
    pub filter_type: GroupFilterType,
}

} // verus!
