use vstd::prelude::*;

use crate::entity::sea_orm_active_enums::GroupFilterType;

verus! {

/// A stored nested rule set of a group.
pub struct Model {
    pub id: i32,
    pub group_id: i32,
    pub filter_type: GroupFilterType,
}

} // verus!
