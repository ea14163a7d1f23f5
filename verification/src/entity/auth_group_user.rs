use vstd::prelude::*;

verus! {

/// A stored membership of a user in a group.
pub struct Model {
    pub id: i32,
    pub group_id: i32,
    pub user_id: i32,
}

} // verus!
