use vstd::prelude::*;

verus! {

/// A stored grant of a permission to a user.
pub struct Model {
    pub id: i32,
    pub user_id: i32,
    pub permission_id: i32,
}

/// How a user permission relates to other stored rows.
#[derive(Clone, Copy, Debug, PartialEq, Eq, Structural)]
pub enum Relation {
    AuthPermission,
    AuthUser,
}

} // verus!
