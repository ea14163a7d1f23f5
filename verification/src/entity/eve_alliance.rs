use vstd::prelude::*;

verus! {

/// A stored EVE alliance.
pub struct Model {
    pub id: i32,
    pub alliance_id: i32,
    pub alliance_name: String,
    pub executor: Option<i32>,
}

} // verus!
