use vstd::prelude::*;

use crate::clock::Timestamp;

verus! {

/// A stored user account.
pub struct Model {
    pub id: i32,
    pub admin: bool,
    pub created: Timestamp,
}

} // verus!
