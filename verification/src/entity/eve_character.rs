use vstd::prelude::*;

use crate::clock::Timestamp;

verus! {

/// A stored EVE character.
pub struct Model {
    pub id: i32,
    pub character_id: i32,
    pub character_name: String,
    pub corporation_id: i32,
    pub last_updated: Timestamp,
}

} // verus!
