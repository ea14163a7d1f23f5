use vstd::prelude::*;

use crate::clock::Timestamp;

verus! {

/// A stored EVE corporation.
pub struct Model {
    pub id: i32,
    pub corporation_id: i32,
    pub corporation_name: String,
    pub alliance_id: Option<i32>,
    pub ceo: i32,
    pub last_updated: Timestamp,
}

/// How a corporation relates to other stored rows.
#[derive(Clone, Copy, Debug, PartialEq, Eq, Structural)]
pub enum Relation {
    EveAlliance,
    EveCharacter,
}

} // verus!
