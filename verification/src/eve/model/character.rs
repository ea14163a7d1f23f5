use vstd::prelude::*;

verus! {

/// A character with its corporation and, where it has one, its alliance.
pub struct CharacterAffiliationDto {
    pub character_id: i32,
    pub character_name: String,
    pub corporation_id: i32,
    pub corporation_name: String,
    pub alliance_id: Option<i32>,
    pub alliance_name: Option<String>,
}

impl Clone for CharacterAffiliationDto {
    fn clone(&self) -> (r: Self)
        ensures
            r == *self,
    {
        CharacterAffiliationDto {
            character_id: self.character_id,
            character_name: self.character_name.clone(),
            corporation_id: self.corporation_id,
            corporation_name: self.corporation_name.clone(),
            alliance_id: self.alliance_id,
            alliance_name: self.alliance_name.clone(),
        }
    }
}

} // verus!
