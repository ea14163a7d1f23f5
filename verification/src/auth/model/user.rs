use vstd::prelude::*;

verus! {

/// A user as shown to clients: the user and their main character.
pub struct UserDto {
    pub id: i32,
    pub character_id: i32,
    pub character_name: String,
}

/// The characters a user owns and the corporations and alliances those
/// characters belong to.
pub struct UserAffiliation {
    pub user_id: i32,
    pub characters: Vec<i32>,
    pub corporations: Vec<i32>,
    pub alliances: Vec<i32>,
}

/// The groups a user is a member of.
pub struct UserGroups {
    pub user_id: i32,
    pub groups: Vec<i32>,
}

} // verus!
