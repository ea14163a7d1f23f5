use vstd::prelude::*;

verus! {

/// A stored link between a user and an EVE character; `main` marks the
/// character that represents the user.
#[derive(Debug)]
pub struct Model {
    pub id: i32,
    pub user_id: i32,
    pub character_id: i32,
    pub ownerhash: String,
    pub main: bool,
}

impl Clone for Model {
    fn clone(&self) -> (r: Self)
        ensures
            r == *self,
    {
        Model {
            id: self.id,
            user_id: self.user_id,
            character_id: self.character_id,
            ownerhash: self.ownerhash.clone(),
            main: self.main,
        }
    }
}

} // verus!
