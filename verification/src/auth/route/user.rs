//! The decisions of the current user's pages.

use vstd::prelude::*;

use crate::entity::auth_user_character_ownership::Model as UserCharacterOwnership;
use crate::ids::unique_ids;
use crate::text::{parse_i32, spec_parse_i32};

verus! {

/// The user id kept in the session, stored as decimal text; `None` when no
/// user is logged in. The session only ever holds ids written by the login,
/// so the text is always a number.
pub fn user_id_from_session(user: &Option<String>) -> (r: Option<i32>)
    requires
        user matches Some(u) ==> spec_parse_i32(u@) is Some,
    ensures
        r == (match user {
            Some(u) => spec_parse_i32(u@),
            None => None,
        }),
{
    match user {
        Some(u) => parse_i32(u.as_str()),
        None => None,
    }
}

/// The character ids of the user's ownerships, each once, to look up
/// their affiliations; `None` when the user owns no character, which the
/// page answers with "No characters found for user".
pub fn user_character_ids(characters: &Vec<UserCharacterOwnership>) -> (r: Option<Vec<i32>>)
    ensures
        r is None <==> characters@.len() == 0,
        r matches Some(ids) ==> ids@.no_duplicates() && forall|c: i32|
            ids@.contains(c) <==> exists|i: int|
                0 <= i < characters@.len() && #[trigger] characters@[i].character_id == c,
{
    if characters.len() == 0 {
        return None;
    }
    let mut all: Vec<i32> = Vec::new();
    let mut i: usize = 0;
    while i < characters.len()
        invariant
            i <= characters@.len(),
            all@.len() == i,
            forall|k: int| 0 <= k < i ==> all@[k] == #[trigger] characters@[k].character_id,
        decreases characters.len() - i,
    {
        all.push(characters[i].character_id);
        i = i + 1;
    }
    let ids = unique_ids(&all);
    proof {
        assert forall|c: i32|
            ids@.contains(c) <==> exists|i: int|
                0 <= i < characters@.len() && #[trigger] characters@[i].character_id == c by {
            if all@.contains(c) {
                let k = choose|k: int| 0 <= k < all@.len() && all@[k] == c;
                assert(characters@[k].character_id == c);
            }
            if exists|i: int| 0 <= i < characters@.len() && #[trigger] characters@[i].character_id == c {
                let k = choose|k: int| 0 <= k < characters@.len() && #[trigger] characters@[k].character_id == c;
                assert(all@[k] == c);
            }
        }
    }
    Some(ids)
}

} // verus!
