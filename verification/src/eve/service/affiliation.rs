//! Keeping stored characters' corporations up to date.

use vstd::prelude::*;

use crate::entity::eve_character::Model as Character;

verus! {

/// A character's current corporation as the EVE API reports it.
#[derive(Clone, Copy, Debug, PartialEq, Eq, Structural)]
pub struct CharacterAffiliation {
    pub character_id: i32,
    pub corporation_id: i32,
    pub alliance_id: Option<i32>,
    pub faction_id: Option<i32>,
}

/// The corporation the first reported affiliation of character `c` names.
pub open spec fn reported_corporation(affiliations: Seq<CharacterAffiliation>, c: i32) -> Option<
    i32,
>
    decreases affiliations.len(),
{
    if affiliations.len() == 0 {
        None
    } else if affiliations[0].character_id == c {
        Some(affiliations[0].corporation_id)
    } else {
        reported_corporation(affiliations.drop_first(), c)
    }
}

/// The update of one stored character: its row id and its reported
/// corporation, where one is reported.
pub open spec fn character_update(affiliations: Seq<CharacterAffiliation>, character: Character) -> Option<
    (i32, i32),
> {
    match reported_corporation(affiliations, character.character_id) {
        Some(corp) => Some((character.id, corp)),
        None => None,
    }
}

fn find_reported_corporation(affiliations: &Vec<CharacterAffiliation>, c: i32) -> (r: Option<i32>)
    ensures
        r == reported_corporation(affiliations@, c),
{
    let mut i: usize = 0;
    assert(affiliations@.skip(0) =~= affiliations@);
    while i < affiliations.len()
        invariant
            i <= affiliations@.len(),
            reported_corporation(affiliations@, c) == reported_corporation(
                affiliations@.skip(i as int),
                c,
            ),
        decreases affiliations.len() - i,
    {
        proof {
            assert(affiliations@.skip(i as int).drop_first() =~= affiliations@.skip(i + 1));
        }
        if affiliations[i].character_id == c {
            return Some(affiliations[i].corporation_id);
        }
        i = i + 1;
    }
    None
}

/// The corporation updates for the stored characters, in order: each
/// character with a reported affiliation is moved to its corporation.
pub fn update_affiliation(characters: &Vec<Character>, affiliations: &Vec<CharacterAffiliation>) -> (r:
    Vec<(i32, i32)>)
    ensures
        r@ == characters@.filter_map(|c: Character| character_update(affiliations@, c)),
{
    let mut updates: Vec<(i32, i32)> = Vec::new();
    let mut i: usize = 0;
    while i < characters.len()
        invariant
            i <= characters@.len(),
            updates@ == characters@.take(i as int).filter_map(
                |c: Character| character_update(affiliations@, c),
            ),
        decreases characters.len() - i,
    {
        proof {
            characters@.lemma_filter_map_take_succ(
                |c: Character| character_update(affiliations@, c),
                i as int,
            );
        }
        let character = &characters[i];
        if let Some(corp) = find_reported_corporation(affiliations, character.character_id) {
            updates.push((character.id, corp));
        }
        i = i + 1;
    }
    assert(characters@.take(characters@.len() as int) =~= characters@);
    updates
}

} // verus!
