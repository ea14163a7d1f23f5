//! Characters with their corporations and alliances.

use vstd::prelude::*;

use crate::entity::eve_alliance::Model as Alliance;
use crate::entity::eve_character::Model as Character;
use crate::entity::eve_corporation::Model as Corporation;
use crate::eve::model::character::CharacterAffiliationDto;
use crate::ids::insert_id;

verus! {

/// The first corporation of the list with id `id`.
pub open spec fn corporation_with_id(corporations: Seq<Corporation>, id: i32) -> Option<Corporation>
    decreases corporations.len(),
{
    if corporations.len() == 0 {
        None
    } else if corporations[0].corporation_id == id {
        Some(corporations[0])
    } else {
        corporation_with_id(corporations.drop_first(), id)
    }
}

/// The first alliance of the list with id `id`.
pub open spec fn alliance_with_id(alliances: Seq<Alliance>, id: i32) -> Option<Alliance>
    decreases alliances.len(),
{
    if alliances.len() == 0 {
        None
    } else if alliances[0].alliance_id == id {
        Some(alliances[0])
    } else {
        alliance_with_id(alliances.drop_first(), id)
    }
}

/// Every character's corporation is listed, and so is the alliance of
/// every such corporation that has one.
pub open spec fn affiliations_known(
    characters: Seq<Character>,
    corporations: Seq<Corporation>,
    alliances: Seq<Alliance>,
) -> bool {
    forall|i: int|
        0 <= i < characters.len() ==> {
            let corp = corporation_with_id(corporations, #[trigger] characters[i].corporation_id);
            &&& corp is Some
            &&& corp->0.alliance_id matches Some(a) ==> alliance_with_id(alliances, a) is Some
        }
}

/// A character with its corporation and, where the corporation has one,
/// its alliance.
pub open spec fn spec_affiliation(
    character: Character,
    corporations: Seq<Corporation>,
    alliances: Seq<Alliance>,
) -> CharacterAffiliationDto {
    let corp = corporation_with_id(corporations, character.corporation_id)->0;
    CharacterAffiliationDto {
        character_id: character.character_id,
        character_name: character.character_name,
        corporation_id: corp.corporation_id,
        corporation_name: corp.corporation_name,
        alliance_id: match corp.alliance_id {
            Some(a) => Some(alliance_with_id(alliances, a)->0.alliance_id),
            None => None,
        },
        alliance_name: match corp.alliance_id {
            Some(a) => Some(alliance_with_id(alliances, a)->0.alliance_name),
            None => None,
        },
    }
}

/// The corporations of the characters, each once: what the affiliation
/// lookup asks for.
pub fn character_corporation_ids(characters: &Vec<Character>) -> (r: Vec<i32>)
    ensures
        r@.no_duplicates(),
        forall|c: i32|
            #![trigger r@.contains(c)]
            r@.contains(c) <==> exists|i: int|
                0 <= i < characters@.len() && #[trigger] characters@[i].corporation_id == c,
{
    let mut ids: Vec<i32> = Vec::new();
    let mut i: usize = 0;
    while i < characters.len()
        invariant
            i <= characters@.len(),
            ids@.no_duplicates(),
            forall|c: i32|
                #![trigger ids@.contains(c)]
                ids@.contains(c) <==> exists|j: int|
                    0 <= j < i && #[trigger] characters@[j].corporation_id == c,
        decreases characters.len() - i,
    {
        insert_id(&mut ids, characters[i].corporation_id);
        proof {
            assert forall|c: i32|
                #![trigger ids@.contains(c)]
                ids@.contains(c) <==> exists|j: int|
                    0 <= j < i + 1 && #[trigger] characters@[j].corporation_id == c by {
                if exists|j: int| 0 <= j < i + 1 && #[trigger] characters@[j].corporation_id == c {
                    let j = choose|j: int|
                        0 <= j < i + 1 && #[trigger] characters@[j].corporation_id == c;
                    if j < i {
                        assert(characters@[j].corporation_id == c);
                    }
                }
                if c == characters@[i as int].corporation_id {
                    assert(characters@[i as int].corporation_id == c);
                }
            }
        }
        i = i + 1;
    }
    ids
}

/// The alliances of the corporations, each once.
pub fn corporation_alliance_ids(corporations: &Vec<Corporation>) -> (r: Vec<i32>)
    ensures
        r@.no_duplicates(),
        forall|a: i32|
            #![trigger r@.contains(a)]
            r@.contains(a) <==> exists|i: int|
                0 <= i < corporations@.len() && #[trigger] corporations@[i].alliance_id == Some(a),
{
    let mut ids: Vec<i32> = Vec::new();
    let mut i: usize = 0;
    while i < corporations.len()
        invariant
            i <= corporations@.len(),
            ids@.no_duplicates(),
            forall|a: i32|
                #![trigger ids@.contains(a)]
                ids@.contains(a) <==> exists|j: int|
                    0 <= j < i && #[trigger] corporations@[j].alliance_id == Some(a),
        decreases corporations.len() - i,
    {
        if let Some(a) = corporations[i].alliance_id {
            insert_id(&mut ids, a);
        }
        proof {
            assert forall|a: i32|
                #![trigger ids@.contains(a)]
                ids@.contains(a) <==> exists|j: int|
                    0 <= j < i + 1 && #[trigger] corporations@[j].alliance_id == Some(a) by {
                if exists|j: int| 0 <= j < i + 1 && #[trigger] corporations@[j].alliance_id == Some(a) {
                    let j = choose|j: int|
                        0 <= j < i + 1 && #[trigger] corporations@[j].alliance_id == Some(a);
                    if j < i {
                        assert(corporations@[j].alliance_id == Some(a));
                    }
                }
                if corporations@[i as int].alliance_id == Some(a) {
                    assert(corporations@[i as int].alliance_id == Some(a));
                }
            }
        }
        i = i + 1;
    }
    ids
}

fn find_corporation(corporations: &Vec<Corporation>, id: i32) -> (r: Option<usize>)
    ensures
        match r {
            Some(k) => k < corporations@.len() && corporation_with_id(corporations@, id) == Some(
                corporations@[k as int],
            ),
            None => corporation_with_id(corporations@, id) is None,
        },
{
    let mut i: usize = 0;
    assert(corporations@.skip(0) =~= corporations@);
    while i < corporations.len()
        invariant
            i <= corporations@.len(),
            corporation_with_id(corporations@, id) == corporation_with_id(
                corporations@.skip(i as int),
                id,
            ),
        decreases corporations.len() - i,
    {
        proof {
            assert(corporations@.skip(i as int).drop_first() =~= corporations@.skip(i + 1));
        }
        if corporations[i].corporation_id == id {
            return Some(i);
        }
        i = i + 1;
    }
    None
}

fn find_alliance(alliances: &Vec<Alliance>, id: i32) -> (r: Option<usize>)
    ensures
        match r {
            Some(k) => k < alliances@.len() && alliance_with_id(alliances@, id) == Some(
                alliances@[k as int],
            ),
            None => alliance_with_id(alliances@, id) is None,
        },
{
    let mut i: usize = 0;
    assert(alliances@.skip(0) =~= alliances@);
    while i < alliances.len()
        invariant
            i <= alliances@.len(),
            alliance_with_id(alliances@, id) == alliance_with_id(alliances@.skip(i as int), id),
        decreases alliances.len() - i,
    {
        proof {
            assert(alliances@.skip(i as int).drop_first() =~= alliances@.skip(i + 1));
        }
        if alliances[i].alliance_id == id {
            return Some(i);
        }
        i = i + 1;
    }
    None
}

/// Whether every character's corporation, and that corporation's alliance
/// where it has one, is listed: what joining them needs.
pub fn affiliations_are_known(
    characters: &Vec<Character>,
    corporations: &Vec<Corporation>,
    alliances: &Vec<Alliance>,
) -> (r: bool)
    ensures
        r == affiliations_known(characters@, corporations@, alliances@),
{
    let mut i: usize = 0;
    while i < characters.len()
        invariant
            i <= characters@.len(),
            forall|j: int|
                0 <= j < i ==> {
                    let corp = corporation_with_id(corporations@, #[trigger] characters@[j].corporation_id);
                    &&& corp is Some
                    &&& corp->0.alliance_id matches Some(a) ==> alliance_with_id(alliances@, a) is Some
                },
        decreases characters.len() - i,
    {
        match find_corporation(corporations, characters[i].corporation_id) {
            None => {
                return false;
            },
            Some(k) => {
                if let Some(a) = corporations[k].alliance_id {
                    if find_alliance(alliances, a).is_none() {
                        return false;
                    }
                }
            },
        }
        i = i + 1;
    }
    true
}

/// Each character with its corporation and alliance, in order. Every
/// corporation and alliance involved must be listed.
pub fn bulk_get_character_affiliations(
    characters: &Vec<Character>,
    corporations: &Vec<Corporation>,
    alliances: &Vec<Alliance>,
) -> (r: Vec<CharacterAffiliationDto>)
    requires
        affiliations_known(characters@, corporations@, alliances@),
    ensures
        r@.len() == characters@.len(),
        forall|i: int|
            0 <= i < characters@.len() ==> #[trigger] r@[i] == spec_affiliation(
                characters@[i],
                corporations@,
                alliances@,
            ),
{
    let mut result: Vec<CharacterAffiliationDto> = Vec::new();
    let mut i: usize = 0;
    while i < characters.len()
        invariant
            i <= characters@.len(),
            affiliations_known(characters@, corporations@, alliances@),
            result@.len() == i,
            forall|j: int|
                0 <= j < i ==> #[trigger] result@[j] == spec_affiliation(
                    characters@[j],
                    corporations@,
                    alliances@,
                ),
        decreases characters.len() - i,
    {
        let character = &characters[i];
        assert(corporation_with_id(corporations@, characters@[i as int].corporation_id) is Some);
        let k = match find_corporation(corporations, character.corporation_id) {
            Some(k) => k,
            None => {
                proof {
                    assert(false);
                }
                0
            },
        };
        let corporation = &corporations[k];
        let (alliance_id, alliance_name) = match corporation.alliance_id {
            Some(a) => {
                match find_alliance(alliances, a) {
                    Some(m) => (Some(alliances[m].alliance_id), Some(alliances[m].alliance_name.clone())),
                    None => {
                        proof {
                            assert(false);
                        }
                        (None, None)
                    },
                }
            },
            None => (None, None),
        };
        result.push(
            CharacterAffiliationDto {
                character_id: character.character_id,
                character_name: character.character_name.clone(),
                corporation_id: corporation.corporation_id,
                corporation_name: corporation.corporation_name.clone(),
                alliance_id,
                alliance_name,
            },
        );
        i = i + 1;
    }
    result
}

} // verus!
