//! Which characters belong to which user, and which of them is the
//! user's main character.

use vstd::prelude::*;

use crate::auth::model::user::{UserAffiliation, UserGroups};
use crate::entity::auth_group_user::Model as GroupMembership;
use crate::entity::auth_user_character_ownership::Model as UserCharacterOwnership;
use crate::eve::model::character::CharacterAffiliationDto;
use crate::ids::insert_id;

pub mod ownership;

verus! {

/// The first ownership of the list that is marked as main.
pub open spec fn first_main(rows: Seq<UserCharacterOwnership>) -> Option<UserCharacterOwnership>
    decreases rows.len(),
{
    if rows.len() == 0 {
        None
    } else if rows[0].main {
        Some(rows[0])
    } else {
        first_main(rows.drop_first())
    }
}

/// The first ownership of the list that is not marked as main.
pub open spec fn first_non_main(rows: Seq<UserCharacterOwnership>) -> Option<
    UserCharacterOwnership,
>
    decreases rows.len(),
{
    if rows.len() == 0 {
        None
    } else if !rows[0].main {
        Some(rows[0])
    } else {
        first_non_main(rows.drop_first())
    }
}

/// The user's main character among the user's ownerships: the first one
/// marked as main, if any.
pub fn get_user_main_character(characters: &Vec<UserCharacterOwnership>) -> (r: Option<
    UserCharacterOwnership,
>)
    ensures
        r == first_main(characters@),
{
    let mut i: usize = 0;
    assert(characters@.skip(0) =~= characters@);
    while i < characters.len()
        invariant
            i <= characters@.len(),
            first_main(characters@) == first_main(characters@.skip(i as int)),
        decreases characters.len() - i,
    {
        proof {
            assert(characters@.skip(i as int).drop_first() =~= characters@.skip(i + 1));
        }
        if characters[i].main {
            return Some(characters[i].clone());
        }
        i = i + 1;
    }
    None
}

/// A character ownership still to be stored.
pub struct NewOwnership {
    pub user_id: i32,
    pub character_id: i32,
    pub ownerhash: String,
    pub main: bool,
}

/// What logging in with a character changes in the stored ownerships.
pub enum OwnershipChange {
    /// The character already belongs to the user under the same owner hash:
    /// nothing is written and the stored ownership is the result.
    Unchanged(UserCharacterOwnership),
    /// The stored ownership is rewritten as `updated`; where it was the
    /// previous owner's main and that owner keeps other characters,
    /// `promote` is the first of those, now marked as main, and is written
    /// first.
    Transfer { promote: Option<UserCharacterOwnership>, updated: UserCharacterOwnership },
    /// No ownership of the character exists: this one is stored.
    Create(NewOwnership),
}

/// What logging in as `character_id` with `ownerhash` on behalf of
/// `user_id` changes, given the character's stored ownership, the
/// ownerships of its current owner and those of `user_id`. The character
/// becomes the user's main exactly when the user owns no character yet.
pub open spec fn spec_plan_ownership_update(
    user_id: i32,
    character_id: i32,
    ownerhash: String,
    existing: Option<UserCharacterOwnership>,
    owner_characters: Seq<UserCharacterOwnership>,
    user_characters: Seq<UserCharacterOwnership>,
) -> OwnershipChange {
    match existing {
        None => OwnershipChange::Create(
            NewOwnership {
                user_id,
                character_id,
                ownerhash,
                main: user_characters.len() == 0,
            },
        ),
        Some(e) => if e.ownerhash@ == ownerhash@ && e.user_id == user_id {
            OwnershipChange::Unchanged(e)
        } else {
            OwnershipChange::Transfer {
                promote: if owner_characters.len() > 1 && e.main {
                    match first_non_main(owner_characters) {
                        Some(p) => Some(UserCharacterOwnership { main: true, ..p }),
                        None => None,
                    }
                } else {
                    None
                },
                updated: UserCharacterOwnership {
                    user_id,
                    ownerhash,
                    main: user_characters.len() == 0,
                    ..e
                },
            }
        },
    }
}

/// The first ownership of the list that is not marked as main.
fn find_non_main(rows: &Vec<UserCharacterOwnership>) -> (r: Option<UserCharacterOwnership>)
    ensures
        r == first_non_main(rows@),
{
    let mut i: usize = 0;
    assert(rows@.skip(0) =~= rows@);
    while i < rows.len()
        invariant
            i <= rows@.len(),
            first_non_main(rows@) == first_non_main(rows@.skip(i as int)),
        decreases rows.len() - i,
    {
        proof {
            assert(rows@.skip(i as int).drop_first() =~= rows@.skip(i + 1));
        }
        if !rows[i].main {
            return Some(rows[i].clone());
        }
        i = i + 1;
    }
    None
}

/// Decides what logging in as `character_id` with `ownerhash` on behalf of
/// `user_id` writes, given the character's stored ownership (`existing`),
/// the ownerships of the character's current owner and those of `user_id`.
pub fn update_ownership(
    user_id: i32,
    character_id: i32,
    ownerhash: String,
    existing: Option<UserCharacterOwnership>,
    owner_characters: &Vec<UserCharacterOwnership>,
    user_characters: &Vec<UserCharacterOwnership>,
) -> (r: OwnershipChange)
    ensures
        r == spec_plan_ownership_update(
            user_id,
            character_id,
            ownerhash,
            existing,
            owner_characters@,
            user_characters@,
        ),
{
    let main = user_characters.len() == 0;
    match existing {
        None => OwnershipChange::Create(NewOwnership { user_id, character_id, ownerhash, main }),
        Some(e) => {
            if e.ownerhash == ownerhash && e.user_id == user_id {
                return OwnershipChange::Unchanged(e);
            }
            let mut promote: Option<UserCharacterOwnership> = None;
            if owner_characters.len() > 1 && e.main {
                promote = match find_non_main(owner_characters) {
                    Some(p) => Some(UserCharacterOwnership { main: true, ..p }),
                    None => None,
                };
            }
            let updated = UserCharacterOwnership { user_id, ownerhash, main, ..e };
            OwnershipChange::Transfer { promote, updated }
        },
    }
}

/// Some ownership belongs to user `u`.
pub open spec fn owns_some(ownerships: Seq<UserCharacterOwnership>, u: i32) -> bool {
    exists|i: int| 0 <= i < ownerships.len() && #[trigger] ownerships[i].user_id == u
}

/// Some entry is about user `u`.
pub open spec fn affiliation_listed(entries: Seq<UserAffiliation>, u: i32) -> bool {
    exists|k: int| 0 <= k < entries.len() && #[trigger] entries[k].user_id == u
}

/// Some membership belongs to user `u`.
pub open spec fn member_somewhere(memberships: Seq<GroupMembership>, u: i32) -> bool {
    exists|i: int| 0 <= i < memberships.len() && #[trigger] memberships[i].user_id == u
}

/// Some entry is about user `u`.
pub open spec fn groups_listed(entries: Seq<UserGroups>, u: i32) -> bool {
    exists|k: int| 0 <= k < entries.len() && #[trigger] entries[k].user_id == u
}

/// The user of the last ownership of character `c`: a later ownership of
/// the same character takes the place of an earlier one.
pub open spec fn last_owner_of(ownerships: Seq<UserCharacterOwnership>, c: i32) -> Option<i32>
    decreases ownerships.len(),
{
    if ownerships.len() == 0 {
        None
    } else if ownerships.last().character_id == c {
        Some(ownerships.last().user_id)
    } else {
        last_owner_of(ownerships.drop_last(), c)
    }
}

/// The characters of user `u` among the affiliations.
pub open spec fn user_characters(
    ownerships: Seq<UserCharacterOwnership>,
    affiliations: Seq<CharacterAffiliationDto>,
    u: i32,
) -> Seq<i32> {
    affiliations.filter_map(
        |a: CharacterAffiliationDto|
            if last_owner_of(ownerships, a.character_id) == Some(u) {
                Some(a.character_id)
            } else {
                None
            },
    )
}

/// The corporations of user `u`'s characters, one per character.
pub open spec fn user_corporations(
    ownerships: Seq<UserCharacterOwnership>,
    affiliations: Seq<CharacterAffiliationDto>,
    u: i32,
) -> Seq<i32> {
    affiliations.filter_map(
        |a: CharacterAffiliationDto|
            if last_owner_of(ownerships, a.character_id) == Some(u) {
                Some(a.corporation_id)
            } else {
                None
            },
    )
}

/// The alliances of user `u`'s characters that have one.
pub open spec fn user_alliances(
    ownerships: Seq<UserCharacterOwnership>,
    affiliations: Seq<CharacterAffiliationDto>,
    u: i32,
) -> Seq<i32> {
    affiliations.filter_map(
        |a: CharacterAffiliationDto|
            if last_owner_of(ownerships, a.character_id) == Some(u) {
                a.alliance_id
            } else {
                None
            },
    )
}

fn find_last_owner(ownerships: &Vec<UserCharacterOwnership>, c: i32) -> (r: Option<i32>)
    ensures
        r == last_owner_of(ownerships@, c),
{
    let mut i: usize = ownerships.len();
    assert(ownerships@.take(i as int) =~= ownerships@);
    while i > 0
        invariant
            i <= ownerships@.len(),
            last_owner_of(ownerships@, c) == last_owner_of(ownerships@.take(i as int), c),
        decreases i,
    {
        proof {
            assert(ownerships@.take(i as int).drop_last() =~= ownerships@.take(i - 1));
        }
        if ownerships[i - 1].character_id == c {
            return Some(ownerships[i - 1].user_id);
        }
        i = i - 1;
    }
    None
}

/// The owners among the ownerships, each once, in order of first
/// appearance.
fn owner_ids(ownerships: &Vec<UserCharacterOwnership>) -> (r: Vec<i32>)
    ensures
        r@.no_duplicates(),
        forall|u: i32|
            #![trigger r@.contains(u)]
            r@.contains(u) <==> exists|i: int|
                0 <= i < ownerships@.len() && #[trigger] ownerships@[i].user_id == u,
{
    let mut ids: Vec<i32> = Vec::new();
    let mut i: usize = 0;
    while i < ownerships.len()
        invariant
            i <= ownerships@.len(),
            ids@.no_duplicates(),
            forall|u: i32|
                #![trigger ids@.contains(u)]
                ids@.contains(u) <==> exists|j: int|
                    0 <= j < i && #[trigger] ownerships@[j].user_id == u,
        decreases ownerships.len() - i,
    {
        insert_id(&mut ids, ownerships[i].user_id);
        proof {
            assert forall|u: i32|
                #![trigger ids@.contains(u)]
                ids@.contains(u) <==> exists|j: int|
                    0 <= j < i + 1 && #[trigger] ownerships@[j].user_id == u by {
                if exists|j: int| 0 <= j < i + 1 && #[trigger] ownerships@[j].user_id == u {
                    let j = choose|j: int| 0 <= j < i + 1 && #[trigger] ownerships@[j].user_id == u;
                    if j < i {
                        assert(ownerships@[j].user_id == u);
                    }
                }
                if u == ownerships@[i as int].user_id {
                    assert(ownerships@[i as int].user_id == u);
                }
            }
        }
        i = i + 1;
    }
    ids
}

/// One user's characters, corporations and alliances.
fn user_affiliation(
    ownerships: &Vec<UserCharacterOwnership>,
    affiliations: &Vec<CharacterAffiliationDto>,
    u: i32,
) -> (r: UserAffiliation)
    ensures
        r.user_id == u,
        r.characters@ == user_characters(ownerships@, affiliations@, u),
        r.corporations@ == user_corporations(ownerships@, affiliations@, u),
        r.alliances@ == user_alliances(ownerships@, affiliations@, u),
{
    let mut characters: Vec<i32> = Vec::new();
    let mut corporations: Vec<i32> = Vec::new();
    let mut alliances: Vec<i32> = Vec::new();
    let mut i: usize = 0;
    while i < affiliations.len()
        invariant
            i <= affiliations@.len(),
            characters@ == user_characters(ownerships@, affiliations@.take(i as int), u),
            corporations@ == user_corporations(ownerships@, affiliations@.take(i as int), u),
            alliances@ == user_alliances(ownerships@, affiliations@.take(i as int), u),
        decreases affiliations.len() - i,
    {
        proof {
            affiliations@.lemma_filter_map_take_succ(
                |a: CharacterAffiliationDto|
                    if last_owner_of(ownerships@, a.character_id) == Some(u) {
                        Some(a.character_id)
                    } else {
                        None
                    },
                i as int,
            );
            affiliations@.lemma_filter_map_take_succ(
                |a: CharacterAffiliationDto|
                    if last_owner_of(ownerships@, a.character_id) == Some(u) {
                        Some(a.corporation_id)
                    } else {
                        None
                    },
                i as int,
            );
            affiliations@.lemma_filter_map_take_succ(
                |a: CharacterAffiliationDto|
                    if last_owner_of(ownerships@, a.character_id) == Some(u) {
                        a.alliance_id
                    } else {
                        None
                    },
                i as int,
            );
        }
        let a = &affiliations[i];
        if find_last_owner(ownerships, a.character_id) == Some(u) {
            characters.push(a.character_id);
            corporations.push(a.corporation_id);
            if let Some(alliance_id) = a.alliance_id {
                alliances.push(alliance_id);
            }
        }
        i = i + 1;
    }
    assert(affiliations@.take(affiliations@.len() as int) =~= affiliations@);
    UserAffiliation { user_id: u, characters, corporations, alliances }
}

/// Groups the characters' affiliations by the users owning the
/// characters: one entry per owner, in order of first appearance.
pub fn bulk_get_user_affiliations(
    ownerships: &Vec<UserCharacterOwnership>,
    affiliations: &Vec<CharacterAffiliationDto>,
) -> (r: Vec<UserAffiliation>)
    ensures
        forall|i: int, j: int|
            0 <= i < j < r@.len() ==> #[trigger] r@[i].user_id != #[trigger] r@[j].user_id,
        forall|u: i32| #[trigger] affiliation_listed(r@, u) <==> owns_some(ownerships@, u),
        forall|k: int|
            0 <= k < r@.len() ==> {
                let e = #[trigger] r@[k];
                &&& e.characters@ == user_characters(ownerships@, affiliations@, e.user_id)
                &&& e.corporations@ == user_corporations(ownerships@, affiliations@, e.user_id)
                &&& e.alliances@ == user_alliances(ownerships@, affiliations@, e.user_id)
            },
{
    let users = owner_ids(ownerships);
    let mut result: Vec<UserAffiliation> = Vec::new();
    let mut k: usize = 0;
    while k < users.len()
        invariant
            k <= users@.len(),
            users@.no_duplicates(),
            result@.len() == k,
            forall|j: int| 0 <= j < k ==> #[trigger] result@[j].user_id == users@[j],
            forall|j: int|
                0 <= j < k ==> {
                    let e = #[trigger] result@[j];
                    &&& e.characters@ == user_characters(ownerships@, affiliations@, e.user_id)
                    &&& e.corporations@ == user_corporations(ownerships@, affiliations@, e.user_id)
                    &&& e.alliances@ == user_alliances(ownerships@, affiliations@, e.user_id)
                },
        decreases users.len() - k,
    {
        result.push(user_affiliation(ownerships, affiliations, users[k]));
        k = k + 1;
    }
    proof {
        assert forall|u: i32| #[trigger] affiliation_listed(result@, u) <==> owns_some(ownerships@, u) by {
            if exists|k: int| 0 <= k < result@.len() && #[trigger] result@[k].user_id == u {
                let k = choose|k: int| 0 <= k < result@.len() && #[trigger] result@[k].user_id == u;
                assert(users@.contains(u));
            }
            if users@.contains(u) {
                let k = choose|k: int| 0 <= k < users@.len() && users@[k] == u;
                assert(result@[k].user_id == u);
            }
        }
    }
    result
}

/// The groups of user `u` among the memberships.
pub open spec fn groups_of_user(memberships: Seq<GroupMembership>, u: i32) -> Seq<i32> {
    memberships.filter_map(
        |m: GroupMembership|
            if m.user_id == u {
                Some(m.group_id)
            } else {
                None
            },
    )
}

/// Groups memberships by user: one entry per member, in order of first
/// appearance, listing the member's groups in order.
pub fn bulk_get_user_groups(memberships: &Vec<GroupMembership>) -> (r: Vec<UserGroups>)
    ensures
        forall|i: int, j: int|
            0 <= i < j < r@.len() ==> #[trigger] r@[i].user_id != #[trigger] r@[j].user_id,
        forall|u: i32| #[trigger] groups_listed(r@, u) <==> member_somewhere(memberships@, u),
        forall|k: int|
            0 <= k < r@.len() ==> (#[trigger] r@[k]).groups@ == groups_of_user(
                memberships@,
                r@[k].user_id,
            ),
{
    let mut users: Vec<i32> = Vec::new();
    let mut i: usize = 0;
    while i < memberships.len()
        invariant
            i <= memberships@.len(),
            users@.no_duplicates(),
            forall|u: i32|
                #![trigger users@.contains(u)]
                users@.contains(u) <==> exists|j: int|
                    0 <= j < i && #[trigger] memberships@[j].user_id == u,
        decreases memberships.len() - i,
    {
        insert_id(&mut users, memberships[i].user_id);
        proof {
            assert forall|u: i32|
                #![trigger users@.contains(u)]
                users@.contains(u) <==> exists|j: int|
                    0 <= j < i + 1 && #[trigger] memberships@[j].user_id == u by {
                if exists|j: int| 0 <= j < i + 1 && #[trigger] memberships@[j].user_id == u {
                    let j = choose|j: int| 0 <= j < i + 1 && #[trigger] memberships@[j].user_id == u;
                    if j < i {
                        assert(memberships@[j].user_id == u);
                    }
                }
                if u == memberships@[i as int].user_id {
                    assert(memberships@[i as int].user_id == u);
                }
            }
        }
        i = i + 1;
    }
    let mut result: Vec<UserGroups> = Vec::new();
    let mut k: usize = 0;
    while k < users.len()
        invariant
            k <= users@.len(),
            users@.no_duplicates(),
            result@.len() == k,
            forall|j: int| 0 <= j < k ==> #[trigger] result@[j].user_id == users@[j],
            forall|j: int|
                0 <= j < k ==> (#[trigger] result@[j]).groups@ == groups_of_user(
                    memberships@,
                    result@[j].user_id,
                ),
        decreases users.len() - k,
    {
        let u = users[k];
        let mut groups: Vec<i32> = Vec::new();
        let mut m: usize = 0;
        while m < memberships.len()
            invariant
                m <= memberships@.len(),
                groups@ == groups_of_user(memberships@.take(m as int), u),
            decreases memberships.len() - m,
        {
            proof {
                memberships@.lemma_filter_map_take_succ(
                    |g: GroupMembership|
                        if g.user_id == u {
                            Some(g.group_id)
                        } else {
                            None
                        },
                    m as int,
                );
            }
            if memberships[m].user_id == u {
                groups.push(memberships[m].group_id);
            }
            m = m + 1;
        }
        assert(memberships@.take(memberships@.len() as int) =~= memberships@);
        result.push(UserGroups { user_id: u, groups });
        k = k + 1;
    }
    proof {
        assert forall|u: i32| #[trigger] groups_listed(result@, u) <==> member_somewhere(memberships@, u) by {
            if exists|k: int| 0 <= k < result@.len() && #[trigger] result@[k].user_id == u {
                let k = choose|k: int| 0 <= k < result@.len() && #[trigger] result@[k].user_id == u;
                assert(users@.contains(u));
            }
            if users@.contains(u) {
                let k = choose|k: int| 0 <= k < users@.len() && users@[k] == u;
                assert(result@[k].user_id == u);
            }
        }
    }
    result
}

/// Making a character the user's main: with the character's ownership and
/// the user's current main both known, the current main is unmarked and
/// the character marked, in that order; otherwise nothing changes.
pub fn update_user_main(
    new_main: Option<UserCharacterOwnership>,
    old_main: Option<UserCharacterOwnership>,
) -> (r: Option<(UserCharacterOwnership, UserCharacterOwnership)>)
    ensures
        r == (match (new_main, old_main) {
            (Some(n), Some(o)) => Some(
                (UserCharacterOwnership { main: false, ..o }, UserCharacterOwnership { main: true, ..n }),
            ),
            _ => None,
        }),
{
    match (new_main, old_main) {
        (Some(n), Some(o)) => Some(
            (UserCharacterOwnership { main: false, ..o }, UserCharacterOwnership { main: true, ..n }),
        ),
        _ => None,
    }
}

} // verus!
