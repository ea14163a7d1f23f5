//! Who belongs to a group, and the steps of joining and leaving one.

use vstd::prelude::*;

use crate::auth::data::groups::filters::{
    eligible_members, filters_valid, members_hold, MembershipFacts,
};
use crate::auth::data::groups::GroupError;
use crate::auth::model::groups::GroupFilters;
use crate::auth::model::user::UserDto;
use crate::entity::auth_group::Model as Group;
use crate::entity::auth_user_character_ownership::Model as UserCharacterOwnership;
use crate::entity::eve_character::Model as Character;
use crate::entity::sea_orm_active_enums::{GroupApplicationType, GroupType};

verus! {

/// The user of the first main-character ownership of character `c`.
pub open spec fn owner_of_character(mains: Seq<UserCharacterOwnership>, c: i32) -> Option<i32>
    decreases mains.len(),
{
    if mains.len() == 0 {
        None
    } else if mains[0].character_id == c {
        Some(mains[0].user_id)
    } else {
        owner_of_character(mains.drop_first(), c)
    }
}

/// The members listed for a group: for each of the members' main
/// characters, in order, the user owning it.
pub open spec fn spec_group_members(
    characters: Seq<Character>,
    mains: Seq<UserCharacterOwnership>,
) -> Seq<UserDto>
    decreases characters.len(),
{
    if characters.len() == 0 {
        Seq::empty()
    } else {
        let rest = spec_group_members(characters.drop_last(), mains);
        let c = characters.last();
        match owner_of_character(mains, c.character_id) {
            Some(user_id) => rest.push(
                UserDto { id: user_id, character_id: c.character_id, character_name: c.character_name },
            ),
            None => rest,
        }
    }
}

/// The user owning character `c` according to the main-character
/// ownerships.
fn find_owner(mains: &Vec<UserCharacterOwnership>, c: i32) -> (r: Option<i32>)
    ensures
        r == owner_of_character(mains@, c),
{
    let mut i: usize = 0;
    assert(mains@.skip(0) =~= mains@);
    while i < mains.len()
        invariant
            i <= mains@.len(),
            owner_of_character(mains@, c) == owner_of_character(mains@.skip(i as int), c),
        decreases mains.len() - i,
    {
        proof {
            assert(mains@.skip(i as int).drop_first() =~= mains@.skip(i + 1));
        }
        if mains[i].character_id == c {
            return Some(mains[i].user_id);
        }
        i = i + 1;
    }
    None
}

/// Lists a group's members from their main characters and the ownerships
/// of those characters.
pub fn get_group_members(
    characters: &Vec<Character>,
    mains: &Vec<UserCharacterOwnership>,
) -> (r: Vec<UserDto>)
    ensures
        r@ == spec_group_members(characters@, mains@),
{
    let mut members: Vec<UserDto> = Vec::new();
    let mut i: usize = 0;
    while i < characters.len()
        invariant
            i <= characters@.len(),
            members@ == spec_group_members(characters@.take(i as int), mains@),
        decreases characters.len() - i,
    {
        proof {
            assert(characters@.take(i + 1).drop_last() =~= characters@.take(i as int));
        }
        let c = &characters[i];
        match find_owner(mains, c.character_id) {
            Some(user_id) => {
                members.push(
                    UserDto {
                        id: user_id,
                        character_id: c.character_id,
                        character_name: c.character_name.clone(),
                    },
                );
            },
            None => {},
        }
        i = i + 1;
    }
    assert(characters@.take(characters@.len() as int) =~= characters@);
    members
}

/// Where `owner_of_character` finds an owner, it is the user of the first
/// main-character ownership of that character.
proof fn lemma_owner_position(mains: Seq<UserCharacterOwnership>, c: i32)
    ensures
        owner_of_character(mains, c) matches Some(u) ==> exists|m: int|
            0 <= m < mains.len() && #[trigger] mains[m].character_id == c && mains[m].user_id == u
                && forall|l: int| 0 <= l < m ==> #[trigger] mains[l].character_id != c,
    decreases mains.len(),
{
    if mains.len() > 0 && mains[0].character_id != c {
        let rest = mains.drop_first();
        lemma_owner_position(rest, c);
        if owner_of_character(rest, c) is Some {
            let u = owner_of_character(rest, c)->0;
            let m = choose|m: int|
                0 <= m < rest.len() && #[trigger] rest[m].character_id == c && rest[m].user_id == u
                    && forall|l: int| 0 <= l < m ==> #[trigger] rest[l].character_id != c;
            assert(mains[m + 1] == rest[m]);
            assert forall|l: int| 0 <= l < m + 1 implies #[trigger] mains[l].character_id != c by {
                if l > 0 {
                    assert(mains[l] == rest[l - 1]);
                }
            }
        }
    } else if mains.len() > 0 {
        assert(mains[0].character_id == c);
    }
}

/// Member `e` shows a character of the list, by its EVE character id and
/// name, and is the user of the first main-character ownership of that
/// character.
pub open spec fn shows_owned_character(
    characters: Seq<Character>,
    mains: Seq<UserCharacterOwnership>,
    e: UserDto,
) -> bool {
    exists|c: int, m: int|
        #![trigger characters[c], mains[m]]
        0 <= c < characters.len() && 0 <= m < mains.len() && e.character_id
            == characters[c].character_id && e.character_name == characters[c].character_name
            && mains[m].character_id == characters[c].character_id && mains[m].user_id == e.id
            && forall|l: int|
            0 <= l < m ==> #[trigger] mains[l].character_id != characters[c].character_id
}

/// Each listed member shows a character of the list, as
/// `shows_owned_character` says.
pub open spec fn lists_owned_characters(
    characters: Seq<Character>,
    mains: Seq<UserCharacterOwnership>,
    listed: Seq<UserDto>,
) -> bool {
    forall|i: int|
        0 <= i < listed.len() ==> #[trigger] shows_owned_character(characters, mains, listed[i])
}

proof fn lemma_members_are_owners_upto(
    characters: Seq<Character>,
    mains: Seq<UserCharacterOwnership>,
)
    ensures
        lists_owned_characters(characters, mains, spec_group_members(characters, mains)),
    decreases characters.len(),
{
    if characters.len() > 0 {
        let init = characters.drop_last();
        lemma_members_are_owners_upto(init, mains);
        let rest = spec_group_members(init, mains);
        let listed = spec_group_members(characters, mains);
        let n = characters.len() - 1;
        let ch = characters.last();
        lemma_owner_position(mains, ch.character_id);
        assert forall|i: int| 0 <= i < listed.len() implies #[trigger] shows_owned_character(
            characters,
            mains,
            listed[i],
        ) by {
            if i < rest.len() {
                assert(listed[i] == rest[i]);
                assert(shows_owned_character(init, mains, rest[i]));
                let (c, m) = choose|c: int, m: int|
                    #![trigger init[c], mains[m]]
                    0 <= c < init.len() && 0 <= m < mains.len() && rest[i].character_id
                        == init[c].character_id && rest[i].character_name == init[c].character_name
                        && mains[m].character_id == init[c].character_id && mains[m].user_id
                        == rest[i].id && forall|l: int|
                        0 <= l < m ==> #[trigger] mains[l].character_id != init[c].character_id;
                assert(characters[c] == init[c]);
            } else {
                let u = owner_of_character(mains, ch.character_id)->0;
                let m = choose|m: int|
                    0 <= m < mains.len() && #[trigger] mains[m].character_id == ch.character_id
                        && mains[m].user_id == u && forall|l: int|
                        0 <= l < m ==> #[trigger] mains[l].character_id != ch.character_id;
                assert(characters[n] == ch);
            }
        }
    }
}

/// Every listed member is shown with one of the group's member characters,
/// by that character's EVE character id and name, and is the user who owns
/// that character as main (by the first main-character ownership of it).
pub proof fn lemma_members_are_owners(
    characters: Seq<Character>,
    mains: Seq<UserCharacterOwnership>,
)
    ensures
        lists_owned_characters(characters, mains, spec_group_members(characters, mains)),
{
    lemma_members_are_owners_upto(characters, mains);
}

/// The users to add to a group: an unknown group is refused, otherwise
/// the users asked about that pass the group's filters, each once.
pub fn add_group_members(
    group: &Option<Group>,
    filters: &Option<GroupFilters>,
    user_ids: &Vec<i32>,
    facts: &MembershipFacts,
) -> (r: Result<Vec<i32>, GroupError>)
    requires
        *filters matches Some(f) ==> filters_valid(f),
    ensures
        group is None <==> r == Err::<Vec<i32>, GroupError>(GroupError::GroupDoesNotExist),
        group is Some <==> r is Ok,
        r matches Ok(v) ==> v@.no_duplicates() && forall|u: i32|
            #![trigger v@.contains(u)]
            v@.contains(u) <==> members_hold(*filters, user_ids@, *facts, u),
{
    match group {
        None => Err(GroupError::GroupDoesNotExist),
        Some(_) => Ok(eligible_members(filters, user_ids, facts)),
    }
}

/// What joining or leaving asks of the database next.
#[derive(Clone, Copy, Debug, PartialEq, Eq, Structural)]
pub enum MembershipAction {
    /// Look up the group.
    FetchGroup { group_id: i32 },
    /// Add the user to the group, subject to its filters.
    AddMember { group_id: i32, user_id: i32 },
    /// Check the user against the group's filters.
    CheckEligibility { group_id: i32, user_id: i32 },
    /// Look up the user's membership of the group.
    FetchMembership { group_id: i32, user_id: i32 },
    /// Look for an outstanding application of this type by the user.
    FindOutstandingApplication {
        group_id: i32,
        user_id: i32,
        request_type: GroupApplicationType,
    },
    /// Store a new outstanding application.
    CreateApplication { group_id: i32, user_id: i32, request_type: GroupApplicationType },
    /// Look up the application just stored, to return it.
    FetchApplication { application_id: i32 },
    /// Remove the user from the group.
    RemoveMember { group_id: i32, user_id: i32 },
    /// The request is done.
    Finish(MembershipOutcome),
    /// Nothing to do: the event did not belong to the current step.
    Idle,
}

/// How a join or leave request ended.
#[derive(Clone, Copy, Debug, PartialEq, Eq, Structural)]
pub enum MembershipOutcome {
    /// The user joined or left; no application is returned.
    Changed,
    /// An application was stored; the fetched application is returned.
    Applied,
    /// The request was refused.
    Refused(GroupError),
}

/// A group as far as joining and leaving it is concerned.
#[derive(Clone, Copy, Debug, PartialEq, Eq, Structural)]
pub struct FetchedGroup {
    pub group_type: GroupType,
    pub leave_applications: bool,
}

/// What inserting memberships did.
#[derive(Clone, Copy, Debug, PartialEq, Eq, Structural)]
pub enum InsertOutcome {
    /// At least one membership was inserted.
    Inserted,
    /// There was nothing to insert: no user passed the filters.
    Empty,
    /// Every membership to insert existed already.
    Conflicted,
}

/// What the database answered.
#[derive(Clone, Copy, Debug, PartialEq, Eq, Structural)]
pub enum MembershipEvent {
    /// The group, if it exists: its type and whether leaving needs an
    /// application.
    GroupFetched(Option<FetchedGroup>),
    /// Adding the user was tried, with this outcome.
    MemberAdded { outcome: InsertOutcome },
    /// Whether the user passes the group's filters.
    EligibilityChecked { eligible: bool },
    /// Whether the user is a member of the group.
    MembershipFetched { member: bool },
    /// Whether an outstanding application of the type exists.
    OutstandingApplicationFound { found: bool },
    /// The id of the application just stored.
    ApplicationCreated { application_id: i32 },
    /// The application was fetched.
    ApplicationFetched,
    /// The user was removed from the group.
    MemberRemoved,
}

/// Where a join or leave request stands.
#[derive(Clone, Copy, Debug, PartialEq, Eq, Structural)]
pub enum MembershipStage {
    AwaitGroup,
    AwaitMemberAdded,
    AwaitEligibility,
    AwaitMembership { leave_applications: bool },
    AwaitOutstanding,
    AwaitCreated,
    AwaitApplication,
    AwaitMemberRemoved,
    Done,
}

/// The first step of a join or leave request: look up the group.
pub fn start_membership_request(group_id: i32) -> (r: (MembershipStage, MembershipAction))
    ensures
        r == (MembershipStage::AwaitGroup, MembershipAction::FetchGroup { group_id }),
{
    (MembershipStage::AwaitGroup, MembershipAction::FetchGroup { group_id })
}

/// One step of joining a group. An unknown group is refused. `Open` and
/// `Auto` groups add the user directly where the user passes the filters;
/// the request is refused only where the membership existed already, and
/// ends as done also where the user did not pass and nothing was inserted. `Apply` and `Hidden` groups refuse a user that does not pass
/// the filters or already has an outstanding join application, and
/// otherwise store a join application and return it.
pub open spec fn spec_join_group(
    stage: MembershipStage,
    group_id: i32,
    user_id: i32,
    event: MembershipEvent,
) -> (MembershipStage, MembershipAction) {
    match (stage, event) {
        (MembershipStage::AwaitGroup, MembershipEvent::GroupFetched(group)) => match group {
            None => (
                MembershipStage::Done,
                MembershipAction::Finish(MembershipOutcome::Refused(GroupError::GroupDoesNotExist)),
            ),
            Some(FetchedGroup { group_type, .. }) => if group_type == GroupType::Open || group_type
                == GroupType::Auto {
                (MembershipStage::AwaitMemberAdded, MembershipAction::AddMember { group_id, user_id })
            } else {
                (
                    MembershipStage::AwaitEligibility,
                    MembershipAction::CheckEligibility { group_id, user_id },
                )
            },
        },
        (MembershipStage::AwaitMemberAdded, MembershipEvent::MemberAdded { outcome }) => (
            MembershipStage::Done,
            MembershipAction::Finish(
                if outcome == InsertOutcome::Conflicted {
                    MembershipOutcome::Refused(GroupError::AlreadyAMember)
                } else {
                    MembershipOutcome::Changed
                },
            ),
        ),
        (MembershipStage::AwaitEligibility, MembershipEvent::EligibilityChecked { eligible }) =>
            if eligible {
            (
                MembershipStage::AwaitOutstanding,
                MembershipAction::FindOutstandingApplication {
                    group_id,
                    user_id,
                    request_type: GroupApplicationType::Join,
                },
            )
        } else {
            (
                MembershipStage::Done,
                MembershipAction::Finish(MembershipOutcome::Refused(GroupError::UserDoesNotMeetGroupRequirements)),
            )
        },
        (MembershipStage::AwaitOutstanding, MembershipEvent::OutstandingApplicationFound { found }) =>
            if found {
            (MembershipStage::Done, MembershipAction::Finish(MembershipOutcome::Refused(GroupError::JoinApplicationExists)))
        } else {
            (
                MembershipStage::AwaitCreated,
                MembershipAction::CreateApplication {
                    group_id,
                    user_id,
                    request_type: GroupApplicationType::Join,
                },
            )
        },
        (MembershipStage::AwaitCreated, MembershipEvent::ApplicationCreated { application_id }) => (
            MembershipStage::AwaitApplication,
            MembershipAction::FetchApplication { application_id },
        ),
        (MembershipStage::AwaitApplication, MembershipEvent::ApplicationFetched) => (
            MembershipStage::Done,
            MembershipAction::Finish(MembershipOutcome::Applied),
        ),
        _ => (stage, MembershipAction::Idle),
    }
}

/// One step of joining a group, as `spec_join_group` states.
pub fn join_group(stage: MembershipStage, group_id: i32, user_id: i32, event: MembershipEvent) -> (r: (
    MembershipStage,
    MembershipAction,
))
    ensures
        r == spec_join_group(stage, group_id, user_id, event),
{
    match (stage, event) {
        (MembershipStage::AwaitGroup, MembershipEvent::GroupFetched(group)) => match group {
            None => (
                MembershipStage::Done,
                MembershipAction::Finish(MembershipOutcome::Refused(GroupError::GroupDoesNotExist)),
            ),
            Some(FetchedGroup { group_type, .. }) => match group_type {
                GroupType::Open | GroupType::Auto => (
                    MembershipStage::AwaitMemberAdded,
                    MembershipAction::AddMember { group_id, user_id },
                ),
                GroupType::Apply | GroupType::Hidden => (
                    MembershipStage::AwaitEligibility,
                    MembershipAction::CheckEligibility { group_id, user_id },
                ),
            },
        },
        (MembershipStage::AwaitMemberAdded, MembershipEvent::MemberAdded { outcome }) => {
            if outcome == InsertOutcome::Conflicted {
                (MembershipStage::Done, MembershipAction::Finish(MembershipOutcome::Refused(GroupError::AlreadyAMember)))
            } else {
                (MembershipStage::Done, MembershipAction::Finish(MembershipOutcome::Changed))
            }
        },
        (MembershipStage::AwaitEligibility, MembershipEvent::EligibilityChecked { eligible }) => {
            if eligible {
                (
                    MembershipStage::AwaitOutstanding,
                    MembershipAction::FindOutstandingApplication {
                        group_id,
                        user_id,
                        request_type: GroupApplicationType::Join,
                    },
                )
            } else {
                (
                    MembershipStage::Done,
                    MembershipAction::Finish(MembershipOutcome::Refused(GroupError::UserDoesNotMeetGroupRequirements)),
                )
            }
        },
        (MembershipStage::AwaitOutstanding, MembershipEvent::OutstandingApplicationFound { found }) => {
            if found {
                (
                    MembershipStage::Done,
                    MembershipAction::Finish(MembershipOutcome::Refused(GroupError::JoinApplicationExists)),
                )
            } else {
                (
                    MembershipStage::AwaitCreated,
                    MembershipAction::CreateApplication {
                        group_id,
                        user_id,
                        request_type: GroupApplicationType::Join,
                    },
                )
            }
        },
        (MembershipStage::AwaitCreated, MembershipEvent::ApplicationCreated { application_id }) => (
            MembershipStage::AwaitApplication,
            MembershipAction::FetchApplication { application_id },
        ),
        (MembershipStage::AwaitApplication, MembershipEvent::ApplicationFetched) => (
            MembershipStage::Done,
            MembershipAction::Finish(MembershipOutcome::Applied),
        ),
        _ => (stage, MembershipAction::Idle),
    }
}

/// One step of leaving a group. An unknown group and a user that is no
/// member are refused. Where leaving needs an application, a user with an
/// outstanding leave application is refused and otherwise a leave
/// application is stored and returned; elsewhere the user is removed.
pub open spec fn spec_leave_group(
    stage: MembershipStage,
    group_id: i32,
    user_id: i32,
    event: MembershipEvent,
) -> (MembershipStage, MembershipAction) {
    match (stage, event) {
        (MembershipStage::AwaitGroup, MembershipEvent::GroupFetched(group)) => match group {
            None => (
                MembershipStage::Done,
                MembershipAction::Finish(MembershipOutcome::Refused(GroupError::GroupDoesNotExist)),
            ),
            Some(FetchedGroup { leave_applications, .. }) => (
                MembershipStage::AwaitMembership { leave_applications },
                MembershipAction::FetchMembership { group_id, user_id },
            ),
        },
        (
            MembershipStage::AwaitMembership { leave_applications },
            MembershipEvent::MembershipFetched { member },
        ) => if !member {
            (MembershipStage::Done, MembershipAction::Finish(MembershipOutcome::Refused(GroupError::NotAMember)))
        } else if leave_applications {
            (
                MembershipStage::AwaitOutstanding,
                MembershipAction::FindOutstandingApplication {
                    group_id,
                    user_id,
                    request_type: GroupApplicationType::Leave,
                },
            )
        } else {
            (MembershipStage::AwaitMemberRemoved, MembershipAction::RemoveMember { group_id, user_id })
        },
        (MembershipStage::AwaitOutstanding, MembershipEvent::OutstandingApplicationFound { found }) =>
            if found {
            (MembershipStage::Done, MembershipAction::Finish(MembershipOutcome::Refused(GroupError::LeaveApplicationExists)))
        } else {
            (
                MembershipStage::AwaitCreated,
                MembershipAction::CreateApplication {
                    group_id,
                    user_id,
                    request_type: GroupApplicationType::Leave,
                },
            )
        },
        (MembershipStage::AwaitCreated, MembershipEvent::ApplicationCreated { application_id }) => (
            MembershipStage::AwaitApplication,
            MembershipAction::FetchApplication { application_id },
        ),
        (MembershipStage::AwaitApplication, MembershipEvent::ApplicationFetched) => (
            MembershipStage::Done,
            MembershipAction::Finish(MembershipOutcome::Applied),
        ),
        (MembershipStage::AwaitMemberRemoved, MembershipEvent::MemberRemoved) => (
            MembershipStage::Done,
            MembershipAction::Finish(MembershipOutcome::Changed),
        ),
        _ => (stage, MembershipAction::Idle),
    }
}

/// One step of leaving a group, as `spec_leave_group` states.
pub fn leave_group(stage: MembershipStage, group_id: i32, user_id: i32, event: MembershipEvent) -> (r: (
    MembershipStage,
    MembershipAction,
))
    ensures
        r == spec_leave_group(stage, group_id, user_id, event),
{
    match (stage, event) {
        (MembershipStage::AwaitGroup, MembershipEvent::GroupFetched(group)) => match group {
            None => (
                MembershipStage::Done,
                MembershipAction::Finish(MembershipOutcome::Refused(GroupError::GroupDoesNotExist)),
            ),
            Some(FetchedGroup { leave_applications, .. }) => (
                MembershipStage::AwaitMembership { leave_applications },
                MembershipAction::FetchMembership { group_id, user_id },
            ),
        },
        (
            MembershipStage::AwaitMembership { leave_applications },
            MembershipEvent::MembershipFetched { member },
        ) => {
            if !member {
                (MembershipStage::Done, MembershipAction::Finish(MembershipOutcome::Refused(GroupError::NotAMember)))
            } else if leave_applications {
                (
                    MembershipStage::AwaitOutstanding,
                    MembershipAction::FindOutstandingApplication {
                        group_id,
                        user_id,
                        request_type: GroupApplicationType::Leave,
                    },
                )
            } else {
                (
                    MembershipStage::AwaitMemberRemoved,
                    MembershipAction::RemoveMember { group_id, user_id },
                )
            }
        },
        (MembershipStage::AwaitOutstanding, MembershipEvent::OutstandingApplicationFound { found }) => {
            if found {
                (
                    MembershipStage::Done,
                    MembershipAction::Finish(MembershipOutcome::Refused(GroupError::LeaveApplicationExists)),
                )
            } else {
                (
                    MembershipStage::AwaitCreated,
                    MembershipAction::CreateApplication {
                        group_id,
                        user_id,
                        request_type: GroupApplicationType::Leave,
                    },
                )
            }
        },
        (MembershipStage::AwaitCreated, MembershipEvent::ApplicationCreated { application_id }) => (
            MembershipStage::AwaitApplication,
            MembershipAction::FetchApplication { application_id },
        ),
        (MembershipStage::AwaitApplication, MembershipEvent::ApplicationFetched) => (
            MembershipStage::Done,
            MembershipAction::Finish(MembershipOutcome::Applied),
        ),
        (MembershipStage::AwaitMemberRemoved, MembershipEvent::MemberRemoved) => (
            MembershipStage::Done,
            MembershipAction::Finish(MembershipOutcome::Changed),
        ),
        _ => (stage, MembershipAction::Idle),
    }
}

/// The stage reached and the actions asked for after joining has seen
/// `events`, starting from the group lookup.
pub open spec fn join_run(group_id: i32, user_id: i32, events: Seq<MembershipEvent>) -> (
    MembershipStage,
    Seq<MembershipAction>,
)
    decreases events.len(),
{
    if events.len() == 0 {
        (MembershipStage::AwaitGroup, seq![MembershipAction::FetchGroup { group_id }])
    } else {
        let (stage, actions) = join_run(group_id, user_id, events.drop_last());
        let (next, action) = spec_join_group(stage, group_id, user_id, events.last());
        (next, actions.push(action))
    }
}

/// The stage reached and the actions asked for after leaving has seen
/// `events`, starting from the group lookup.
pub open spec fn leave_run(group_id: i32, user_id: i32, events: Seq<MembershipEvent>) -> (
    MembershipStage,
    Seq<MembershipAction>,
)
    decreases events.len(),
{
    if events.len() == 0 {
        (MembershipStage::AwaitGroup, seq![MembershipAction::FetchGroup { group_id }])
    } else {
        let (stage, actions) = leave_run(group_id, user_id, events.drop_last());
        let (next, action) = spec_leave_group(stage, group_id, user_id, events.last());
        (next, actions.push(action))
    }
}

/// The group was found and is joined directly.
pub open spec fn saw_direct_group(events: Seq<MembershipEvent>) -> bool {
    exists|i: int|
        0 <= i < events.len() && (#[trigger] events[i] matches MembershipEvent::GroupFetched(
            Some(g),
        ) && (g.group_type == GroupType::Open || g.group_type == GroupType::Auto))
}

/// The group was found and is joined by application.
pub open spec fn saw_application_group(events: Seq<MembershipEvent>) -> bool {
    exists|i: int|
        0 <= i < events.len() && (#[trigger] events[i] matches MembershipEvent::GroupFetched(
            Some(g),
        ) && (g.group_type == GroupType::Apply || g.group_type == GroupType::Hidden))
}

/// The group was found and leaving it needs an application (`true`) or not.
pub open spec fn saw_leave_policy(events: Seq<MembershipEvent>, leave_applications: bool) -> bool {
    exists|i: int|
        0 <= i < events.len() && (#[trigger] events[i] matches MembershipEvent::GroupFetched(
            Some(g),
        ) && g.leave_applications == leave_applications)
}

/// The answer `event` was seen.
pub open spec fn saw(events: Seq<MembershipEvent>, event: MembershipEvent) -> bool {
    exists|i: int| 0 <= i < events.len() && #[trigger] events[i] == event
}

/// An action of the kind `CreateApplication` was asked for.
pub open spec fn asks_create(actions: Seq<MembershipAction>) -> bool {
    exists|k: int| 0 <= k < actions.len() && #[trigger] actions[k] is CreateApplication
}

/// An action of the kind `AddMember` was asked for.
pub open spec fn asks_add(actions: Seq<MembershipAction>) -> bool {
    exists|k: int| 0 <= k < actions.len() && #[trigger] actions[k] is AddMember
}

/// An action of the kind `RemoveMember` was asked for.
pub open spec fn asks_remove(actions: Seq<MembershipAction>) -> bool {
    exists|k: int| 0 <= k < actions.len() && #[trigger] actions[k] is RemoveMember
}

proof fn lemma_seen_persists(events: Seq<MembershipEvent>, e: MembershipEvent)
    ensures
        saw_direct_group(events) ==> saw_direct_group(events.push(e)),
        saw_application_group(events) ==> saw_application_group(events.push(e)),
        saw_leave_policy(events, true) ==> saw_leave_policy(events.push(e), true),
        saw_leave_policy(events, false) ==> saw_leave_policy(events.push(e), false),
        forall|x: MembershipEvent| saw(events, x) ==> saw(events.push(e), x),
        saw(events.push(e), e),
{
    if saw_direct_group(events) {
        let i = choose|i: int|
            0 <= i < events.len() && (#[trigger] events[i] matches MembershipEvent::GroupFetched(
                Some(g),
            ) && (g.group_type == GroupType::Open || g.group_type == GroupType::Auto));
        assert(events.push(e)[i] == events[i]);
    }
    if saw_application_group(events) {
        let i = choose|i: int|
            0 <= i < events.len() && (#[trigger] events[i] matches MembershipEvent::GroupFetched(
                Some(g),
            ) && (g.group_type == GroupType::Apply || g.group_type == GroupType::Hidden));
        assert(events.push(e)[i] == events[i]);
    }
    if saw_leave_policy(events, true) {
        let i = choose|i: int|
            0 <= i < events.len() && (#[trigger] events[i] matches MembershipEvent::GroupFetched(
                Some(g),
            ) && g.leave_applications == true);
        assert(events.push(e)[i] == events[i]);
    }
    if saw_leave_policy(events, false) {
        let i = choose|i: int|
            0 <= i < events.len() && (#[trigger] events[i] matches MembershipEvent::GroupFetched(
                Some(g),
            ) && g.leave_applications == false);
        assert(events.push(e)[i] == events[i]);
    }
    assert forall|x: MembershipEvent| saw(events, x) implies saw(events.push(e), x) by {
        let i = choose|i: int| 0 <= i < events.len() && #[trigger] events[i] == x;
        assert(events.push(e)[i] == events[i]);
    }
    assert(events.push(e)[events.len() as int] == e);
}

proof fn lemma_asks_push(actions: Seq<MembershipAction>, a: MembershipAction)
    ensures
        asks_create(actions.push(a)) <==> (asks_create(actions) || a is CreateApplication),
        asks_add(actions.push(a)) <==> (asks_add(actions) || a is AddMember),
        asks_remove(actions.push(a)) <==> (asks_remove(actions) || a is RemoveMember),
{
    let n = actions.len() as int;
    assert(actions.push(a)[n] == a);
    if asks_create(actions.push(a)) {
        let k = choose|k: int| 0 <= k < n + 1 && #[trigger] actions.push(a)[k] is CreateApplication;
        if k < n {
            assert(actions[k] is CreateApplication);
        }
    }
    if asks_create(actions) {
        let k = choose|k: int| 0 <= k < n && #[trigger] actions[k] is CreateApplication;
        assert(actions.push(a)[k] == actions[k]);
    }
    if asks_add(actions.push(a)) {
        let k = choose|k: int| 0 <= k < n + 1 && #[trigger] actions.push(a)[k] is AddMember;
        if k < n {
            assert(actions[k] is AddMember);
        }
    }
    if asks_add(actions) {
        let k = choose|k: int| 0 <= k < n && #[trigger] actions[k] is AddMember;
        assert(actions.push(a)[k] == actions[k]);
    }
    if asks_remove(actions.push(a)) {
        let k = choose|k: int| 0 <= k < n + 1 && #[trigger] actions.push(a)[k] is RemoveMember;
        if k < n {
            assert(actions[k] is RemoveMember);
        }
    }
    if asks_remove(actions) {
        let k = choose|k: int| 0 <= k < n && #[trigger] actions[k] is RemoveMember;
        assert(actions.push(a)[k] == actions[k]);
    }
}

/// The user was found to pass the group's filters.
pub open spec fn saw_eligible(events: Seq<MembershipEvent>) -> bool {
    saw(events, MembershipEvent::EligibilityChecked { eligible: true })
}

/// No outstanding application of the kind asked for was found.
pub open spec fn saw_no_outstanding(events: Seq<MembershipEvent>) -> bool {
    saw(events, MembershipEvent::OutstandingApplicationFound { found: false })
}

/// The user was found to be a member of the group.
pub open spec fn saw_member(events: Seq<MembershipEvent>) -> bool {
    saw(events, MembershipEvent::MembershipFetched { member: true })
}

/// The action `a` was asked for.
pub open spec fn asks(actions: Seq<MembershipAction>, a: MembershipAction) -> bool {
    exists|k: int| 0 <= k < actions.len() && #[trigger] actions[k] == a
}

proof fn lemma_asks_one_push(actions: Seq<MembershipAction>, a: MembershipAction, x: MembershipAction)
    ensures
        asks(actions.push(a), x) <==> (asks(actions, x) || a == x),
{
    let n = actions.len() as int;
    assert(actions.push(a)[n] == a);
    if asks(actions.push(a), x) {
        let k = choose|k: int| 0 <= k < n + 1 && #[trigger] actions.push(a)[k] == x;
        if k < n {
            assert(actions[k] == x);
        }
    }
    if asks(actions, x) {
        let k = choose|k: int| 0 <= k < n && #[trigger] actions[k] == x;
        assert(actions.push(a)[k] == actions[k]);
    }
}

/// A user who is not a member cannot leave: when the membership lookup
/// answers that the user is no member, leaving ends refused with
/// `NotAMember`, whether or not the group needs leave applications.
pub proof fn lemma_non_member_leave_refused(group_id: i32, user_id: i32, leave_applications: bool)
    ensures
        spec_leave_group(
            MembershipStage::AwaitMembership { leave_applications },
            group_id,
            user_id,
            MembershipEvent::MembershipFetched { member: false },
        ) == (
            MembershipStage::Done,
            MembershipAction::Finish(MembershipOutcome::Refused(GroupError::NotAMember)),
        ),
{
}

/// Leaving succeeds only for members: a leave request that ends with the
/// user gone saw the user found a member and asked for the removal, and
/// one that ends with an application saw the user found a member with no
/// outstanding leave application and asked to store one.
pub proof fn lemma_leaving_needs_membership(group_id: i32, user_id: i32, events: Seq<MembershipEvent>)
    ensures
        asks(leave_run(group_id, user_id, events).1, MembershipAction::Finish(MembershipOutcome::Changed))
            ==> saw_member(events) && asks_remove(leave_run(group_id, user_id, events).1),
        asks(leave_run(group_id, user_id, events).1, MembershipAction::Finish(MembershipOutcome::Applied))
            ==> saw_member(events) && saw_no_outstanding(events) && asks_create(
            leave_run(group_id, user_id, events).1,
        ),
        leave_run(group_id, user_id, events).0 is AwaitMemberRemoved ==> asks_remove(
            leave_run(group_id, user_id, events).1,
        ),
        leave_run(group_id, user_id, events).0 is AwaitCreated || leave_run(
            group_id,
            user_id,
            events,
        ).0 is AwaitApplication ==> asks_create(leave_run(group_id, user_id, events).1),
    decreases events.len(),
{
    let changed = MembershipAction::Finish(MembershipOutcome::Changed);
    let applied = MembershipAction::Finish(MembershipOutcome::Applied);
    if events.len() == 0 {
        let acts = leave_run(group_id, user_id, events).1;
        assert(acts =~= seq![MembershipAction::FetchGroup { group_id }]);
        if asks(acts, changed) {
            let k = choose|k: int| 0 <= k < acts.len() && #[trigger] acts[k] == changed;
            assert(k == 0);
        }
        if asks(acts, applied) {
            let k = choose|k: int| 0 <= k < acts.len() && #[trigger] acts[k] == applied;
            assert(k == 0);
        }
    } else {
        let pre = events.drop_last();
        let e = events.last();
        assert(pre.push(e) =~= events);
        lemma_leaving_needs_membership(group_id, user_id, pre);
        lemma_leave_only_for_members(group_id, user_id, pre);
        lemma_leave_only_for_members(group_id, user_id, events);
        lemma_seen_persists(pre, e);
        let (stage, actions) = leave_run(group_id, user_id, pre);
        let (next, action) = spec_leave_group(stage, group_id, user_id, e);
        lemma_asks_push(actions, action);
        lemma_asks_one_push(actions, action, changed);
        lemma_asks_one_push(actions, action, applied);
        assert(events[events.len() - 1] == e);
        assert(leave_run(group_id, user_id, events) == (next, actions.push(action)));
        if action == changed {
            assert(stage is AwaitMemberRemoved);
        }
        if action == applied {
            assert(stage is AwaitApplication);
        }
    }
}

/// Joining asks to store an application only for a group joined by
/// application, for a user found to pass its filters and without an
/// outstanding join application; it asks to add the user directly only
/// for a group joined directly, and never to remove anyone.
pub proof fn lemma_join_applies_only_when_eligible(
    group_id: i32,
    user_id: i32,
    events: Seq<MembershipEvent>,
)
    ensures
        asks_create(join_run(group_id, user_id, events).1) ==> saw_application_group(events)
            && saw_eligible(events) && saw_no_outstanding(events),
        asks_add(join_run(group_id, user_id, events).1) ==> saw_direct_group(events),
        !asks_remove(join_run(group_id, user_id, events).1),
        join_run(group_id, user_id, events).0 is AwaitMemberAdded ==> saw_direct_group(events),
        join_run(group_id, user_id, events).0 is AwaitEligibility ==> saw_application_group(
            events,
        ),
        join_run(group_id, user_id, events).0 is AwaitOutstanding ==> saw_application_group(events)
            && saw_eligible(events),
        join_run(group_id, user_id, events).0 is AwaitCreated ==> saw_application_group(events)
            && saw_eligible(events) && saw_no_outstanding(events),
        join_run(group_id, user_id, events).0 is AwaitApplication ==> saw_application_group(events)
            && saw_eligible(events) && saw_no_outstanding(events),
        !(join_run(group_id, user_id, events).0 is AwaitMembership),
        !(join_run(group_id, user_id, events).0 is AwaitMemberRemoved),
    decreases events.len(),
{
    if events.len() == 0 {
        let acts = join_run(group_id, user_id, events).1;
        assert(acts =~= seq![MembershipAction::FetchGroup { group_id }]);
        if asks_create(acts) {
            let k = choose|k: int| 0 <= k < acts.len() && #[trigger] acts[k] is CreateApplication;
            assert(k == 0);
        }
        if asks_add(acts) {
            let k = choose|k: int| 0 <= k < acts.len() && #[trigger] acts[k] is AddMember;
            assert(k == 0);
        }
        if asks_remove(acts) {
            let k = choose|k: int| 0 <= k < acts.len() && #[trigger] acts[k] is RemoveMember;
            assert(k == 0);
        }
    } else {
        let pre = events.drop_last();
        let e = events.last();
        assert(pre.push(e) =~= events);
        lemma_join_applies_only_when_eligible(group_id, user_id, pre);
        lemma_seen_persists(pre, e);
        let (stage, actions) = join_run(group_id, user_id, pre);
        let (next, action) = spec_join_group(stage, group_id, user_id, e);
        lemma_asks_push(actions, action);
        assert(events[events.len() - 1] == e);
    }
}

/// Leaving asks to remove the user only from a group that needs no leave
/// application and of which the user is a member; it asks to store a leave
/// application only where the group needs one, the user is a member and
/// has no outstanding leave application; it never asks to add anyone.
pub proof fn lemma_leave_only_for_members(group_id: i32, user_id: i32, events: Seq<MembershipEvent>)
    ensures
        asks_remove(leave_run(group_id, user_id, events).1) ==> saw_leave_policy(events, false)
            && saw_member(events),
        asks_create(leave_run(group_id, user_id, events).1) ==> saw_leave_policy(events, true)
            && saw_member(events) && saw_no_outstanding(events),
        !asks_add(leave_run(group_id, user_id, events).1),
        leave_run(group_id, user_id, events).0 is AwaitMembership ==> saw_leave_policy(
            events,
            leave_run(group_id, user_id, events).0->leave_applications,
        ),
        leave_run(group_id, user_id, events).0 is AwaitMemberRemoved ==> saw_leave_policy(
            events,
            false,
        ) && saw_member(events),
        leave_run(group_id, user_id, events).0 is AwaitOutstanding ==> saw_leave_policy(
            events,
            true,
        ) && saw_member(events),
        leave_run(group_id, user_id, events).0 is AwaitCreated ==> saw_leave_policy(events, true)
            && saw_member(events) && saw_no_outstanding(events),
        leave_run(group_id, user_id, events).0 is AwaitApplication ==> saw_leave_policy(
            events,
            true,
        ) && saw_member(events) && saw_no_outstanding(events),
        !(leave_run(group_id, user_id, events).0 is AwaitMemberAdded),
        !(leave_run(group_id, user_id, events).0 is AwaitEligibility),
    decreases events.len(),
{
    if events.len() == 0 {
        let acts = leave_run(group_id, user_id, events).1;
        assert(acts =~= seq![MembershipAction::FetchGroup { group_id }]);
        if asks_create(acts) {
            let k = choose|k: int| 0 <= k < acts.len() && #[trigger] acts[k] is CreateApplication;
            assert(k == 0);
        }
        if asks_add(acts) {
            let k = choose|k: int| 0 <= k < acts.len() && #[trigger] acts[k] is AddMember;
            assert(k == 0);
        }
        if asks_remove(acts) {
            let k = choose|k: int| 0 <= k < acts.len() && #[trigger] acts[k] is RemoveMember;
            assert(k == 0);
        }
    } else {
        let pre = events.drop_last();
        let e = events.last();
        assert(pre.push(e) =~= events);
        lemma_leave_only_for_members(group_id, user_id, pre);
        lemma_seen_persists(pre, e);
        let (stage, actions) = leave_run(group_id, user_id, pre);
        let (next, action) = spec_leave_group(stage, group_id, user_id, e);
        lemma_asks_push(actions, action);
        assert(events[events.len() - 1] == e);
    }
}

/// A finished join or leave request stays finished: whatever answer comes
/// in afterwards, nothing more is asked of the database.
pub proof fn lemma_finished_request_stays_finished(group_id: i32, user_id: i32, event: MembershipEvent)
    ensures
        spec_join_group(MembershipStage::Done, group_id, user_id, event) == (
            MembershipStage::Done,
            MembershipAction::Idle,
        ),
        spec_leave_group(MembershipStage::Done, group_id, user_id, event) == (
            MembershipStage::Done,
            MembershipAction::Idle,
        ),
{
}

} // verus!
