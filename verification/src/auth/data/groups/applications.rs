//! Applications to join or leave a group: how they are listed, changed
//! and withdrawn.

use vstd::prelude::*;

use crate::auth::data::groups::GroupError;
use crate::auth::model::groups::{
    group_application_status_of, group_application_type_of, GroupApplicationDto,
    GroupApplicationStatus, GroupApplicationType,
};
use crate::clock::Timestamp;
use crate::entity::auth_group::Model as Group;
use crate::entity::auth_group_application::Model as GroupApplication;
use crate::entity::auth_user::Model as User;
use crate::entity::auth_user_character_ownership::Model as UserCharacterOwnership;
use crate::entity::sea_orm_active_enums;
use crate::eve::model::character::CharacterAffiliationDto;
use crate::ids::{contains_id, insert_id};

verus! {

/// Applications can be listed for a group only where it exists and is
/// joined by application.
pub fn check_group_accepts_applications(group: &Option<Group>) -> (r: Result<(), GroupError>)
    ensures
        r == (match *group {
            None => Err(GroupError::GroupDoesNotExist),
            Some(g) => if g.group_type == sea_orm_active_enums::GroupType::Open || g.group_type
                == sea_orm_active_enums::GroupType::Auto {
                Err(GroupError::GroupDoesNotRequireApplications)
            } else {
                Ok(())
            },
        }),
{
    match group {
        None => Err(GroupError::GroupDoesNotExist),
        Some(g) => match g.group_type {
            sea_orm_active_enums::GroupType::Open | sea_orm_active_enums::GroupType::Auto => Err(
                GroupError::GroupDoesNotRequireApplications,
            ),
            _ => Ok(()),
        },
    }
}

/// Whether a listing of applications may go ahead, given the group and the
/// user it is restricted to (where it is) and what looking them up found:
/// the group must exist and be joined by application, then the user must
/// exist.
pub open spec fn spec_check_application_listing(
    group_id: Option<i32>,
    group: Option<Group>,
    user_id: Option<i32>,
    user: Option<User>,
) -> Result<(), GroupError> {
    let user_check = if user_id is Some && user is None {
        Err(GroupError::UserDoesNotExist)
    } else {
        Ok(())
    };
    match group_id {
        Some(_) => match group {
            None => Err(GroupError::GroupDoesNotExist),
            Some(g) => if g.group_type == sea_orm_active_enums::GroupType::Open || g.group_type
                == sea_orm_active_enums::GroupType::Auto {
                Err(GroupError::GroupDoesNotRequireApplications)
            } else {
                user_check
            },
        },
        None => user_check,
    }
}

/// Checks a listing of applications restricted to `group_id` and `user_id`
/// (where given), from what looking up that group and that user found.
pub fn check_application_listing(
    group_id: Option<i32>,
    group: &Option<Group>,
    user_id: Option<i32>,
    user: &Option<User>,
) -> (r: Result<(), GroupError>)
    ensures
        r == spec_check_application_listing(group_id, *group, user_id, *user),
{
    if group_id.is_some() {
        match check_group_accepts_applications(group) {
            Ok(()) => {},
            Err(e) => {
                return Err(e);
            },
        }
    }
    if user_id.is_some() && user.is_none() {
        return Err(GroupError::UserDoesNotExist);
    }
    Ok(())
}

/// The application was made by, or answered by, user `u`.
pub open spec fn application_involves(app: GroupApplication, u: i32) -> bool {
    app.user_id == u || app.responder == Some(u)
}

/// The users whose main characters an application listing needs: the
/// applicants and the responders, each once.
pub fn application_user_ids(applications: &Vec<GroupApplication>) -> (r: Vec<i32>)
    ensures
        r@.no_duplicates(),
        forall|u: i32|
            #![trigger r@.contains(u)]
            r@.contains(u) <==> exists|i: int|
                0 <= i < applications@.len() && #[trigger] application_involves(
                    applications@[i],
                    u,
                ),
{
    let mut ids: Vec<i32> = Vec::new();
    let mut i: usize = 0;
    while i < applications.len()
        invariant
            i <= applications@.len(),
            ids@.no_duplicates(),
            forall|u: i32|
                #![trigger ids@.contains(u)]
                ids@.contains(u) <==> exists|j: int|
                    0 <= j < i && #[trigger] application_involves(applications@[j], u),
        decreases applications.len() - i,
    {
        let app = &applications[i];
        insert_id(&mut ids, app.user_id);
        if let Some(responder) = app.responder {
            insert_id(&mut ids, responder);
        }
        proof {
            assert forall|u: i32|
                #![trigger ids@.contains(u)]
                ids@.contains(u) <==> exists|j: int|
                    0 <= j < i + 1 && #[trigger] application_involves(applications@[j], u) by {
                if exists|j: int| 0 <= j < i + 1 && #[trigger] application_involves(applications@[j], u) {
                    let j = choose|j: int|
                        0 <= j < i + 1 && #[trigger] application_involves(applications@[j], u);
                    if j < i {
                        assert(application_involves(applications@[j], u));
                    }
                }
                if application_involves(*app, u) {
                    assert(applications@[i as int] == *app);
                    assert(application_involves(applications@[i as int], u));
                }
            }
        }
        i = i + 1;
    }
    ids
}

/// The last application of the list made by user `u`: a later application
/// of the same user takes the place of an earlier one.
pub open spec fn last_application_of(applications: Seq<GroupApplication>, u: i32) -> Option<
    GroupApplication,
>
    decreases applications.len(),
{
    if applications.len() == 0 {
        None
    } else if applications.last().user_id == u {
        Some(applications.last())
    } else {
        last_application_of(applications.drop_last(), u)
    }
}

/// The first affiliation of the list for character `c`.
pub open spec fn first_affiliation_of(affiliations: Seq<CharacterAffiliationDto>, c: i32) -> Option<
    CharacterAffiliationDto,
>
    decreases affiliations.len(),
{
    if affiliations.len() == 0 {
        None
    } else if affiliations[0].character_id == c {
        Some(affiliations[0])
    } else {
        first_affiliation_of(affiliations.drop_first(), c)
    }
}

/// The character of the first main-character ownership of user `u`.
pub open spec fn first_main_character_of(mains: Seq<UserCharacterOwnership>, u: i32) -> Option<i32>
    decreases mains.len(),
{
    if mains.len() == 0 {
        None
    } else if mains[0].user_id == u {
        Some(mains[0].character_id)
    } else {
        first_main_character_of(mains.drop_first(), u)
    }
}

/// A main character earlier in the list belongs to the same user as the
/// `k`-th.
pub open spec fn user_listed_before(mains: Seq<UserCharacterOwnership>, k: int) -> bool {
    exists|j: int| 0 <= j < k && #[trigger] mains[j].user_id == mains[k].user_id
}

/// An application as listed, with the applicant's affiliation and, where
/// a responder is recorded and their main character is known, the
/// responder's affiliation.
pub open spec fn spec_application_dto(
    app: GroupApplication,
    applicant: CharacterAffiliationDto,
    mains: Seq<UserCharacterOwnership>,
    affiliations: Seq<CharacterAffiliationDto>,
) -> GroupApplicationDto {
    GroupApplicationDto {
        id: app.id,
        group_id: app.group_id,
        user_id: app.user_id,
        applicant_info: applicant,
        responder_info: match app.responder {
            Some(r) => match first_main_character_of(mains, r) {
                Some(c) => first_affiliation_of(affiliations, c),
                None => None,
            },
            None => None,
        },
        status: group_application_status_of(app.status),
        request_type: group_application_type_of(app.request_type),
        request_message: app.request_message,
        response_message: app.response_message,
        created: app.created,
        last_updated: app.last_updated,
    }
}

/// The applications listed for the first `k` main characters: each main
/// character whose user was not listed before, has an application and has
/// a known affiliation contributes that user's last application.
pub open spec fn spec_group_applications(
    applications: Seq<GroupApplication>,
    mains: Seq<UserCharacterOwnership>,
    affiliations: Seq<CharacterAffiliationDto>,
    k: int,
) -> Seq<GroupApplicationDto>
    decreases k,
{
    if k <= 0 {
        Seq::empty()
    } else {
        let rest = spec_group_applications(applications, mains, affiliations, k - 1);
        let m = mains[k - 1];
        if !user_listed_before(mains, k - 1) {
            match (
                last_application_of(applications, m.user_id),
                first_affiliation_of(affiliations, m.character_id),
            ) {
                (Some(app), Some(applicant)) => rest.push(
                    spec_application_dto(app, applicant, mains, affiliations),
                ),
                _ => rest,
            }
        } else {
            rest
        }
    }
}

fn find_last_application(applications: &Vec<GroupApplication>, u: i32) -> (r: Option<
    GroupApplication,
>)
    ensures
        r == last_application_of(applications@, u),
{
    let mut i: usize = applications.len();
    assert(applications@.take(i as int) =~= applications@);
    while i > 0
        invariant
            i <= applications@.len(),
            last_application_of(applications@, u) == last_application_of(
                applications@.take(i as int),
                u,
            ),
        decreases i,
    {
        proof {
            assert(applications@.take(i as int).drop_last() =~= applications@.take(i - 1));
        }
        if applications[i - 1].user_id == u {
            return Some(applications[i - 1].clone());
        }
        i = i - 1;
    }
    None
}

fn find_affiliation(affiliations: &Vec<CharacterAffiliationDto>, c: i32) -> (r: Option<
    CharacterAffiliationDto,
>)
    ensures
        r == first_affiliation_of(affiliations@, c),
{
    let mut i: usize = 0;
    assert(affiliations@.skip(0) =~= affiliations@);
    while i < affiliations.len()
        invariant
            i <= affiliations@.len(),
            first_affiliation_of(affiliations@, c) == first_affiliation_of(
                affiliations@.skip(i as int),
                c,
            ),
        decreases affiliations.len() - i,
    {
        proof {
            assert(affiliations@.skip(i as int).drop_first() =~= affiliations@.skip(i + 1));
        }
        if affiliations[i].character_id == c {
            return Some(affiliations[i].clone());
        }
        i = i + 1;
    }
    None
}

fn find_main_character(mains: &Vec<UserCharacterOwnership>, u: i32) -> (r: Option<i32>)
    ensures
        r == first_main_character_of(mains@, u),
{
    let mut i: usize = 0;
    assert(mains@.skip(0) =~= mains@);
    while i < mains.len()
        invariant
            i <= mains@.len(),
            first_main_character_of(mains@, u) == first_main_character_of(mains@.skip(i as int), u),
        decreases mains.len() - i,
    {
        proof {
            assert(mains@.skip(i as int).drop_first() =~= mains@.skip(i + 1));
        }
        if mains[i].user_id == u {
            return Some(mains[i].character_id);
        }
        i = i + 1;
    }
    None
}

fn application_dto(
    app: GroupApplication,
    applicant: CharacterAffiliationDto,
    mains: &Vec<UserCharacterOwnership>,
    affiliations: &Vec<CharacterAffiliationDto>,
) -> (r: GroupApplicationDto)
    ensures
        r == spec_application_dto(app, applicant, mains@, affiliations@),
{
    let responder_info = match app.responder {
        Some(responder) => match find_main_character(mains, responder) {
            Some(c) => find_affiliation(affiliations, c),
            None => None,
        },
        None => None,
    };
    GroupApplicationDto {
        id: app.id,
        group_id: app.group_id,
        user_id: app.user_id,
        applicant_info: applicant,
        responder_info,
        status: GroupApplicationStatus::from(app.status),
        request_type: GroupApplicationType::from(app.request_type),
        request_message: app.request_message,
        response_message: app.response_message,
        created: app.created,
        last_updated: app.last_updated,
    }
}

/// Lists applications with the affiliations of applicants and responders,
/// going through the main characters in order.
pub fn get_group_application(
    applications: &Vec<GroupApplication>,
    mains: &Vec<UserCharacterOwnership>,
    affiliations: &Vec<CharacterAffiliationDto>,
) -> (r: Vec<GroupApplicationDto>)
    ensures
        r@ == spec_group_applications(
            applications@,
            mains@,
            affiliations@,
            mains@.len() as int,
        ),
{
    let mut listed: Vec<GroupApplicationDto> = Vec::new();
    let mut seen_users: Vec<i32> = Vec::new();
    let mut k: usize = 0;
    while k < mains.len()
        invariant
            k <= mains@.len(),
            seen_users@.no_duplicates(),
            forall|u: i32|
                #![trigger seen_users@.contains(u)]
                seen_users@.contains(u) <==> exists|j: int|
                    0 <= j < k && #[trigger] mains@[j].user_id == u,
            listed@ == spec_group_applications(applications@, mains@, affiliations@, k as int),
        decreases mains.len() - k,
    {
        let m = &mains[k];
        let before = contains_id(&seen_users, m.user_id);
        proof {
            if before {
                let j = choose|j: int| 0 <= j < k && #[trigger] mains@[j].user_id == m.user_id;
                assert(user_listed_before(mains@, k as int));
            }
            if user_listed_before(mains@, k as int) {
                let j = choose|j: int|
                    0 <= j < k && #[trigger] mains@[j].user_id == mains@[k as int].user_id;
                assert(seen_users@.contains(m.user_id));
            }
        }
        if !before {
            let app = find_last_application(applications, m.user_id);
            let applicant = find_affiliation(affiliations, m.character_id);
            match (app, applicant) {
                (Some(app), Some(applicant)) => {
                    listed.push(application_dto(app, applicant, mains, affiliations));
                },
                _ => {},
            }
        }
        insert_id(&mut seen_users, m.user_id);
        proof {
            assert forall|u: i32|
                #![trigger seen_users@.contains(u)]
                seen_users@.contains(u) <==> exists|j: int|
                    0 <= j < k + 1 && #[trigger] mains@[j].user_id == u by {
                if exists|j: int| 0 <= j < k + 1 && #[trigger] mains@[j].user_id == u {
                    let j = choose|j: int| 0 <= j < k + 1 && #[trigger] mains@[j].user_id == u;
                    if j < k {
                        assert(mains@[j].user_id == u);
                    }
                }
                if u == m.user_id {
                    assert(mains@[k as int].user_id == u);
                }
            }
        }
        k = k + 1;
    }
    listed
}

/// Lists the applications found for a listing restricted to `group_id` and
/// `user_id` (where given): refused as `check_application_listing` says,
/// from what looking up that group and that user found; otherwise the
/// applications with their applicants' and responders' affiliations, as
/// `get_group_application` gives them.
pub fn list_group_applications(
    group_id: Option<i32>,
    group: &Option<Group>,
    user_id: Option<i32>,
    user: &Option<User>,
    applications: &Vec<GroupApplication>,
    mains: &Vec<UserCharacterOwnership>,
    affiliations: &Vec<CharacterAffiliationDto>,
) -> (r: Result<Vec<GroupApplicationDto>, GroupError>)
    ensures
        spec_check_application_listing(group_id, *group, user_id, *user) matches Err(e) ==> r
            == Err::<Vec<GroupApplicationDto>, GroupError>(e),
        spec_check_application_listing(group_id, *group, user_id, *user) is Ok ==> (r matches Ok(v)
            && v@ == spec_group_applications(
            applications@,
            mains@,
            affiliations@,
            mains@.len() as int,
        )),
{
    match check_application_listing(group_id, group, user_id, user) {
        Err(e) => Err(e),
        Ok(()) => Ok(get_group_application(applications, mains, affiliations)),
    }
}

/// An application after an update: an empty request message clears it;
/// an empty response message clears the response, a non-empty one is
/// stored as the request message; the status and responder are set where
/// given, and the application is stamped with `now`.
pub open spec fn spec_updated_application(
    app: GroupApplication,
    request_message: Option<String>,
    response_message: Option<String>,
    status: Option<sea_orm_active_enums::GroupApplicationStatus>,
    responder: Option<i32>,
    now: Timestamp,
) -> GroupApplication {
    let a1 = match request_message {
        Some(m) => GroupApplication {
            request_message: if m@.len() == 0 {
                None
            } else {
                Some(m)
            },
            ..app
        },
        None => app,
    };
    let a2 = match response_message {
        Some(m) => if m@.len() == 0 {
            GroupApplication { response_message: None, ..a1 }
        } else {
            GroupApplication { request_message: Some(m), ..a1 }
        },
        None => a1,
    };
    let a3 = match status {
        Some(s) => GroupApplication { status: s, ..a2 },
        None => a2,
    };
    let a4 = match responder {
        Some(r) => GroupApplication { responder: Some(r), ..a3 },
        None => a3,
    };
    GroupApplication { last_updated: now, ..a4 }
}

/// What updating a stored application gives: a missing application is not
/// found, a completed one is not changed, an outstanding one is changed as
/// `spec_updated_application` states.
pub open spec fn spec_update_group_application(
    application: Option<GroupApplication>,
    request_message: Option<String>,
    response_message: Option<String>,
    status: Option<sea_orm_active_enums::GroupApplicationStatus>,
    responder: Option<i32>,
    now: Timestamp,
) -> Result<GroupApplication, GroupError> {
    match application {
        None => Err(GroupError::ApplicationNotFound),
        Some(a) => if a.status != sea_orm_active_enums::GroupApplicationStatus::Outstanding {
            Err(GroupError::CompletedApplicationUpdate)
        } else {
            Ok(spec_updated_application(a, request_message, response_message, status, responder, now))
        },
    }
}

/// Updates a stored application: a missing application is not found, a
/// completed one is not changed, an outstanding one is changed as
/// `spec_updated_application` states.
pub fn update_group_application(
    application: Option<GroupApplication>,
    request_message: Option<String>,
    response_message: Option<String>,
    status: Option<sea_orm_active_enums::GroupApplicationStatus>,
    responder: Option<i32>,
    now: Timestamp,
) -> (r: Result<GroupApplication, GroupError>)
    ensures
        r == spec_update_group_application(
            application,
            request_message,
            response_message,
            status,
            responder,
            now,
        ),
{
    match application {
        None => Err(GroupError::ApplicationNotFound),
        Some(app) => {
            if app.status != sea_orm_active_enums::GroupApplicationStatus::Outstanding {
                return Err(GroupError::CompletedApplicationUpdate);
            }
            let mut app = app;
            match request_message {
                Some(m) => {
                    if m.as_str().is_empty() {
                        app.request_message = None;
                    } else {
                        app.request_message = Some(m);
                    }
                },
                None => {},
            }
            match response_message {
                Some(m) => {
                    if m.as_str().is_empty() {
                        app.response_message = None;
                    } else {
                        app.request_message = Some(m);
                    }
                },
                None => {},
            }
            if let Some(s) = status {
                app.status = s;
            }
            if let Some(r) = responder {
                app.responder = Some(r);
            }
            app.last_updated = now;
            Ok(app)
        },
    }
}

/// Whether a stored application may be withdrawn: a missing one is not
/// found, a completed one may not.
pub open spec fn spec_delete_group_application(application: Option<GroupApplication>) -> Result<
    (),
    GroupError,
> {
    match application {
        None => Err(GroupError::ApplicationNotFound),
        Some(a) => if a.status != sea_orm_active_enums::GroupApplicationStatus::Outstanding {
            Err(GroupError::CompletedApplicationDelete)
        } else {
            Ok(())
        },
    }
}

/// Only an outstanding application can be withdrawn.
pub fn delete_group_application(application: &Option<GroupApplication>) -> (r: Result<
    (),
    GroupError,
>)
    ensures
        r == spec_delete_group_application(*application),
{
    match application {
        None => Err(GroupError::ApplicationNotFound),
        Some(a) => {
            if a.status != sea_orm_active_enums::GroupApplicationStatus::Outstanding {
                Err(GroupError::CompletedApplicationDelete)
            } else {
                Ok(())
            }
        },
    }
}

/// A completed application is final: it can be neither changed nor
/// withdrawn, whatever the change asked for.
pub proof fn lemma_completed_application_is_final(
    app: GroupApplication,
    request_message: Option<String>,
    response_message: Option<String>,
    status: Option<sea_orm_active_enums::GroupApplicationStatus>,
    responder: Option<i32>,
    now: Timestamp,
)
    requires
        app.status != sea_orm_active_enums::GroupApplicationStatus::Outstanding,
    ensures
        spec_update_group_application(
            Some(app),
            request_message,
            response_message,
            status,
            responder,
            now,
        ) == Err::<GroupApplication, GroupError>(GroupError::CompletedApplicationUpdate),
        spec_delete_group_application(Some(app)) == Err::<(), GroupError>(
            GroupError::CompletedApplicationDelete,
        ),
{
}

/// Changing an outstanding application succeeds and keeps what it is: the
/// same application of the same user to the same group, of the same kind
/// and made at the same time, now stamped with the time of the change.
pub proof fn lemma_update_keeps_application(
    app: GroupApplication,
    request_message: Option<String>,
    response_message: Option<String>,
    status: Option<sea_orm_active_enums::GroupApplicationStatus>,
    responder: Option<i32>,
    now: Timestamp,
)
    requires
        app.status == sea_orm_active_enums::GroupApplicationStatus::Outstanding,
    ensures
        spec_update_group_application(
            Some(app),
            request_message,
            response_message,
            status,
            responder,
            now,
        ) matches Ok(a) && a.id == app.id && a.group_id == app.group_id && a.user_id == app.user_id
            && a.request_type == app.request_type && a.created == app.created && a.last_updated
            == now && (responder is None ==> a.responder == app.responder) && (status is None
            ==> a.status == app.status),
{
}

/// What an update of an outstanding application stores, field by field: a
/// non-empty response message is stored as the request message, otherwise
/// a given request message replaces the stored one (an empty one clears
/// it); an empty response message clears the stored response; the status
/// and responder are those given, where given; the application is stamped
/// with `now`, and nothing else changes.
pub proof fn lemma_update_stores_messages(
    app: GroupApplication,
    request_message: Option<String>,
    response_message: Option<String>,
    status: Option<sea_orm_active_enums::GroupApplicationStatus>,
    responder: Option<i32>,
    now: Timestamp,
)
    requires
        app.status == sea_orm_active_enums::GroupApplicationStatus::Outstanding,
    ensures
        spec_update_group_application(
            Some(app),
            request_message,
            response_message,
            status,
            responder,
            now,
        ) == Ok::<GroupApplication, GroupError>(
            GroupApplication {
                request_message: if response_message matches Some(rm) && rm@.len() > 0 {
                    response_message
                } else {
                    match request_message {
                        Some(m) => if m@.len() == 0 {
                            None
                        } else {
                            Some(m)
                        },
                        None => app.request_message,
                    }
                },
                response_message: if response_message matches Some(rm) && rm@.len() == 0 {
                    None
                } else {
                    app.response_message
                },
                status: match status {
                    Some(s) => s,
                    None => app.status,
                },
                responder: match responder {
                    Some(r) => Some(r),
                    None => app.responder,
                },
                last_updated: now,
                ..app
            },
        ),
{
}

/// Whenever `u` has a last application, it stands at a position of the
/// list that no other application of `u` follows.
proof fn lemma_last_application_position(applications: Seq<GroupApplication>, u: i32)
    ensures
        last_application_of(applications, u) matches Some(a) ==> exists|j: int|
            0 <= j < applications.len() && #[trigger] applications[j] == a && a.user_id == u
                && forall|l: int| j < l < applications.len() ==> #[trigger] applications[l].user_id != u,
    decreases applications.len(),
{
    if applications.len() > 0 {
        let n = applications.len() - 1;
        if applications.last().user_id == u {
            assert(applications[n] == applications.last());
        } else {
            let init = applications.drop_last();
            lemma_last_application_position(init, u);
            if last_application_of(init, u) is Some {
                let a = last_application_of(init, u)->0;
                let j = choose|j: int|
                    0 <= j < init.len() && #[trigger] init[j] == a && a.user_id == u && forall|
                        l: int,
                    | j < l < init.len() ==> #[trigger] init[l].user_id != u;
                assert(applications[j] == a);
                assert forall|l: int| j < l < applications.len() implies #[trigger] applications[l].user_id != u by {
                    if l < n {
                        assert(init[l] == applications[l]);
                    }
                }
            }
        }
    }
}

/// Each listed application is an application of the given list that no
/// later application of the same user follows, listed with that
/// application's id, user, group and request message.
pub open spec fn lists_latest_applications(
    applications: Seq<GroupApplication>,
    listed: Seq<GroupApplicationDto>,
) -> bool {
    forall|i: int|
        #![trigger listed[i]]
        0 <= i < listed.len() ==> exists|j: int|
            #![trigger applications[j]]
            0 <= j < applications.len() && applications[j].id == listed[i].id
                && applications[j].user_id == listed[i].user_id && applications[j].group_id
                == listed[i].group_id && applications[j].request_message == listed[i].request_message
                && forall|l: int|
                j < l < applications.len() ==> #[trigger] applications[l].user_id
                    != listed[i].user_id
}

proof fn lemma_listed_applications_are_latest_upto(
    applications: Seq<GroupApplication>,
    mains: Seq<UserCharacterOwnership>,
    affiliations: Seq<CharacterAffiliationDto>,
    k: int,
)
    ensures
        lists_latest_applications(
            applications,
            spec_group_applications(applications, mains, affiliations, k),
        ),
    decreases k,
{
    if k > 0 {
        lemma_listed_applications_are_latest_upto(applications, mains, affiliations, k - 1);
        let rest = spec_group_applications(applications, mains, affiliations, k - 1);
        let listed = spec_group_applications(applications, mains, affiliations, k);
        let m = mains[k - 1];
        lemma_last_application_position(applications, m.user_id);
        assert forall|i: int| 0 <= i < rest.len() implies listed[i] == rest[i] by {}
        if listed.len() > rest.len() {
            let a = last_application_of(applications, m.user_id)->0;
            let j = choose|j: int|
                0 <= j < applications.len() && #[trigger] applications[j] == a && a.user_id
                    == m.user_id && forall|l: int|
                    j < l < applications.len() ==> #[trigger] applications[l].user_id != m.user_id;
            assert(applications[j].id == listed[rest.len() as int].id);
        }
        assert forall|i: int| #![trigger listed[i]] 0 <= i < listed.len() implies exists|j: int|
            #![trigger applications[j]]
            0 <= j < applications.len() && applications[j].id == listed[i].id
                && applications[j].user_id == listed[i].user_id && applications[j].group_id
                == listed[i].group_id && applications[j].request_message == listed[i].request_message
                && forall|l: int|
                j < l < applications.len() ==> #[trigger] applications[l].user_id
                    != listed[i].user_id by {
            if i < rest.len() {
                assert(listed[i] == rest[i]);
            }
        }
    }
}

/// The listing shows, for each user, the user's latest application: every
/// listed application is an application of the given list that no later
/// application of the same user follows.
pub proof fn lemma_listed_applications_are_latest(
    applications: Seq<GroupApplication>,
    mains: Seq<UserCharacterOwnership>,
    affiliations: Seq<CharacterAffiliationDto>,
)
    ensures
        lists_latest_applications(
            applications,
            spec_group_applications(applications, mains, affiliations, mains.len() as int),
        ),
{
    lemma_listed_applications_are_latest_upto(applications, mains, affiliations, mains.len() as int);
}

} // verus!
