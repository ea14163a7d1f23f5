use black_rose_auth_api::auth::data::groups::applications::{
    application_user_ids, check_application_listing, check_group_accepts_applications, delete_group_application,
    get_group_application, update_group_application,
};
use black_rose_auth_api::auth::data::groups::GroupError;
use black_rose_auth_api::auth::model::groups::GroupApplicationStatus;
use black_rose_auth_api::auth::route::groups::applications::{
    application_action_status, approval_follow_up, approval_reply, check_application_owner,
    delete_application_reply, get_group_applications_refusal, update_application_refusal,
    ApplicationAction, ApprovalFollowUp,
};
use black_rose_auth_api::auth::route::groups::Reply;
use black_rose_auth_api::clock::Timestamp;
use black_rose_auth_api::entity::auth_group::Model as Group;
use black_rose_auth_api::entity::auth_group_application::Model as GroupApplication;
use black_rose_auth_api::entity::auth_user::Model as User;
use black_rose_auth_api::entity::auth_user_character_ownership::Model as Ownership;
use black_rose_auth_api::entity::sea_orm_active_enums::{
    GroupApplicationStatus as StoredStatus, GroupApplicationType, GroupFilterType, GroupType,
};
use black_rose_auth_api::eve::model::character::CharacterAffiliationDto;

fn at(secs: i64) -> Timestamp {
    Timestamp { secs, nanos: 0 }
}

fn application(id: i32, user_id: i32, status: StoredStatus) -> GroupApplication {
    GroupApplication {
        id,
        group_id: 3,
        user_id,
        responder: None,
        status,
        request_type: GroupApplicationType::Join,
        request_message: Some("let me in".to_string()),
        response_message: None,
        created: at(100),
        last_updated: at(100),
    }
}

fn main_of(user_id: i32, character_id: i32) -> Ownership {
    Ownership { id: user_id * 10, user_id, character_id, ownerhash: "h".to_string(), main: true }
}

fn affiliation(character_id: i32, name: &str) -> CharacterAffiliationDto {
    CharacterAffiliationDto {
        character_id,
        character_name: name.to_string(),
        corporation_id: 98755820,
        corporation_name: "Killers of the Flower Moon".to_string(),
        alliance_id: Some(99012770),
        alliance_name: Some("Black Rose.".to_string()),
    }
}

fn group_of_type(group_type: GroupType) -> Group {
    Group {
        id: 3,
        name: "Group".to_string(),
        description: None,
        confidential: false,
        leave_applications: false,
        group_type,
        filter_type: GroupFilterType::All,
    }
}

#[test]
fn only_application_groups_list_applications() {
    assert_eq!(check_group_accepts_applications(&None), Err(GroupError::GroupDoesNotExist));
    assert_eq!(
        check_group_accepts_applications(&Some(group_of_type(GroupType::Open))),
        Err(GroupError::GroupDoesNotRequireApplications)
    );
    assert_eq!(check_group_accepts_applications(&Some(group_of_type(GroupType::Apply))), Ok(()));
    let refusal = get_group_applications_refusal(GroupError::GroupDoesNotRequireApplications);
    assert_eq!(refusal, Reply { status: 403, message: "Group does not require applications" });
    assert_eq!(
        get_group_applications_refusal(GroupError::GroupDoesNotExist),
        Reply { status: 404, message: "Group does not exist" }
    );
}

#[test]
fn listing_joins_applicants_and_responders() {
    let mut answered = application(2, 20, StoredStatus::Accepted);
    answered.responder = Some(10);
    let applications = vec![application(1, 10, StoredStatus::Outstanding), answered];
    let mut ids = application_user_ids(&applications);
    ids.sort();
    assert_eq!(ids, vec![10, 20]);
    let mains = vec![main_of(10, 2118500443), main_of(20, 2122013871)];
    let affiliations =
        vec![affiliation(2118500443, "Elite Drake Pilot"), affiliation(2122013871, "Rytsuki's Proctologist")];
    let listed = get_group_application(&applications, &mains, &affiliations);
    assert_eq!(listed.len(), 2);
    assert_eq!(listed[0].id, 1);
    assert_eq!(listed[0].applicant_info.character_name, "Elite Drake Pilot");
    assert!(listed[0].responder_info.is_none());
    assert_eq!(listed[0].status, GroupApplicationStatus::Outstanding);
    assert_eq!(listed[1].id, 2);
    assert_eq!(listed[1].applicant_info.character_name, "Rytsuki's Proctologist");
    assert_eq!(listed[1].responder_info.as_ref().map(|r| r.character_id), Some(2118500443));
    assert_eq!(listed[1].status, GroupApplicationStatus::Accepted);
}

#[test]
fn applicants_without_affiliation_are_left_out() {
    let applications = vec![application(1, 10, StoredStatus::Outstanding)];
    let mains = vec![main_of(10, 2118500443)];
    assert!(get_group_application(&applications, &mains, &vec![]).is_empty());
}

#[test]
fn updating_an_outstanding_application() {
    let app = application(1, 10, StoredStatus::Outstanding);
    let updated = update_group_application(
        Some(app),
        Some(String::new()),
        None,
        Some(StoredStatus::Rejected),
        Some(77),
        at(500),
    )
    .unwrap();
    assert_eq!(updated.request_message, None);
    assert_eq!(updated.status, StoredStatus::Rejected);
    assert_eq!(updated.responder, Some(77));
    assert_eq!(updated.last_updated, at(500));
    assert_eq!(updated.created, at(100));
}

#[test]
fn a_response_message_is_stored_in_the_request_message() {
    let app = application(1, 10, StoredStatus::Outstanding);
    let updated =
        update_group_application(Some(app), None, Some("welcome".to_string()), None, None, at(9))
            .unwrap();
    assert_eq!(updated.request_message, Some("welcome".to_string()));
    assert_eq!(updated.response_message, None);
    let mut answered = application(2, 10, StoredStatus::Outstanding);
    answered.response_message = Some("earlier".to_string());
    let cleared = update_group_application(Some(answered), None, Some(String::new()), None, None, at(10))
        .unwrap();
    assert_eq!(cleared.response_message, None);
}

#[test]
fn listing_checks_the_group_and_the_user() {
    let apply = Some(group_of_type(GroupType::Apply));
    let user = Some(User { id: 10, admin: false, created: at(1) });
    assert_eq!(check_application_listing(None, &None, None, &None), Ok(()));
    assert_eq!(check_application_listing(Some(3), &None, Some(10), &user), Err(GroupError::GroupDoesNotExist));
    assert_eq!(
        check_application_listing(Some(3), &Some(group_of_type(GroupType::Auto)), None, &None),
        Err(GroupError::GroupDoesNotRequireApplications)
    );
    assert_eq!(check_application_listing(Some(3), &apply, Some(10), &None), Err(GroupError::UserDoesNotExist));
    assert_eq!(check_application_listing(Some(3), &apply, Some(10), &user), Ok(()));
    assert_eq!(check_application_listing(None, &None, Some(10), &None), Err(GroupError::UserDoesNotExist));
    assert_eq!(
        get_group_applications_refusal(GroupError::UserDoesNotExist),
        Reply { status: 404, message: "User does not exist" }
    );
}

#[test]
fn completed_applications_cannot_change() {
    let app = application(1, 10, StoredStatus::Accepted);
    let result = update_group_application(Some(app), None, None, None, None, at(9));
    assert_eq!(result.err(), Some(GroupError::CompletedApplicationUpdate));
    let missing = update_group_application(None, None, None, None, None, at(9));
    assert_eq!(missing.err(), Some(GroupError::ApplicationNotFound));
    assert_eq!(
        update_application_refusal(GroupError::CompletedApplicationUpdate, true),
        Reply { status: 403, message: "Not allowed to update a completed application" }
    );
    assert_eq!(
        update_application_refusal(GroupError::CompletedApplicationUpdate, false),
        Reply { status: 500, message: "Error updating application" }
    );
    assert_eq!(
        update_application_refusal(GroupError::ApplicationNotFound, false),
        Reply { status: 404, message: "Application not found" }
    );
}

#[test]
fn withdrawing_applications() {
    assert_eq!(
        delete_group_application(&Some(application(1, 10, StoredStatus::Outstanding))),
        Ok(())
    );
    assert_eq!(
        delete_group_application(&Some(application(1, 10, StoredStatus::Rejected))),
        Err(GroupError::CompletedApplicationDelete)
    );
    assert_eq!(delete_group_application(&None), Err(GroupError::ApplicationNotFound));
    assert_eq!(
        delete_application_reply(Ok(1)),
        Reply { status: 200, message: "Successfully deleted application" }
    );
    assert_eq!(delete_application_reply(Ok(0)), Reply { status: 404, message: "Application does not exist" });
    assert_eq!(
        delete_application_reply(Err(GroupError::CompletedApplicationDelete)),
        Reply { status: 403, message: "Not allowed to delete a completed application" }
    );
}

#[test]
fn only_the_applicant_may_change_an_application() {
    let applications = vec![application(1, 10, StoredStatus::Outstanding)];
    let mains = vec![main_of(10, 2118500443)];
    let listing = get_group_application(&applications, &mains, &vec![affiliation(2118500443, "Elite Drake Pilot")]);
    assert_eq!(check_application_owner(&listing, 10, false), Ok(()));
    assert_eq!(
        check_application_owner(&listing, 11, false),
        Err(Reply { status: 403, message: "Not allowed to edit other user's application" })
    );
    assert_eq!(
        check_application_owner(&listing, 11, true),
        Err(Reply { status: 403, message: "Not allowed to delete other user's application" })
    );
    assert_eq!(
        check_application_owner(&vec![], 10, true),
        Err(Reply { status: 404, message: "Application does not exist" })
    );
}

#[test]
fn answering_applications() {
    assert_eq!(application_action_status(ApplicationAction::Accept), StoredStatus::Accepted);
    assert_eq!(application_action_status(ApplicationAction::Reject), StoredStatus::Rejected);
    let join = application(1, 10, StoredStatus::Outstanding);
    let mut leave = application(2, 20, StoredStatus::Outstanding);
    leave.request_type = GroupApplicationType::Leave;
    let follow_join = approval_follow_up(ApplicationAction::Accept, &join);
    assert_eq!(follow_join, ApprovalFollowUp::AddMember { group_id: 3, user_id: 10 });
    assert_eq!(
        approval_follow_up(ApplicationAction::Accept, &leave),
        ApprovalFollowUp::RemoveMember { group_id: 3, user_id: 20 }
    );
    assert_eq!(approval_follow_up(ApplicationAction::Reject, &join), ApprovalFollowUp::Rejected);
    assert_eq!(
        approval_reply(follow_join, Ok(())),
        Reply { status: 200, message: "Successfully approved group join request" }
    );
    assert_eq!(
        approval_reply(follow_join, Err(GroupError::GroupDoesNotExist)),
        Reply { status: 404, message: "Group does not exist" }
    );
    assert_eq!(
        approval_reply(ApprovalFollowUp::Rejected, Ok(())),
        Reply { status: 200, message: "Successfully rejected application" }
    );
}
