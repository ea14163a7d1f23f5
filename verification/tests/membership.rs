use black_rose_auth_api::auth::data::groups::members::{
    join_group, leave_group, start_membership_request, FetchedGroup, InsertOutcome, MembershipAction,
    MembershipEvent, MembershipOutcome, MembershipStage,
};
use black_rose_auth_api::auth::data::groups::GroupError;
use black_rose_auth_api::entity::sea_orm_active_enums::{GroupApplicationType, GroupType};
use black_rose_auth_api::auth::route::groups::members::{
    add_group_members_reply, join_group_reply, leave_group_reply,
};
use black_rose_auth_api::auth::route::groups::Reply;

const GROUP: i32 = 11;
const USER: i32 = 5;

type Step = fn(MembershipStage, i32, i32, MembershipEvent) -> (MembershipStage, MembershipAction);

/// Feeds the answers to one request and collects the actions it asked for.
fn run(step: Step, events: &[MembershipEvent]) -> (MembershipStage, Vec<MembershipAction>) {
    let (mut stage, first) = start_membership_request(GROUP);
    let mut actions = vec![first];
    for event in events {
        let (next, action) = step(stage, GROUP, USER, *event);
        stage = next;
        actions.push(action);
    }
    (stage, actions)
}

fn group(group_type: GroupType, leave_applications: bool) -> MembershipEvent {
    MembershipEvent::GroupFetched(Some(FetchedGroup { group_type, leave_applications }))
}

#[test]
fn joining_an_open_group_adds_the_user() {
    let (stage, actions) = run(
        join_group,
        &[group(GroupType::Open, false), MembershipEvent::MemberAdded { outcome: InsertOutcome::Inserted }],
    );
    assert_eq!(stage, MembershipStage::Done);
    assert_eq!(
        actions,
        vec![
            MembershipAction::FetchGroup { group_id: GROUP },
            MembershipAction::AddMember { group_id: GROUP, user_id: USER },
            MembershipAction::Finish(MembershipOutcome::Changed),
        ]
    );
    assert_eq!(
        join_group_reply(MembershipOutcome::Changed),
        Some(Reply { status: 200, message: "Joined group successfully" })
    );
}

#[test]
fn joining_twice_is_refused() {
    let (_, actions) = run(
        join_group,
        &[group(GroupType::Auto, false), MembershipEvent::MemberAdded { outcome: InsertOutcome::Conflicted }],
    );
    let outcome = MembershipOutcome::Refused(GroupError::AlreadyAMember);
    assert_eq!(actions.last(), Some(&MembershipAction::Finish(outcome)));
    assert_eq!(join_group_reply(outcome), Some(Reply { status: 409, message: "Already a member" }));
}

#[test]
fn joining_an_unknown_group_is_refused() {
    let (stage, actions) = run(join_group, &[MembershipEvent::GroupFetched(None)]);
    assert_eq!(stage, MembershipStage::Done);
    let outcome = MembershipOutcome::Refused(GroupError::GroupDoesNotExist);
    assert_eq!(actions.last(), Some(&MembershipAction::Finish(outcome)));
    assert_eq!(join_group_reply(outcome), Some(Reply { status: 404, message: "Group does not exist" }));
}

#[test]
fn joining_an_application_group_stores_an_application() {
    let (stage, actions) = run(
        join_group,
        &[
            group(GroupType::Apply, false),
            MembershipEvent::EligibilityChecked { eligible: true },
            MembershipEvent::OutstandingApplicationFound { found: false },
            MembershipEvent::ApplicationCreated { application_id: 41 },
            MembershipEvent::ApplicationFetched,
        ],
    );
    assert_eq!(stage, MembershipStage::Done);
    assert_eq!(
        actions,
        vec![
            MembershipAction::FetchGroup { group_id: GROUP },
            MembershipAction::CheckEligibility { group_id: GROUP, user_id: USER },
            MembershipAction::FindOutstandingApplication {
                group_id: GROUP,
                user_id: USER,
                request_type: GroupApplicationType::Join,
            },
            MembershipAction::CreateApplication {
                group_id: GROUP,
                user_id: USER,
                request_type: GroupApplicationType::Join,
            },
            MembershipAction::FetchApplication { application_id: 41 },
            MembershipAction::Finish(MembershipOutcome::Applied),
        ]
    );
    assert_eq!(join_group_reply(MembershipOutcome::Applied), None);
}

#[test]
fn ineligible_users_get_no_application() {
    let (_, actions) = run(
        join_group,
        &[group(GroupType::Hidden, false), MembershipEvent::EligibilityChecked { eligible: false }],
    );
    assert!(!actions.iter().any(|a| matches!(a, MembershipAction::CreateApplication { .. })));
    let outcome = MembershipOutcome::Refused(GroupError::UserDoesNotMeetGroupRequirements);
    assert_eq!(actions.last(), Some(&MembershipAction::Finish(outcome)));
    assert_eq!(
        join_group_reply(outcome),
        Some(Reply { status: 400, message: "User does not meet group requirements" })
    );
}

#[test]
fn a_second_join_application_is_refused() {
    let (_, actions) = run(
        join_group,
        &[
            group(GroupType::Apply, false),
            MembershipEvent::EligibilityChecked { eligible: true },
            MembershipEvent::OutstandingApplicationFound { found: true },
        ],
    );
    let outcome = MembershipOutcome::Refused(GroupError::JoinApplicationExists);
    assert_eq!(actions.last(), Some(&MembershipAction::Finish(outcome)));
    assert_eq!(
        join_group_reply(outcome),
        Some(Reply { status: 409, message: "Application to join already exists" })
    );
}

#[test]
fn answers_out_of_turn_change_nothing() {
    let (stage, action) =
        join_group(MembershipStage::AwaitGroup, GROUP, USER, MembershipEvent::MemberRemoved);
    assert_eq!(stage, MembershipStage::AwaitGroup);
    assert_eq!(action, MembershipAction::Idle);
}

#[test]
fn leaving_removes_a_member() {
    let (stage, actions) = run(
        leave_group,
        &[
            group(GroupType::Open, false),
            MembershipEvent::MembershipFetched { member: true },
            MembershipEvent::MemberRemoved,
        ],
    );
    assert_eq!(stage, MembershipStage::Done);
    assert_eq!(
        actions,
        vec![
            MembershipAction::FetchGroup { group_id: GROUP },
            MembershipAction::FetchMembership { group_id: GROUP, user_id: USER },
            MembershipAction::RemoveMember { group_id: GROUP, user_id: USER },
            MembershipAction::Finish(MembershipOutcome::Changed),
        ]
    );
    assert_eq!(
        leave_group_reply(MembershipOutcome::Changed),
        Some(Reply { status: 200, message: "Left group successfully" })
    );
}

#[test]
fn non_members_cannot_leave() {
    let (_, actions) = run(
        leave_group,
        &[group(GroupType::Open, true), MembershipEvent::MembershipFetched { member: false }],
    );
    assert!(!actions.iter().any(|a| matches!(
        a,
        MembershipAction::RemoveMember { .. } | MembershipAction::CreateApplication { .. }
    )));
    let outcome = MembershipOutcome::Refused(GroupError::NotAMember);
    assert_eq!(actions.last(), Some(&MembershipAction::Finish(outcome)));
    assert_eq!(
        leave_group_reply(outcome),
        Some(Reply { status: 409, message: "User is not a member of the group" })
    );
}

#[test]
fn leaving_by_application() {
    let (stage, actions) = run(
        leave_group,
        &[
            group(GroupType::Apply, true),
            MembershipEvent::MembershipFetched { member: true },
            MembershipEvent::OutstandingApplicationFound { found: false },
            MembershipEvent::ApplicationCreated { application_id: 9 },
            MembershipEvent::ApplicationFetched,
        ],
    );
    assert_eq!(stage, MembershipStage::Done);
    assert_eq!(
        actions[3],
        MembershipAction::CreateApplication {
            group_id: GROUP,
            user_id: USER,
            request_type: GroupApplicationType::Leave,
        }
    );
    assert_eq!(actions.last(), Some(&MembershipAction::Finish(MembershipOutcome::Applied)));
}

#[test]
fn a_second_leave_application_is_refused() {
    let (_, actions) = run(
        leave_group,
        &[
            group(GroupType::Apply, true),
            MembershipEvent::MembershipFetched { member: true },
            MembershipEvent::OutstandingApplicationFound { found: true },
        ],
    );
    let outcome = MembershipOutcome::Refused(GroupError::LeaveApplicationExists);
    assert_eq!(actions.last(), Some(&MembershipAction::Finish(outcome)));
    assert_eq!(
        leave_group_reply(outcome),
        Some(Reply { status: 409, message: "Application to leave already exists" })
    );
}

#[test]
fn adding_members_replies() {
    assert_eq!(add_group_members_reply(Ok(())), Reply { status: 200, message: "Users added successfully" });
    assert_eq!(
        add_group_members_reply(Err(GroupError::GroupDoesNotExist)),
        Reply { status: 404, message: "Group does not exist" }
    );
    assert_eq!(
        add_group_members_reply(Err(GroupError::NotAMember)),
        Reply { status: 500, message: "Error adding user to group" }
    );
}

#[test]
fn group_errors_have_their_messages() {
    assert_eq!(GroupError::GroupDoesNotExist.message(), "Group does not exist");
    assert_eq!(GroupError::AlreadyAMember.message(), "Already a member");
}

#[test]
fn a_finished_request_asks_for_nothing_more() {
    for event in [
        MembershipEvent::MemberRemoved,
        MembershipEvent::ApplicationFetched,
        MembershipEvent::MemberAdded { outcome: InsertOutcome::Inserted },
        group(GroupType::Open, false),
    ] {
        assert_eq!(
            join_group(MembershipStage::Done, GROUP, USER, event),
            (MembershipStage::Done, MembershipAction::Idle)
        );
        assert_eq!(
            leave_group(MembershipStage::Done, GROUP, USER, event),
            (MembershipStage::Done, MembershipAction::Idle)
        );
    }
}

#[test]
fn joining_an_open_group_without_passing_its_filters_is_no_refusal() {
    let (stage, actions) = run(
        join_group,
        &[group(GroupType::Open, false), MembershipEvent::MemberAdded { outcome: InsertOutcome::Empty }],
    );
    assert_eq!(stage, MembershipStage::Done);
    assert_eq!(actions.last(), Some(&MembershipAction::Finish(MembershipOutcome::Changed)));
}
