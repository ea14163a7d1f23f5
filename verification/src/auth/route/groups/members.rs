//! How the membership endpoints answer.

use vstd::prelude::*;

use crate::auth::data::groups::members::MembershipOutcome;
use crate::auth::data::groups::GroupError;
use crate::auth::route::groups::Reply;

verus! {

/// How a join request ends: with the stored application (answered by the
/// caller as JSON), with a message, or refused.
pub fn join_group_reply(outcome: MembershipOutcome) -> (r: Option<Reply>)
    ensures
        r == (match outcome {
            MembershipOutcome::Applied => None,
            MembershipOutcome::Changed => Some(
                Reply { status: 200, message: "Joined group successfully" },
            ),
            MembershipOutcome::Refused(e) => Some(
                match e {
                    GroupError::JoinApplicationExists => Reply {
                        status: 409,
                        message: "Application to join already exists",
                    },
                    GroupError::AlreadyAMember => Reply { status: 409, message: "Already a member" },
                    GroupError::UserDoesNotMeetGroupRequirements => Reply {
                        status: 400,
                        message: "User does not meet group requirements",
                    },
                    GroupError::GroupDoesNotExist => Reply {
                        status: 404,
                        message: "Group does not exist",
                    },
                    _ => Reply { status: 500, message: "Error adding user to group" },
                },
            ),
        }),
{
    match outcome {
        MembershipOutcome::Applied => None,
        MembershipOutcome::Changed => Some(Reply { status: 200, message: "Joined group successfully" }),
        MembershipOutcome::Refused(e) => Some(
            match e {
                GroupError::JoinApplicationExists => Reply {
                    status: 409,
                    message: "Application to join already exists",
                },
                GroupError::AlreadyAMember => Reply { status: 409, message: "Already a member" },
                GroupError::UserDoesNotMeetGroupRequirements => Reply {
                    status: 400,
                    message: "User does not meet group requirements",
                },
                GroupError::GroupDoesNotExist => Reply { status: 404, message: "Group does not exist" },
                _ => Reply { status: 500, message: "Error adding user to group" },
            },
        ),
    }
}

/// How a leave request ends: with the stored application (answered by the
/// caller as JSON), with a message, or refused.
pub fn leave_group_reply(outcome: MembershipOutcome) -> (r: Option<Reply>)
    ensures
        r == (match outcome {
            MembershipOutcome::Applied => None,
            MembershipOutcome::Changed => Some(Reply { status: 200, message: "Left group successfully" }),
            MembershipOutcome::Refused(e) => Some(
                match e {
                    GroupError::LeaveApplicationExists => Reply {
                        status: 409,
                        message: "Application to leave already exists",
                    },
                    GroupError::NotAMember => Reply {
                        status: 409,
                        message: "User is not a member of the group",
                    },
                    GroupError::GroupDoesNotExist => Reply {
                        status: 404,
                        message: "Group does not exist",
                    },
                    _ => Reply { status: 500, message: "Error leaving/requesting to leave group" },
                },
            ),
        }),
{
    match outcome {
        MembershipOutcome::Applied => None,
        MembershipOutcome::Changed => Some(Reply { status: 200, message: "Left group successfully" }),
        MembershipOutcome::Refused(e) => Some(
            match e {
                GroupError::LeaveApplicationExists => Reply {
                    status: 409,
                    message: "Application to leave already exists",
                },
                GroupError::NotAMember => Reply {
                    status: 409,
                    message: "User is not a member of the group",
                },
                GroupError::GroupDoesNotExist => Reply { status: 404, message: "Group does not exist" },
                _ => Reply { status: 500, message: "Error leaving/requesting to leave group" },
            },
        ),
    }
}

/// How adding users to a group is answered.
pub fn add_group_members_reply(result: Result<(), GroupError>) -> (r: Reply)
    ensures
        r == (match result {
            Ok(()) => Reply { status: 200, message: "Users added successfully" },
            Err(GroupError::GroupDoesNotExist) => Reply {
                status: 404,
                message: "Group does not exist",
            },
            Err(_) => Reply { status: 500, message: "Error adding user to group" },
        }),
{
    match result {
        Ok(()) => Reply { status: 200, message: "Users added successfully" },
        Err(GroupError::GroupDoesNotExist) => Reply { status: 404, message: "Group does not exist" },
        Err(_) => Reply { status: 500, message: "Error adding user to group" },
    }
}

} // verus!
