//! How the application endpoints answer.

use vstd::prelude::*;

use crate::auth::data::groups::GroupError;
use crate::auth::model::groups::{GroupApplicationDto, GroupApplicationStatus, GroupApplicationType};
use crate::auth::route::groups::Reply;
use crate::entity::auth_group_application::Model as GroupApplication;
use crate::entity::sea_orm_active_enums;

verus! {

/// The filters of an application listing.
pub struct GetGroupApplicationParams {
    pub group_id: Option<i32>,
    pub user_id: Option<i32>,
    pub application_status: Option<GroupApplicationStatus>,
    pub application_type: Option<GroupApplicationType>,
}

/// The answer to an application.
#[derive(Clone, Copy, Debug, PartialEq, Eq, Structural)]
pub enum ApplicationAction {
    Accept,
    Reject,
}

/// The status an answer gives an application.
pub fn application_action_status(action: ApplicationAction) -> (r:
    sea_orm_active_enums::GroupApplicationStatus)
    ensures
        r == (match action {
            ApplicationAction::Accept => sea_orm_active_enums::GroupApplicationStatus::Accepted,
            ApplicationAction::Reject => sea_orm_active_enums::GroupApplicationStatus::Rejected,
        }),
{
    match action {
        ApplicationAction::Accept => sea_orm_active_enums::GroupApplicationStatus::Accepted,
        ApplicationAction::Reject => sea_orm_active_enums::GroupApplicationStatus::Rejected,
    }
}

/// What follows once an application was answered.
#[derive(Clone, Copy, Debug, PartialEq, Eq, Structural)]
pub enum ApprovalFollowUp {
    /// The application was rejected: nothing more happens.
    Rejected,
    /// An accepted join application: the applicant is added to the group.
    AddMember { group_id: i32, user_id: i32 },
    /// An accepted leave application: the applicant leaves the group.
    RemoveMember { group_id: i32, user_id: i32 },
}

/// What follows the answer `action` to the application.
pub fn approval_follow_up(action: ApplicationAction, application: &GroupApplication) -> (r:
    ApprovalFollowUp)
    ensures
        r == (match action {
            ApplicationAction::Reject => ApprovalFollowUp::Rejected,
            ApplicationAction::Accept => match application.request_type {
                sea_orm_active_enums::GroupApplicationType::Join => ApprovalFollowUp::AddMember {
                    group_id: application.group_id,
                    user_id: application.user_id,
                },
                sea_orm_active_enums::GroupApplicationType::Leave => ApprovalFollowUp::RemoveMember {
                    group_id: application.group_id,
                    user_id: application.user_id,
                },
            },
        }),
{
    match action {
        ApplicationAction::Reject => ApprovalFollowUp::Rejected,
        ApplicationAction::Accept => match application.request_type {
            sea_orm_active_enums::GroupApplicationType::Join => ApprovalFollowUp::AddMember {
                group_id: application.group_id,
                user_id: application.user_id,
            },
            sea_orm_active_enums::GroupApplicationType::Leave => ApprovalFollowUp::RemoveMember {
                group_id: application.group_id,
                user_id: application.user_id,
            },
        },
    }
}

/// How a refused application listing is answered.
pub fn get_group_applications_refusal(e: GroupError) -> (r: Reply)
    ensures
        r.status == (match e {
            GroupError::GroupDoesNotExist | GroupError::UserDoesNotExist => 404u16,
            GroupError::GroupDoesNotRequireApplications => 403u16,
            _ => 500u16,
        }),
        r.status != 500 ==> r.message@ == crate::auth::data::groups::spec_error_message(e),
        r.status == 500 ==> r.message@ == "Error getting group applications"@,
{
    match e {
        GroupError::GroupDoesNotExist | GroupError::UserDoesNotExist => Reply {
            status: 404,
            message: e.message(),
        },
        GroupError::GroupDoesNotRequireApplications => Reply { status: 403, message: e.message() },
        _ => Reply { status: 500, message: "Error getting group applications" },
    }
}

/// Only the applicant may change or withdraw an application: an empty
/// listing is not found, another user's application is forbidden.
pub fn check_application_owner(
    listing: &Vec<GroupApplicationDto>,
    user_id: i32,
    withdraw: bool,
) -> (r: Result<(), Reply>)
    ensures
        listing@.len() == 0 ==> r == Err::<(), Reply>(
            Reply { status: 404, message: "Application does not exist" },
        ),
        listing@.len() > 0 && listing@[0].user_id != user_id && !withdraw ==> r == Err::<(), Reply>(
            Reply { status: 403, message: "Not allowed to edit other user's application" },
        ),
        listing@.len() > 0 && listing@[0].user_id != user_id && withdraw ==> r == Err::<(), Reply>(
            Reply { status: 403, message: "Not allowed to delete other user's application" },
        ),
        listing@.len() > 0 && listing@[0].user_id == user_id ==> r is Ok,
{
    if listing.len() == 0 {
        return Err(Reply { status: 404, message: "Application does not exist" });
    }
    if listing[0].user_id != user_id {
        if withdraw {
            return Err(
                Reply { status: 403, message: "Not allowed to delete other user's application" },
            );
        } else {
            return Err(Reply { status: 403, message: "Not allowed to edit other user's application" });
        }
    }
    Ok(())
}

/// How a refused change of an application is answered: by its applicant
/// (`answer` false) or by an answer to it (`answer` true).
pub fn update_application_refusal(e: GroupError, answer: bool) -> (r: Reply)
    ensures
        r.status == (match e {
            GroupError::ApplicationNotFound => 404u16,
            GroupError::CompletedApplicationUpdate => if answer {
                403u16
            } else {
                500u16
            },
            _ => 500u16,
        }),
        r.status != 500 ==> r.message@ == crate::auth::data::groups::spec_error_message(e),
        r.status == 500 ==> r.message@ == "Error updating application"@,
{
    match e {
        GroupError::ApplicationNotFound => Reply { status: 404, message: e.message() },
        GroupError::CompletedApplicationUpdate => {
            if answer {
                Reply { status: 403, message: e.message() }
            } else {
                Reply { status: 500, message: "Error updating application" }
            }
        },
        _ => Reply { status: 500, message: "Error updating application" },
    }
}

/// How a withdrawal is answered: with no row deleted the application does
/// not exist.
pub fn delete_application_reply(result: Result<u64, GroupError>) -> (r: Reply)
    ensures
        r == (match result {
            Ok(rows) => if rows == 0 {
                Reply { status: 404, message: "Application does not exist" }
            } else {
                Reply { status: 200, message: "Successfully deleted application" }
            },
            Err(GroupError::CompletedApplicationDelete) => Reply {
                status: 403,
                message: "Not allowed to delete a completed application",
            },
            Err(GroupError::ApplicationNotFound) => Reply {
                status: 404,
                message: "Application not found",
            },
            Err(_) => Reply { status: 500, message: "Error deleting application" },
        }),
{
    match result {
        Ok(rows) => {
            if rows == 0 {
                Reply { status: 404, message: "Application does not exist" }
            } else {
                Reply { status: 200, message: "Successfully deleted application" }
            }
        },
        Err(GroupError::CompletedApplicationDelete) => Reply {
            status: 403,
            message: "Not allowed to delete a completed application",
        },
        Err(GroupError::ApplicationNotFound) => Reply {
            status: 404,
            message: "Application not found",
        },
        Err(_) => Reply { status: 500, message: "Error deleting application" },
    }
}

/// How the follow-up of an answered application is answered: adding or
/// removing the applicant fails with 404 for an unknown group.
pub fn approval_reply(follow_up: ApprovalFollowUp, result: Result<(), GroupError>) -> (r: Reply)
    ensures
        r == (match follow_up {
            ApprovalFollowUp::Rejected => Reply {
                status: 200,
                message: "Successfully rejected application",
            },
            ApprovalFollowUp::AddMember { .. } => match result {
                Ok(()) => Reply { status: 200, message: "Successfully approved group join request" },
                Err(GroupError::GroupDoesNotExist) => Reply {
                    status: 404,
                    message: "Group does not exist",
                },
                Err(_) => Reply { status: 500, message: "Error approving group join application" },
            },
            ApprovalFollowUp::RemoveMember { .. } => match result {
                Ok(()) => Reply { status: 200, message: "Successfully approved group leave request" },
                Err(GroupError::GroupDoesNotExist) => Reply {
                    status: 404,
                    message: "Group does not exist",
                },
                Err(_) => Reply { status: 500, message: "Error approving group leave request" },
            },
        }),
{
    match follow_up {
        ApprovalFollowUp::Rejected => Reply { status: 200, message: "Successfully rejected application" },
        ApprovalFollowUp::AddMember { .. } => match result {
            Ok(()) => Reply { status: 200, message: "Successfully approved group join request" },
            Err(GroupError::GroupDoesNotExist) => Reply {
                status: 404,
                message: "Group does not exist",
            },
            Err(_) => Reply { status: 500, message: "Error approving group join application" },
        },
        ApprovalFollowUp::RemoveMember { .. } => match result {
            Ok(()) => Reply { status: 200, message: "Successfully approved group leave request" },
            Err(GroupError::GroupDoesNotExist) => Reply {
                status: 404,
                message: "Group does not exist",
            },
            Err(_) => Reply { status: 500, message: "Error approving group leave request" },
        },
    }
}

} // verus!
