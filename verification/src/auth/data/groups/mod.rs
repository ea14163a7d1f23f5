//! Groups, their members and the applications to join or leave them.

pub mod applications;
pub mod filters;
pub mod members;
pub mod stored_filters;

use vstd::prelude::*;

use crate::auth::model::groups::{UpdateGroupFilterGroupDto, UpdateGroupFilterRuleDto};

verus! {

/// Why a request about a group was refused.
#[derive(Clone, Copy, Debug, PartialEq, Eq, Structural)]
pub enum GroupError {
    GroupDoesNotExist,
    UserDoesNotExist,
    GroupDoesNotRequireApplications,
    AlreadyAMember,
    UserDoesNotMeetGroupRequirements,
    JoinApplicationExists,
    LeaveApplicationExists,
    NotAMember,
    ApplicationNotFound,
    CompletedApplicationUpdate,
    CompletedApplicationDelete,
}

/// The text each refusal is reported with.
pub open spec fn spec_error_message(e: GroupError) -> Seq<char> {
    match e {
        GroupError::GroupDoesNotExist => "Group does not exist"@,
        GroupError::UserDoesNotExist => "User does not exist"@,
        GroupError::GroupDoesNotRequireApplications => "Group does not require applications"@,
        GroupError::AlreadyAMember => "Already a member"@,
        GroupError::UserDoesNotMeetGroupRequirements => "User does not meet group requirements"@,
        GroupError::JoinApplicationExists => "Application to join already exists"@,
        GroupError::LeaveApplicationExists => "Application to leave already exists"@,
        GroupError::NotAMember => "User is not a member of the group"@,
        GroupError::ApplicationNotFound => "Application not found"@,
        GroupError::CompletedApplicationUpdate => "Not allowed to update a completed application"@,
        GroupError::CompletedApplicationDelete => "Not allowed to delete a completed application"@,
    }
}

impl GroupError {
    /// The text this refusal is reported with.
    pub fn message(&self) -> (r: &'static str)
        ensures
            r@ == spec_error_message(*self),
    {
        match self {
            GroupError::GroupDoesNotExist => "Group does not exist",
            GroupError::UserDoesNotExist => "User does not exist",
            GroupError::GroupDoesNotRequireApplications => "Group does not require applications",
            GroupError::AlreadyAMember => "Already a member",
            GroupError::UserDoesNotMeetGroupRequirements => "User does not meet group requirements",
            GroupError::JoinApplicationExists => "Application to join already exists",
            GroupError::LeaveApplicationExists => "Application to leave already exists",
            GroupError::NotAMember => "User is not a member of the group",
            GroupError::ApplicationNotFound => "Application not found",
            GroupError::CompletedApplicationUpdate => "Not allowed to update a completed application",
            GroupError::CompletedApplicationDelete => "Not allowed to delete a completed application",
        }
    }
}

/// The group id a deletion reports: the id where exactly one group row was
/// deleted, nothing otherwise.
pub fn delete_group(group_id: i32, rows_affected: u64) -> (r: Option<i32>)
    ensures
        r == (if rows_affected == 1 { Some(group_id) } else { None }),
{
    if rows_affected == 1 {
        Some(group_id)
    } else {
        None
    }
}

/// The ids of the rules of an update that replace stored rules; the stored
/// rules of the rule set that are not among them are deleted.
pub fn update_filter_rule_ids(rules: &Vec<UpdateGroupFilterRuleDto>) -> (r: Vec<i32>)
    ensures
        r@ == rules@.filter_map(|rule: UpdateGroupFilterRuleDto| rule.id),
{
    let mut ids: Vec<i32> = Vec::new();
    let mut i: usize = 0;
    while i < rules.len()
        invariant
            i <= rules@.len(),
            ids@ == rules@.take(i as int).filter_map(|rule: UpdateGroupFilterRuleDto| rule.id),
        decreases rules.len() - i,
    {
        proof {
            rules@.lemma_filter_map_take_succ(|rule: UpdateGroupFilterRuleDto| rule.id, i as int);
        }
        if let Some(id) = rules[i].id {
            ids.push(id);
        }
        i = i + 1;
    }
    assert(rules@.take(rules@.len() as int) =~= rules@);
    ids
}

/// The ids of the nested rule sets of an update that replace stored ones;
/// the stored rule sets of the group that are not among them are deleted.
pub fn update_filter_group_ids(groups: &Vec<UpdateGroupFilterGroupDto>) -> (r: Vec<i32>)
    ensures
        r@ == groups@.filter_map(|group: UpdateGroupFilterGroupDto| group.id),
{
    let mut ids: Vec<i32> = Vec::new();
    let mut i: usize = 0;
    while i < groups.len()
        invariant
            i <= groups@.len(),
            ids@ == groups@.take(i as int).filter_map(|group: UpdateGroupFilterGroupDto| group.id),
        decreases groups.len() - i,
    {
        proof {
            groups@.lemma_filter_map_take_succ(|group: UpdateGroupFilterGroupDto| group.id, i as int);
        }
        if let Some(id) = groups[i].id {
            ids.push(id);
        }
        i = i + 1;
    }
    assert(groups@.take(groups@.len() as int) =~= groups@);
    ids
}

} // verus!
