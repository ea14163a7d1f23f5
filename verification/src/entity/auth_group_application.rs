use vstd::prelude::*;

use crate::clock::Timestamp;
use crate::entity::sea_orm_active_enums::{GroupApplicationStatus, GroupApplicationType};

verus! {

/// A stored request to join or to leave a group.
#[derive(Debug)]
pub struct Model {
    pub id: i32,
    pub group_id: i32,
    pub user_id: i32,
    pub responder: Option<i32>,
    pub status: GroupApplicationStatus,
    pub request_type: GroupApplicationType,
    pub request_message: Option<String>,
    pub response_message: Option<String>,
    pub created: Timestamp,
    pub last_updated: Timestamp,
}

impl Clone for Model {
    fn clone(&self) -> (r: Self)
        ensures
            r == *self,
    {
        Model {
            id: self.id,
            group_id: self.group_id,
            user_id: self.user_id,
            responder: self.responder,
            status: self.status,
            request_type: self.request_type,
            request_message: self.request_message.clone(),
            response_message: self.response_message.clone(),
            created: self.created,
            last_updated: self.last_updated,
        }
    }
}

} // verus!
