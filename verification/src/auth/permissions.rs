//! Who may use the group administration endpoints.

use vstd::prelude::*;

use crate::auth::route::groups::Reply;

verus! {

/// What looking up the session's user gave.
#[derive(Clone, Copy, Debug, PartialEq, Eq, Structural)]
pub enum UserLookup {
    /// The lookup failed.
    Failed,
    /// No such user.
    Missing,
    /// The user, and whether they are an admin.
    Found { admin: bool },
}

/// Lets an admin through with their user id; refuses a missing session or
/// user (404), a failed lookup (500) and anyone else (403).
pub fn require_permissions(session_user: Option<i32>, lookup: UserLookup) -> (r: Result<i32, Reply>)
    ensures
        r == (match session_user {
            None => Err(Reply { status: 404, message: "User not found" }),
            Some(user_id) => match lookup {
                UserLookup::Failed => Err(
                    Reply { status: 500, message: "There was an issue getting user info" },
                ),
                UserLookup::Missing => Err(Reply { status: 404, message: "User not found" }),
                UserLookup::Found { admin } => if admin {
                    Ok(user_id)
                } else {
                    Err(Reply { status: 403, message: "Insufficient permissions" })
                },
            },
        }),
{
    match session_user {
        None => Err(Reply { status: 404, message: "User not found" }),
        Some(user_id) => match lookup {
            UserLookup::Failed => Err(
                Reply { status: 500, message: "There was an issue getting user info" },
            ),
            UserLookup::Missing => Err(Reply { status: 404, message: "User not found" }),
            UserLookup::Found { admin } => {
                if admin {
                    Ok(user_id)
                } else {
                    Err(Reply { status: 403, message: "Insufficient permissions" })
                }
            },
        },
    }
}

} // verus!
