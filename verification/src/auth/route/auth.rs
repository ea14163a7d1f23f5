//! The decisions of the login flow: checking the admin setup code, the
//! returned state, whose character logs in and where the browser goes
//! next.

use vstd::prelude::*;

use crate::auth::route::groups::Reply;
use crate::clock::{elapsed_more_than, Timestamp};
use crate::entity::auth_user_character_ownership::Model as UserCharacterOwnership;
use crate::text::{join3, same_text};

verus! {

/// What the sign-on provider sends back.
pub struct CallbackParams {
    pub code: String,
    pub state: String,
}

/// Options of a login: make the character the main one, or set up the
/// first admin with the code printed at start-up.
pub struct LoginParams {
    pub set_main: Option<bool>,
    pub admin_setup: Option<String>,
}

/// How long stored affiliations stay fresh at login, in seconds.
pub const AFFILIATION_REFRESH_SECONDS: i64 = 3600;

/// Where the sign-on provider sends the browser back to.
pub fn login_redirect_url(backend_domain: &str) -> (r: String)
    ensures
        r@ == "http://"@ + backend_domain@ + "/auth/callback"@,
{
    join3("http://", backend_domain, "/auth/callback")
}

/// Checks a login's admin setup code against the stored one: without a
/// code nothing changes (`Ok(false)`); a code equal to the stored one
/// makes the user an admin after login (`Ok(true)`); any other code, or no
/// stored code, is forbidden.
pub fn check_admin_setup(admin_setup: &Option<String>, stored_code: &Option<String>) -> (r: Result<
    bool,
    Reply,
>)
    ensures
        r == (match *admin_setup {
            None => Ok(false),
            Some(code) => match *stored_code {
                Some(stored) => if stored@ == code@ {
                    Ok(true)
                } else {
                    Err(
                        Reply {
                            status: 403,
                            message: "Invalid admin authorization code, restart your application to get a new one.",
                        },
                    )
                },
                None => Err(
                    Reply {
                        status: 403,
                        message: "Invalid admin authorization code, restart your application to get a new one.",
                    },
                ),
            },
        }),
{
    match admin_setup {
        None => Ok(false),
        Some(code) => match stored_code {
            Some(stored) => {
                if same_text(stored.as_str(), code.as_str()) {
                    Ok(true)
                } else {
                    Err(
                        Reply {
                            status: 403,
                            message: "Invalid admin authorization code, restart your application to get a new one.",
                        },
                    )
                }
            },
            None => Err(
                Reply {
                    status: 403,
                    message: "Invalid admin authorization code, restart your application to get a new one.",
                },
            ),
        },
    }
}

/// The returned state must be the one stored in the session.
pub fn callback_state_is_valid(session_state: &Option<String>, state: &String) -> (r: bool)
    ensures
        r == (match *session_state {
            Some(s) => s@ == state@,
            None => false,
        }),
{
    match session_state {
        Some(s) => same_text(s.as_str(), state.as_str()),
        None => false,
    }
}

/// A character's affiliation is refreshed at login once it is older than
/// an hour.
pub fn affiliation_is_stale(now: Timestamp, last_updated: Timestamp) -> (r: bool)
    requires
        now.wf(),
        last_updated.wf(),
    ensures
        r == (now.total_nanos() - last_updated.total_nanos() > AFFILIATION_REFRESH_SECONDS
            * 1_000_000_000),
{
    elapsed_more_than(now, last_updated, AFFILIATION_REFRESH_SECONDS)
}

/// Whose character logs in.
pub enum LoginOwner {
    /// The user already logged in: the character is attached to them.
    SessionUser(i32),
    /// The character's owner hash is known: its ownership is the result.
    Known(UserCharacterOwnership),
    /// Nobody is logged in and the owner hash is unknown: a new user is
    /// created and the character attached to them.
    NewUser,
}

/// Decides whose character logs in from the session's user and, where
/// nobody is logged in, the ownership stored under the owner hash.
pub fn login_owner(session_user: Option<i32>, by_ownerhash: Option<UserCharacterOwnership>) -> (r:
    LoginOwner)
    ensures
        r == (match session_user {
            Some(u) => LoginOwner::SessionUser(u),
            None => match by_ownerhash {
                Some(o) => LoginOwner::Known(o),
                None => LoginOwner::NewUser,
            },
        }),
{
    match session_user {
        Some(u) => LoginOwner::SessionUser(u),
        None => match by_ownerhash {
            Some(o) => LoginOwner::Known(o),
            None => LoginOwner::NewUser,
        },
    }
}

/// A setting the redirect needs is missing.
#[derive(Clone, Copy, Debug, PartialEq, Eq, Structural)]
pub enum MissingSetting {
    FrontendDomain,
    BackendDomain,
}

/// A front-end domain is configured when it is set and not empty.
pub open spec fn domain_set(domain: Option<String>) -> bool {
    domain matches Some(d) && d@.len() > 0
}

/// Where the browser goes after login, and whether the character becomes
/// the user's main one: the front end's start page, or its settings page
/// where a main change was asked for and the character is not the main
/// one yet; without a front end, the API docs in debug builds.
pub fn callback_redirect(
    frontend_domain: &Option<String>,
    backend_domain: &Option<String>,
    debug: bool,
    set_main: Option<bool>,
    is_main: bool,
) -> (r: Result<(String, bool), MissingSetting>)
    ensures
        domain_set(*frontend_domain) ==> {
            let fd = frontend_domain->0@;
            let change = set_main == Some(true) && !is_main;
            (r matches Ok((loc, c)) && c == change && loc@ == (if change {
                "http://"@ + fd + "/settings"@
            } else {
                "http://"@ + fd + "/"@
            }))
        },
        !domain_set(*frontend_domain) && debug ==> (match *backend_domain {
            Some(bd) => (r matches Ok((loc, c)) && !c && loc@ == "http://"@ + bd@ + "/docs"@),
            None => r == Err::<(String, bool), MissingSetting>(MissingSetting::BackendDomain),
        }),
        !domain_set(*frontend_domain) && !debug ==> r == Err::<(String, bool), MissingSetting>(
            MissingSetting::FrontendDomain,
        ),
{
    match frontend_domain {
        Some(fd) if !fd.as_str().is_empty() => {
            if set_main == Some(true) && !is_main {
                Ok((join3("http://", fd.as_str(), "/settings"), true))
            } else {
                Ok((join3("http://", fd.as_str(), "/"), false))
            }
        },
        _ => {
            if debug {
                match backend_domain {
                    Some(bd) => Ok((join3("http://", bd.as_str(), "/docs"), false)),
                    None => Err(MissingSetting::BackendDomain),
                }
            } else {
                Err(MissingSetting::FrontendDomain)
            }
        },
    }
}

/// Where the browser goes after logout, by a temporary (307) redirect: the
/// front end's login page; without a front end, the API docs in debug
/// builds.
pub fn logout_redirect(frontend_domain: &Option<String>, backend_domain: &Option<String>, debug: bool) -> (r:
    Result<(u16, String), MissingSetting>)
    ensures
        domain_set(*frontend_domain) ==> (r matches Ok((status, loc)) && status == 307 && loc@
            == "http://"@ + frontend_domain->0@ + "/login"@),
        !domain_set(*frontend_domain) && debug ==> (match *backend_domain {
            Some(bd) => (r matches Ok((status, loc)) && status == 307 && loc@ == "http://"@ + bd@
                + "/docs"@),
            None => r == Err::<(u16, String), MissingSetting>(MissingSetting::BackendDomain),
        }),
        !domain_set(*frontend_domain) && !debug ==> r == Err::<(u16, String), MissingSetting>(
            MissingSetting::FrontendDomain,
        ),
{
    match frontend_domain {
        Some(fd) if !fd.as_str().is_empty() => Ok((307, join3("http://", fd.as_str(), "/login"))),
        _ => {
            if debug {
                match backend_domain {
                    Some(bd) => Ok((307, join3("http://", bd.as_str(), "/docs"))),
                    None => Err(MissingSetting::BackendDomain),
                }
            } else {
                Err(MissingSetting::FrontendDomain)
            }
        },
    }
}

} // verus!
