//! The parameters of the session-cookie login endpoints.

use vstd::prelude::*;

verus! {

/// What the sign-on provider sends back.
pub struct CallbackParams {
    pub code: String,
    pub state: String,
}

/// Options of a login: make the character the main one, or set up the
/// first admin.
pub struct QueryParams {
    pub set_main: Option<bool>,
    pub admin_setup: Option<String>,
}

} // verus!
