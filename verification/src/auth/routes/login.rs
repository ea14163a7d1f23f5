//! The parameters of the first login endpoints.

use vstd::prelude::*;

verus! {

/// What the sign-on provider sends back.
pub struct CallbackParams {
    pub code: String,
    pub state: String,
}

/// Options of a login.
pub struct LoginParams {
    pub set_main: Option<bool>,
    pub admin_setup: Option<String>,
}

} // verus!
