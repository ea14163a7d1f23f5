pub mod applications;
pub mod members;

use vstd::prelude::*;

verus! {

/// What a request is answered with: an HTTP status and a message.
#[derive(Clone, Copy, Debug, PartialEq, Eq)]
pub struct Reply {
    pub status: u16,
    pub message: &'static str,
}

} // verus!
