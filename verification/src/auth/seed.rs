//! Setting up the first admin: a random one-time code and the login link
//! that carries it.

use vstd::prelude::*;

use rand::distributions::Alphanumeric;
use rand::rngs::ThreadRng;
use rand::Rng;

use crate::text::join3;

verus! {

#[verifier::external_type_specification]
#[verifier::external_body]
pub struct ExThreadRng(ThreadRng);

/// An ASCII letter or digit.
pub open spec fn is_alphanumeric(c: char) -> bool {
    ('A' <= c && c <= 'Z') || ('a' <= c && c <= 'z') || ('0' <= c && c <= '9')
}

/// `rand::thread_rng`: the thread's random number generator; nothing is
/// claimed of it.
#[verifier::external_body]
fn thread_rng() -> ThreadRng {
    rand::thread_rng()
}

/// `Rng::gen_range` on an inclusive range: a number from `low` to `high`;
/// it panics on an empty range, which `requires` rules out.
#[verifier::external_body]
fn gen_range_inclusive(rng: &mut ThreadRng, low: usize, high: usize) -> (n: usize)
    requires
        low <= high,
    ensures
        low <= n <= high,
{
    rng.gen_range(low..=high)
}

/// `Rng::sample` with the `Alphanumeric` distribution: one of the bytes
/// `A`-`Z`, `a`-`z`, `0`-`9`, taken as a `char`.
#[verifier::external_body]
fn sample_alphanumeric(rng: &mut ThreadRng) -> (c: char)
    ensures
        is_alphanumeric(c),
{
    char::from(rng.sample(Alphanumeric))
}

/// `String::push`: appends one character.
#[verifier::external_body]
fn push_char(s: &mut String, c: char)
    ensures
        final(s)@ == old(s)@.push(c),
{
    s.push(c)
}

/// A random code of 20 to 64 ASCII letters and digits.
pub fn generate_random_string() -> (r: String)
    ensures
        20 <= r@.len() <= 64,
        forall|i: int| 0 <= i < r@.len() ==> is_alphanumeric(#[trigger] r@[i]),
{
    let mut rng = thread_rng();
    let length = gen_range_inclusive(&mut rng, 20, 64);
    let mut code = String::new();
    let mut i: usize = 0;
    while i < length
        invariant
            i <= length <= 64,
            code@.len() == i,
            forall|j: int| 0 <= j < code@.len() ==> is_alphanumeric(#[trigger] code@[j]),
        decreases length - i,
    {
        let c = sample_alphanumeric(&mut rng);
        push_char(&mut code, c);
        i = i + 1;
    }
    code
}

/// The login link that sets up the first admin with `code`.
pub fn admin_login_link(backend_domain: &str, code: &str) -> (r: String)
    ensures
        r@ == "http://"@ + backend_domain@ + "/auth/login?admin_setup="@ + code@,
{
    join3("http://", backend_domain, "/auth/login?admin_setup=").concat(code)
}

/// How long a setup code stays valid, in seconds.
pub const SETUP_CODE_SECONDS: u64 = 300;

/// What start-up does about admins.
#[derive(Debug)]
pub enum AdminSetup {
    /// No admin exists: store `code` for `expires_in_seconds` seconds and
    /// print the link that uses it.
    IssueSetupCode { code: String, expires_in_seconds: u64 },
    /// Admins exist and this is a debug build: print the login link.
    ShowLoginLink,
    /// Admins exist: nothing to do.
    Nothing,
}

/// Decides what start-up does from the number of existing admins: without
/// any, a fresh code of 20 to 64 ASCII letters and digits, valid for five
/// minutes.
pub fn create_admin(existing_admins: usize, debug: bool) -> (r: AdminSetup)
    ensures
        existing_admins == 0 <==> r is IssueSetupCode,
        r matches AdminSetup::IssueSetupCode { code, expires_in_seconds } ==> {
            &&& 20 <= code@.len() <= 64
            &&& forall|i: int| 0 <= i < code@.len() ==> is_alphanumeric(#[trigger] code@[i])
            &&& expires_in_seconds == SETUP_CODE_SECONDS
        },
        existing_admins != 0 && debug ==> r is ShowLoginLink,
        existing_admins != 0 && !debug ==> r is Nothing,
{
    if existing_admins == 0 {
        AdminSetup::IssueSetupCode {
            code: generate_random_string(),
            expires_in_seconds: SETUP_CODE_SECONDS,
        }
    } else if debug {
        AdminSetup::ShowLoginLink
    } else {
        AdminSetup::Nothing
    }
}

} // verus!
