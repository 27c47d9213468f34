//! The email-format check, done by the `validator` crate.
use validator::ValidateEmail;
use vstd::prelude::*;

verus! {

/// Whether `validator` accepts `s` as an email address.
pub uninterp spec fn email_ok(s: Seq<char>) -> bool;

/// Relies on `validator::ValidateEmail::validate_email` (impl for `&str`):
/// its verdict depends on the text alone, and it refuses any text without `@`.
#[verifier::external_body]
pub(crate) fn validate_email(email: &str) -> (r: bool)
    ensures
        r == email_ok(email@),
        !email@.contains('@') ==> !r,
{
    email.validate_email()
}

} // verus!
