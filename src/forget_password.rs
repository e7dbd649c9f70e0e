//! Request of a password-reset link.

use vstd::prelude::*;

use crate::error::{AppError, CONFLICT};
use crate::middleware::{expiry, expiry_after, now_timestamp};

verus! {

/// Seconds a password-reset link stays valid.
pub const RESET_VALIDITY_SECS: i64 = 600;

/// What a password-reset token carries.
#[derive(Debug)]
pub struct ForgotEmailPayload {
    pub user_name: String,
    pub exp: i64,
}

/// A request for a password-reset link.
#[derive(Debug)]
pub struct ForgetPassword {
    pub email: String,
}

impl ForgotEmailPayload {
    /// The payload for `user_name` issued at `now`, expiring ten minutes later.
    pub fn issued_at(user_name: String, now: i64) -> (r: Self)
        ensures
            r.user_name == user_name,
            r.exp == expiry(now, RESET_VALIDITY_SECS),
    {
        ForgotEmailPayload { user_name, exp: expiry_after(now, RESET_VALIDITY_SECS) }
    }

    /// The payload for `user_name` issued now, expiring ten minutes later.
    pub fn new(user_name: String) -> (r: Self)
        ensures
            r.user_name == user_name,
            exists|now: i64| r.exp == expiry(now, RESET_VALIDITY_SECS),
    {
        Self::issued_at(user_name, now_timestamp())
    }
}

impl ForgetPassword {
    /// The error for an address that no user has.
    pub fn unknown_email() -> (r: AppError)
        ensures
            r.status_spec() == CONFLICT,
            r.message_spec() == "User with this email does not exist."@,
    {
        AppError::Response(String::from_str("User with this email does not exist."), CONFLICT)
    }
}

} // verus!
