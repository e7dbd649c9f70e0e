//! Password reset through an e-mailed token.

use vstd::prelude::*;

use crate::error::{AppError, BAD_REQUEST};

verus! {

/// What a password-reset token carries.
#[derive(Debug)]
pub struct ResetPasswordPayload {
    pub id: i32,
    pub user_name: String,
}

/// A password reset request: the token and the new password, twice.
#[derive(Debug)]
pub struct ResetPassword {
    pub token: String,
    pub new_password: String,
    pub re_type_password: String,
}

/// Shortest accepted password.
pub const MIN_PASSWORD: usize = 8;
/// Longest accepted password.
pub const MAX_PASSWORD: usize = 64;

impl ResetPassword {
    /// Accepts a new password of 8 to 64 characters typed the same twice.
    pub fn validate(&self) -> (r: Result<(), AppError>)
        ensures
            r is Ok <==> (MIN_PASSWORD <= self.new_password@.len() <= MAX_PASSWORD
                && self.re_type_password@ == self.new_password@),
            r matches Err(e) ==> e.status_spec() == BAD_REQUEST,
    {
        let n = self.new_password.as_str().unicode_len();
        if n < MIN_PASSWORD || n > MAX_PASSWORD {
            return Err(
                AppError::Response(
                    String::from_str("Password must be between 8 and 64 characters"),
                    BAD_REQUEST,
                ),
            );
        }
        if self.re_type_password != self.new_password {
            return Err(AppError::Response(String::from_str("Passwords do not match"), BAD_REQUEST));
        }
        Ok(())
    }

    /// The answer once the stored password was updated on `rows_affected`
    /// rows: exactly one user must have been changed.
    pub fn update_outcome(rows_affected: u64) -> (r: Result<(), AppError>)
        ensures
            r is Ok <==> rows_affected == 1,
            r matches Err(e) ==> e.status_spec() == BAD_REQUEST && e.message_spec()
                == "Invalid Token"@,
    {
        if rows_affected == 1 {
            Ok(())
        } else {
            Err(AppError::Response(String::from_str("Invalid Token"), BAD_REQUEST))
        }
    }
}

} // verus!
