//! Sign-in with a user name and a password.

use vstd::prelude::*;

use crate::error::AppError;

verus! {

/// Status code for failed authentication.
pub const UNAUTHORIZED: u16 = 401;

/// Whether `password` matches the bcrypt hash `hash`; false for a hash that
/// cannot be read.
pub uninterp spec fn bcrypt_verified(password: Seq<char>, hash: Seq<char>) -> bool;

/// Relies on `bcrypt::verify`: recomputes the hash of `password` with the
/// cost and salt read from `hash` and compares; an unreadable hash counts as
/// no match.
#[verifier::external_body]
fn verify_password(password: &str, hash: &str) -> (r: bool)
    ensures
        r == bcrypt_verified(password@, hash@),
{
    bcrypt::verify(password, hash).unwrap_or(false)
}

/// Credentials submitted to sign in.
#[derive(Debug)]
pub struct Login {
    pub user_name: String,
    pub password: String,
}

impl Login {
    /// The answer to a sign-in whose password did or did not match.
    pub fn password_outcome(matched: bool) -> (r: Result<(), AppError>)
        ensures
            r is Ok <==> matched,
            r matches Err(e) ==> e.status_spec() == UNAUTHORIZED && e.message_spec()
                == "Invalid username or password"@,
    {
        if matched {
            Ok(())
        } else {
            Err(AppError::Response(String::from_str("Invalid username or password"), UNAUTHORIZED))
        }
    }

    /// Checks the submitted password against the user's stored hash.
    pub fn check_password(&self, stored_hash: &str) -> (r: Result<(), AppError>)
        ensures
            r is Ok <==> bcrypt_verified(self.password@, stored_hash@),
            r matches Err(e) ==> e.status_spec() == UNAUTHORIZED && e.message_spec()
                == "Invalid username or password"@,
    {
        Self::password_outcome(verify_password(self.password.as_str(), stored_hash))
    }
}

} // verus!
