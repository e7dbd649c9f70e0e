//! Plain answers of request handlers.

use vstd::prelude::*;

use crate::error::AppError;

verus! {

pub struct Response;

impl Response {
    /// The body of an answer that only acknowledges.
    pub fn ok<'a>() -> (r: Result<&'a str, AppError>)
        ensures
            r matches Ok(s) && s@ == "Ok"@,
    {
        Ok("Ok")
    }
}

} // verus!
