//! Errors of the library, with the HTTP status each one answers with.

use vstd::prelude::*;

use crate::register::starts_with;

verus! {

/// Status code for a request that the client got wrong.
pub const BAD_REQUEST: u16 = 400;
/// Status code for a missing record.
pub const NOT_FOUND: u16 = 404;
/// Status code for a conflict with the current state.
pub const CONFLICT: u16 = 409;
/// Status code for a failure on the server's side.
pub const INTERNAL_SERVER_ERROR: u16 = 500;

/// Error of every fallible operation of the library. Status codes are plain
/// HTTP numbers; errors of collaborators (environment, database, JSON) are
/// carried as their message.
#[derive(Debug, Clone, PartialEq, Eq)]
#[non_exhaustive]
pub enum AppError {
    Response(String, u16),
    ResponseWithCause(String, u16, String),
    NotFound(String),
    EnvVarError(String),
    MessageWithCause(String, String),
    Message(String),
    DbError(String),
    JsonParsingError(String),
}

impl AppError {
    /// The HTTP status this error is answered with.
    pub open spec fn status_spec(&self) -> u16 {
        match self {
            AppError::NotFound(_) => NOT_FOUND,
            AppError::Response(_, code) => *code,
            AppError::ResponseWithCause(_, code, _) => *code,
            _ => INTERNAL_SERVER_ERROR,
        }
    }

    /// The text the error displays.
    pub open spec fn message_spec(&self) -> Seq<char> {
        match self {
            AppError::Response(m, _) => m@,
            AppError::ResponseWithCause(m, _, _) => m@,
            AppError::NotFound(m) => m@ + " Not Found"@,
            AppError::EnvVarError(m) => "Env Var Error "@ + m@,
            AppError::MessageWithCause(m, _) => m@,
            AppError::Message(m) => m@,
            AppError::DbError(m) => m@,
            AppError::JsonParsingError(m) => m@,
        }
    }

    /// The HTTP status this error is answered with.
    pub fn status_code(&self) -> (r: u16)
        ensures
            r == self.status_spec(),
    {
        match self {
            AppError::NotFound(_) => NOT_FOUND,
            AppError::Response(_, code) => *code,
            AppError::ResponseWithCause(_, code, _) => *code,
            _ => INTERNAL_SERVER_ERROR,
        }
    }

    /// The text the error displays.
    pub fn message(&self) -> (r: String)
        ensures
            r@ == self.message_spec(),
    {
        match self {
            AppError::Response(m, _) => m.clone(),
            AppError::ResponseWithCause(m, _, _) => m.clone(),
            AppError::NotFound(m) => m.clone().concat(" Not Found"),
            AppError::EnvVarError(m) => String::from_str("Env Var Error ").concat(m.as_str()),
            AppError::MessageWithCause(m, _) => m.clone(),
            AppError::Message(m) => m.clone(),
            AppError::DbError(m) => m.clone(),
            AppError::JsonParsingError(m) => m.clone(),
        }
    }
}

/// `s` with every occurrence of `pat` removed, scanning left to right.
pub open spec fn without(s: Seq<char>, pat: Seq<char>) -> Seq<char>
    decreases s.len(),
{
    if pat.len() == 0 || s.len() < pat.len() {
        s
    } else if s.subrange(0, pat.len() as int) == pat {
        without(s.subrange(pat.len() as int, s.len() as int), pat)
    } else {
        seq![s[0]] + without(s.subrange(1, s.len() as int), pat)
    }
}

/// The part of `s` before the first occurrence of `pat`, or all of `s`.
pub open spec fn before(s: Seq<char>, pat: Seq<char>) -> Seq<char>
    decreases s.len(),
{
    if pat.len() == 0 || s.len() < pat.len() {
        s
    } else if s.subrange(0, pat.len() as int) == pat {
        Seq::empty()
    } else {
        seq![s[0]] + before(s.subrange(1, s.len() as int), pat)
    }
}

/// `s` with every occurrence of `pat` removed.
pub fn remove_all(s: &str, pat: &str) -> (r: String)
    ensures
        r@ == without(s@, pat@),
    decreases s@.len(),
{
    let n = s.unicode_len();
    let m = pat.unicode_len();
    if m == 0 || n < m {
        String::from_str(s)
    } else if starts_with(s, pat) {
        remove_all(s.substring_char(m, n), pat)
    } else {
        let rest = remove_all(s.substring_char(1, n), pat);
        let head = s.substring_char(0, 1);
        assert(head@ =~= seq![s@[0]]);
        String::from_str(head).concat(rest.as_str())
    }
}

/// The part of `s` before the first occurrence of `pat`, or all of `s`.
pub fn text_before(s: &str, pat: &str) -> (r: String)
    ensures
        r@ == before(s@, pat@),
    decreases s@.len(),
{
    let n = s.unicode_len();
    let m = pat.unicode_len();
    if m == 0 || n < m {
        String::from_str(s)
    } else if starts_with(s, pat) {
        String::new()
    } else {
        let rest = text_before(s.substring_char(1, n), pat);
        let head = s.substring_char(0, 1);
        assert(head@ =~= seq![s@[0]]);
        String::from_str(head).concat(rest.as_str())
    }
}

/// The message shown for a request body that is not valid JSON: the
/// decoder's message without the `Json deserialize error: ` marker and
/// without the position that follows `at line `.
pub fn json_error_message(raw: &str) -> (r: String)
    ensures
        r@ == before(without(raw@, "Json deserialize error: "@), "at line "@),
{
    let cleaned = remove_all(raw, "Json deserialize error: ");
    text_before(cleaned.as_str(), "at line ")
}

/// The error answered for a request body that is not valid JSON.
pub fn json_error(raw: Option<&str>) -> (r: AppError)
    ensures
        r.status_spec() == CONFLICT,
        raw matches Some(m) ==> r.message_spec() == before(
            without(m@, "Json deserialize error: "@),
            "at line "@,
        ),
        raw is None ==> r.message_spec().len() == 0,
{
    let message = match raw {
        Some(m) => json_error_message(m),
        None => String::new(),
    };
    AppError::Response(message, CONFLICT)
}

} // verus!
