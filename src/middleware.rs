//! Claims of a signed-in user and their expiry.

use vstd::prelude::*;

use crate::register::starts_with;

verus! {

/// Whether `p` is a prefix of `s`.
pub open spec fn is_prefix(p: Seq<char>, s: Seq<char>) -> bool {
    p.len() <= s.len() && s.subrange(0, p.len() as int) == p
}

/// Gate of requests on a signed-in session.
pub struct Middleware;

impl Middleware {
    /// Whether a request for `path` needs no session: the path is a prefix of
    /// one of the public paths `/` and `/authorization`.
    pub fn is_public_path(path: &str) -> (r: bool)
        ensures
            r == (is_prefix(path@, "/"@) || is_prefix(path@, "/authorization"@)),
    {
        starts_with("/", path) || starts_with("/authorization", path)
    }
}

/// Seconds a sign-in stays valid.
pub const LOGIN_VALIDITY_SECS: i64 = 86400;

/// Relies on `chrono::Utc::now` and `DateTime::timestamp`: the current time
/// in seconds since the Unix epoch. Nothing is known of its value.
#[verifier::external_body]
pub(crate) fn now_timestamp() -> (r: i64) {
    chrono::Utc::now().timestamp()
}

/// `now + secs`, or `i64::MAX` where that does not fit.
pub open spec fn expiry(now: i64, secs: i64) -> i64 {
    if now > i64::MAX - secs {
        i64::MAX
    } else {
        (now + secs) as i64
    }
}

/// `now + secs`, or `i64::MAX` where that does not fit.
pub fn expiry_after(now: i64, secs: i64) -> (r: i64)
    requires
        secs >= 0,
    ensures
        r == expiry(now, secs),
{
    if now > i64::MAX - secs {
        i64::MAX
    } else {
        now + secs
    }
}

/// What a sign-in token carries.
#[derive(Debug)]
pub struct UserClaim {
    pub first_name: String,
    pub last_name: String,
    pub email: String,
    pub photo: Option<String>,
    pub exp: i64,
}

impl UserClaim {
    /// Claims issued at `now`, expiring a day later.
    pub fn issued_at(
        first_name: String,
        last_name: String,
        email: String,
        photo: Option<String>,
        now: i64,
    ) -> (r: Self)
        ensures
            r.first_name == first_name,
            r.last_name == last_name,
            r.email == email,
            r.photo == photo,
            r.exp == expiry(now, LOGIN_VALIDITY_SECS),
    {
        UserClaim { first_name, last_name, email, photo, exp: expiry_after(now, LOGIN_VALIDITY_SECS) }
    }

    /// Claims issued now, expiring a day later.
    pub fn new(first_name: String, last_name: String, email: String, photo: Option<String>) -> (r:
        Self)
        ensures
            r.first_name == first_name,
            r.last_name == last_name,
            r.email == email,
            r.photo == photo,
            exists|now: i64| r.exp == expiry(now, LOGIN_VALIDITY_SECS),
    {
        let now = now_timestamp();
        Self::issued_at(first_name, last_name, email, photo, now)
    }
}

} // verus!
