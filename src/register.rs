//! Registration of a new user, with the card that pays for it.

use vstd::prelude::*;

use crate::decimal::{dec, decimal};
use crate::error::{AppError, BAD_REQUEST};
use crate::users::State;
use crate::Country;

verus! {

/// The decimal text of an integer, with a leading `-` when negative.
pub open spec fn int_text(n: int) -> Seq<char> {
    if n < 0 {
        "-"@ + dec((-n) as nat)
    } else {
        dec(n as nat)
    }
}

/// Renders `n` in decimal, with a leading `-` when negative.
pub fn i32_text(n: i32) -> (r: String)
    ensures
        r@ == int_text(n as int),
{
    if n < 0 {
        let magnitude: u64 = (-(n as i64)) as u64;
        String::from_str("-").concat(decimal(magnitude).as_str())
    } else {
        decimal(n as u64)
    }
}

/// Whether `s` starts with `prefix`.
pub fn starts_with(s: &str, prefix: &str) -> (r: bool)
    ensures
        r == (prefix@.len() <= s@.len() && s@.subrange(0, prefix@.len() as int) == prefix@),
{
    let n = prefix.unicode_len();
    if n > s.unicode_len() {
        return false;
    }
    let mut i: usize = 0;
    while i < n
        invariant
            n == prefix@.len(),
            n <= s@.len(),
            i <= n,
            s@.subrange(0, i as int) == prefix@.subrange(0, i as int),
        decreases n - i,
    {
        if s.get_char(i) != prefix.get_char(i) {
            assert(s@.subrange(0, n as int)[i as int] != prefix@[i as int]);
            return false;
        }
        assert(s@.subrange(0, i + 1) =~= s@.subrange(0, i as int).push(s@[i as int]));
        assert(prefix@.subrange(0, i + 1) =~= prefix@.subrange(0, i as int).push(prefix@[i as int]));
        i = i + 1;
    }
    assert(prefix@.subrange(0, n as int) =~= prefix@);
    true
}

/// A card token and the last four digits of its number.
#[derive(Debug, Clone)]
pub struct CreditCardInfo {
    pub token: String,
    pub last4: i32,
}

/// The token is a card token (`tok_...`) and `last4` has four characters.
pub open spec fn card_valid(token: Seq<char>, last4: i32) -> bool {
    &&& "tok_"@.len() <= token.len()
    &&& token.subrange(0, "tok_"@.len() as int) == "tok_"@
    &&& int_text(last4 as int).len() == 4
}

impl CreditCardInfo {
    /// Accepts a card token starting with `tok_` whose last four digits are
    /// written with four characters.
    pub fn validate(&self) -> (r: Result<(), AppError>)
        ensures
            r is Ok <==> card_valid(self.token@, self.last4),
            r matches Err(e) ==> e.status_spec() == BAD_REQUEST && e.message_spec()
                == "Invalid Payment Information"@,
    {
        if !starts_with(self.token.as_str(), "tok_") || i32_text(self.last4).unicode_len() != 4 {
            return Err(
                AppError::Response(String::from_str("Invalid Payment Information"), BAD_REQUEST),
            );
        }
        Ok(())
    }
}

/// What a new user submits to register.
#[derive(Debug, Clone)]
pub struct RegistrationForm {
    pub first_name: String,
    pub last_name: String,
    pub email: String,
    pub phone: String,
    pub user_name: String,
    pub state: State,
    pub country: Country,
    pub password: String,
    pub card: Option<CreditCardInfo>,
}

impl RegistrationForm {
    /// Registers the user: a card, when given, must be valid.
    pub fn register(&self) -> (r: Result<(), AppError>)
        ensures
            r is Ok <==> (self.card matches Some(c) ==> card_valid(c.token@, c.last4)),
    {
        if let Some(card) = &self.card {
            card.validate()?;
        }
        Ok(())
    }
}

} // verus!
