//! Card payments: the records exchanged with the payment provider and the
//! currency each country is charged in.

use vstd::prelude::*;

use crate::Country;

verus! {

/// A charge as the provider reports it.
#[derive(Debug)]
pub struct Charge {
    pub id: String,
    pub status: String,
}

/// The error record the provider answers with.
#[derive(Debug)]
pub struct ErrorResponse {
    pub message: String,
}

/// Currency of a charge.
#[derive(Debug, Clone, Copy, PartialEq, Eq, Structural)]
pub enum Currency {
    USD,
    CAD,
}

impl Currency {
    pub open spec fn code_spec(&self) -> Seq<char> {
        match self {
            Currency::USD => "USD"@,
            Currency::CAD => "CAD"@,
        }
    }

    /// The currency code.
    pub fn code(&self) -> (r: &'static str)
        ensures
            r@ == self.code_spec(),
    {
        match self {
            Currency::USD => "USD",
            Currency::CAD => "CAD",
        }
    }

    /// The currency users of `country` are charged in.
    pub fn of_country(country: Country) -> (r: Currency)
        ensures
            country == Country::CA ==> r == Currency::CAD,
            country == Country::US ==> r == Currency::USD,
    {
        match country {
            Country::CA => Currency::CAD,
            Country::US => Currency::USD,
        }
    }

    /// Name of the environment variable holding the provider's secret key
    /// for `country`.
    pub fn secret_key_var(country: Country) -> (r: &'static str)
        ensures
            country == Country::CA ==> r@ == "STRIPE_SECRET_KEY_CA"@,
            country == Country::US ==> r@ == "STRIPE_SECRET_KEY_US"@,
    {
        match country {
            Country::CA => "STRIPE_SECRET_KEY_CA",
            Country::US => "STRIPE_SECRET_KEY_US",
        }
    }
}

} // verus!
