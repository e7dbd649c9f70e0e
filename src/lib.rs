//! Structured filter / order / pagination engine for list endpoints, with the
//! small domain types that the endpoints around it share.

pub mod ama;
pub mod decimal;
pub mod error;
pub mod forget_password;
pub mod login;
pub mod middleware;
pub mod query_laws;
pub mod query_param;
pub mod queue;
pub mod register;
pub mod reset_password;
pub mod response;
pub mod sendgrid;
pub mod sql;
pub mod stripe;
pub mod users;

use vstd::prelude::*;

verus! {

/// Country a user or a payment belongs to.
#[derive(Debug, Clone, Copy, PartialEq, Eq, Structural, Hash)]
pub enum Country {
    CA,
    US,
}

/// Lifecycle status of a configuration record.
#[derive(Debug, Clone, Copy, PartialEq, Eq, Structural)]
pub enum Status {
    Active,
    Inactive,
}

} // verus!
