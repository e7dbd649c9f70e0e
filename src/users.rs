//! Enumerations describing users.

use vstd::prelude::*;

verus! {

#[derive(Debug, Clone, Copy, PartialEq, Eq, Structural, Hash)]
pub enum UserType {
    Admin,
    Associate,
}

#[derive(Debug, Clone, Copy, PartialEq, Eq, Structural)]
pub enum MartialStatus {
    Married,
    Single,
    Divorced,
    Widow,
}

#[derive(Debug, Clone, Copy, PartialEq, Eq, Structural)]
pub enum Gender {
    Male,
    Female,
    Unknown,
}

#[derive(Debug, Clone, Copy, PartialEq, Eq, Structural)]
pub enum UserStatus {
    /// Default level of every user.
    Active,
    Resigned,
    Terminated,
    Inactive,
}

impl UserStatus {
    /// Whether the user is active.
    pub fn is_active(&self) -> (r: bool)
        ensures
            r == (*self == UserStatus::Active),
    {
        *self == UserStatus::Active
    }
}

/// US states and Canadian provinces.
#[derive(Debug, Clone, Copy, PartialEq, Eq, Structural)]
pub enum State {
    AL,
    AK,
    AZ,
    AR,
    CA,
    CO,
    CT,
    DE,
    DC,
    FL,
    GA,
    HI,
    ID,
    IL,
    IN,
    IA,
    KS,
    KY,
    LA,
    ME,
    MT,
    NE,
    NV,
    NH,
    NJ,
    NM,
    NY,
    NC,
    ND,
    OH,
    OK,
    OR,
    MD,
    MA,
    MI,
    MN,
    MS,
    MO,
    PA,
    RI,
    SC,
    SD,
    TN,
    TX,
    UT,
    VT,
    VA,
    WA,
    WV,
    WI,
    WY,
    AB,
    BC,
    MB,
    NB,
    NL,
    NT,
    NS,
    NU,
    PE,
    ON,
    QC,
    SK,
    YT,
}

} // verus!
