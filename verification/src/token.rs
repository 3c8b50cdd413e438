//! The token registration endpoint's data: the request body and the claims
//! a registered token carries.

use vstd::prelude::*;

verus! {

/// Claims of a registration token: its id, the repository it covers, its
/// lifetime in months, and its expiry as Unix seconds.
#[derive(Clone, Debug)]
pub struct Claims {
    pub id: String,
    pub repository_url: String,
    pub expiration_months: i64,
    pub exp: i64,
}

/// A token lifetime in months as the endpoint accepts it.
#[derive(Clone, Debug)]
pub enum DurationMonths {
    One,
    Six,
    Twelve,
}

/// The number of months a lifetime choice stands for.
pub open spec fn months_of(d: DurationMonths) -> i64 {
    match d {
        DurationMonths::One => 1,
        DurationMonths::Six => 6,
        DurationMonths::Twelve => 12,
    }
}

impl DurationMonths {
    /// The number of months this choice stands for.
    pub fn months(&self) -> (r: i64)
        ensures
            r == months_of(*self),
    {
        match self {
            DurationMonths::One => 1,
            DurationMonths::Six => 6,
            DurationMonths::Twelve => 12,
        }
    }
}

/// A token registration request.
#[derive(Clone, Debug)]
pub struct RegisterTokenDto {
    pub repository_url: String,
    pub expiration_months: DurationMonths,
}

} // verus!
