//! Registration tokens: their claims, the registration request with its
//! validation rule, and the pure claim computations behind issuing and
//! refreshing a token.  Signing and persistence are the runtime's job.

use vstd::prelude::*;

use crate::cli::{MAX_ISSUE_TIMESTAMP, SECONDS_PER_DAY};

verus! {

/// Claims carried by a registration token.
#[derive(Clone, Debug)]
pub struct TokenClaims {
    pub id: String,
    pub repository_url: String,
    pub expiration_months: i64,
    pub exp: i64,
}

/// A token registration request: the repository and a lifetime in months.
#[derive(Clone, Debug)]
pub struct RegisterTokenDto {
    pub repository_url: String,
    pub expiration_months: u8,
}

/// Whether a requested lifetime is one the endpoint issues.
pub open spec fn exp_months_ok(months: u8) -> bool {
    months == 1 || months == 6 || months == 12
}

/// Accepts a requested lifetime only if it is one, six or twelve months.
pub fn validate_exp_months(months: u8) -> (r: bool)
    ensures
        r == exp_months_ok(months),
{
    months == 1 || months == 6 || months == 12
}

/// The expiry of a token issued at `now` for this many months, a month
/// counting as thirty days.
pub open spec fn expiry_at(now: i64, months: i64) -> int {
    now + months * 30 * SECONDS_PER_DAY
}

/// Builds the claims of a freshly issued token: the given id, the requested
/// repository and lifetime, and an expiry the lifetime past `now`.
pub fn build_token_claims(dto: &RegisterTokenDto, id: String, now: i64) -> (r: TokenClaims)
    requires
        exp_months_ok(dto.expiration_months),
        0 <= now <= MAX_ISSUE_TIMESTAMP,
    ensures
        r.id == id,
        r.repository_url@ == dto.repository_url@,
        r.expiration_months == dto.expiration_months as i64,
        r.exp == expiry_at(now, dto.expiration_months as i64),
{
    let months = dto.expiration_months as i64;
    proof {
        assert(SECONDS_PER_DAY == 86400);
        assert(months * 30 * 86400 <= 31104000);
    }
    let exp = now + months * 30 * (SECONDS_PER_DAY as i64);
    TokenClaims { id, repository_url: dto.repository_url.clone(), expiration_months: months, exp }
}

/// Builds the claims of a refreshed token: the same id, repository and
/// lifetime as the decoded claims, with the expiry restarted at `now`.
pub fn refreshed_claims(decoded: &TokenClaims, now: i64) -> (r: TokenClaims)
    requires
        1 <= decoded.expiration_months <= 12,
        0 <= now <= MAX_ISSUE_TIMESTAMP,
    ensures
        r.id == decoded.id,
        r.repository_url == decoded.repository_url,
        r.expiration_months == decoded.expiration_months,
        r.exp == expiry_at(now, decoded.expiration_months),
{
    proof {
        assert(SECONDS_PER_DAY == 86400);
        assert(decoded.expiration_months * 30 * 86400 <= 31104000);
    }
    let exp = now + decoded.expiration_months * 30 * (SECONDS_PER_DAY as i64);
    TokenClaims {
        id: decoded.id.clone(),
        repository_url: decoded.repository_url.clone(),
        expiration_months: decoded.expiration_months,
        exp,
    }
}

} // verus!
