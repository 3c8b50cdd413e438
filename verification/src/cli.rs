//! The token tool's data and its pure computations: token durations, claim
//! building, and the completion message shown after a token is issued.
//! Prompting, signing and the server round trip are the runtime's job.

use vstd::prelude::*;

verus! {

/// Claims carried by an issued token.
#[derive(Clone, Debug)]
pub struct TokenClaims {
    pub sub: String,
    pub jti: String,
    pub exp: i64,
    pub iat: i64,
}

/// How long an issued token lives.
#[derive(Clone, Copy, Debug, PartialEq, Eq, Structural)]
pub enum TokenDuration {
    OneMonth,
    SixMonths,
    OneYear,
}

/// The lifetime of a duration choice, in days.
pub open spec fn duration_days(d: TokenDuration) -> u64 {
    match d {
        TokenDuration::OneMonth => 30,
        TokenDuration::SixMonths => 180,
        TokenDuration::OneYear => 365,
    }
}

/// The label shown for a duration choice.
pub open spec fn duration_label(d: TokenDuration) -> Seq<char> {
    match d {
        TokenDuration::OneMonth => "1 mes"@,
        TokenDuration::SixMonths => "6 meses"@,
        TokenDuration::OneYear => "1 año"@,
    }
}

impl TokenDuration {
    /// The lifetime of this choice, in days.
    pub fn duration(&self) -> (r: u64)
        ensures
            r == duration_days(*self),
    {
        match self {
            TokenDuration::OneMonth => 30,
            TokenDuration::SixMonths => 180,
            TokenDuration::OneYear => 365,
        }
    }

    /// The label shown for this choice.
    pub fn label(&self) -> (r: &'static str)
        ensures
            r@ == duration_label(*self),
    {
        match self {
            TokenDuration::OneMonth => "1 mes",
            TokenDuration::SixMonths => "6 meses",
            TokenDuration::OneYear => "1 año",
        }
    }
}

pub const SECONDS_PER_DAY: u64 = 86400;

/// The latest issue time for which an expiry still fits a signed 64-bit
/// timestamp, whatever the duration.
pub const MAX_ISSUE_TIMESTAMP: i64 = 0x7fff_ffff_ffff_ffff - 365 * 86400;

/// Builds the claims of a token for a repository: subject, unique id, issue
/// time, and an expiry the chosen duration past the issue time.
pub fn build_claims(repository_url: &str, duration: TokenDuration, jti: String, now: i64) -> (r:
    TokenClaims)
    requires
        0 <= now <= MAX_ISSUE_TIMESTAMP,
    ensures
        r.sub@ == repository_url@,
        r.jti == jti,
        r.iat == now,
        r.exp == now + duration_days(duration) * SECONDS_PER_DAY,
{
    let days = duration.duration();
    let exp = now + (days * SECONDS_PER_DAY) as i64;
    TokenClaims { sub: repository_url.to_owned(), jti, exp, iat: now }
}

/// The message shown when a token has been issued and registered.
pub open spec fn token_info_text(
    token: Seq<char>,
    repository_url: Seq<char>,
    duration: TokenDuration,
) -> Seq<char> {
    "✅ Proceso completado!\n\n📦 Repositorio: "@ + repository_url
        + "\n⏱️  Duración: "@ + duration_label(duration) + "\n🔑 Token:\n\n"@ + token
}

/// Formats the completion message for an issued token.
pub fn format_token_info(token: &str, repository_url: &str, duration: TokenDuration) -> (r: String)
    ensures
        r@ == token_info_text(token@, repository_url@, duration),
{
    let r = String::from_str("✅ Proceso completado!\n\n📦 Repositorio: ").concat(
        repository_url,
    ).concat("\n⏱️  Duración: ").concat(duration.label()).concat("\n🔑 Token:\n\n").concat(
        token,
    );
    proof {
        assert(r@ =~= token_info_text(token@, repository_url@, duration));
    }
    r
}

/// The repository a token is being generated for.
#[derive(Clone, Debug)]
pub struct RepositoryInput {
    pub url: String,
}

/// A duration offered by the interactive prompt.
#[derive(Clone, Copy, Debug)]
pub enum DurationOption {
    OneMonth,
    SixMonths,
    OneYear,
}

/// The token duration a prompt choice stands for.
pub fn token_duration_of(option: DurationOption) -> (r: TokenDuration)
    ensures
        option is OneMonth ==> r == TokenDuration::OneMonth,
        option is SixMonths ==> r == TokenDuration::SixMonths,
        option is OneYear ==> r == TokenDuration::OneYear,
{
    match option {
        DurationOption::OneMonth => TokenDuration::OneMonth,
        DurationOption::SixMonths => TokenDuration::SixMonths,
        DurationOption::OneYear => TokenDuration::OneYear,
    }
}

/// What the interactive tool can do.
#[derive(Clone, Copy, Debug)]
pub enum MainMenuOption {
    Generate,
    Refresh,
}

/// A token lifetime as the registration endpoint names it.
#[derive(Clone, Debug)]
pub enum DurationMonths {
    One,
    Six,
    Twelve,
}

/// A token registration sent to the server.
#[derive(Clone, Debug)]
pub struct RegisterTokenRequest {
    pub repository_url: String,
    pub expiration_months: DurationMonths,
}

/// A token as the server returns it.
#[derive(Clone, Debug)]
pub struct TokenData {
    pub data: String,
}

} // verus!
