//! Access-token lifetimes and the signed claims that identify a creator.

use vstd::prelude::*;
use crate::error::{AppError, ErrorView};
use crate::ids::{parse_uuid, spec_parse_uuid, uuid_text, uuid_to_string};

verus! {

/// Lifetime of an access token (the `tc_token` cookie), in seconds.
pub const ACCESS_TOKEN_TTL_SECS: u64 = 604800;

/// Lifetime of a refresh token (the `tc_refresh` cookie and its session), in seconds.
pub const REFRESH_TOKEN_TTL_SECS: u64 = 2592000;

/// How long a token made by `create_token` stays valid: seven days, in seconds.
pub const TOKEN_LIFETIME_SECS: i64 = 604800;

/// Largest Unix timestamp a `chrono::DateTime<Utc>` can hold.
pub const MAX_UTC_TIMESTAMP: i64 = 8210266876799;

/// The claims signed into a token: the creator id as text, and the expiry
/// as a Unix timestamp.
pub struct Claims {
    pub sub: String,
    pub exp: usize,
}

/// Expiry of a token issued at `now` (a Unix timestamp): seven days later.
/// The sum is taken in `i64` and converted to `usize` as `as` does.
pub open spec fn expiry_spec(now: i64) -> usize {
    (now + TOKEN_LIFETIME_SECS) as usize
}

/// Expiry stamped on a token issued at `now`. `requires`: the later instant
/// must still be a valid `chrono` date.
pub fn token_expiry(now: i64) -> (r: usize)
    requires
        now <= MAX_UTC_TIMESTAMP - TOKEN_LIFETIME_SECS,
    ensures
        r == expiry_spec(now),
{
    let later: i64 = now + TOKEN_LIFETIME_SECS;
    #[verifier::truncate]
    (later as usize)
}

/// The claims of a token for `creator_id` issued at `now`.
pub fn claims_for(creator_id: u128, now: i64) -> (c: Claims)
    requires
        now <= MAX_UTC_TIMESTAMP - TOKEN_LIFETIME_SECS,
    ensures
        c.sub@ == uuid_text(creator_id),
        creator_of(Some(c.sub@)) == Some(creator_id),
        c.exp == expiry_spec(now),
{
    Claims { sub: uuid_to_string(creator_id), exp: token_expiry(now) }
}

/// The creator a token names, when its signature and expiry were accepted
/// (`Some`) and its subject is a UUID.
pub open spec fn creator_of(claims: Option<Seq<char>>) -> Option<u128> {
    match claims {
        Some(sub) => spec_parse_uuid(sub),
        None => None,
    }
}

/// The creator named by verified claims; anything else is `Unauthorized`.
pub fn creator_from_claims(claims: Option<&Claims>) -> (r: Result<u128, AppError>)
    ensures
        match claims {
            Some(c) => match spec_parse_uuid(c.sub@) {
                Some(id) => r == Ok::<u128, AppError>(id),
                None => r is Err && r->Err_0@ == ErrorView::Unauthorized,
            },
            None => r is Err && r->Err_0@ == ErrorView::Unauthorized,
        },
{
    match claims {
        Some(c) => match parse_uuid(c.sub.as_str()) {
            Some(id) => Ok(id),
            None => Err(AppError::Unauthorized),
        },
        None => Err(AppError::Unauthorized),
    }
}

} // verus!
