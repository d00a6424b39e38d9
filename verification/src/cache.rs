//! Decisions of the Redis layer: rate-limit keys and limits, when a counter
//! gets its expiry, and when a key scan is finished.

use vstd::prelude::*;
use vstd::string::*;
use crate::error::{AppError, ErrorView};
use crate::text::str_eq;

verus! {

/// Redirects one client may make per window.
pub const REDIRECT_RATE_LIMIT_MAX: u64 = 5;

/// Postbacks one client may send per window.
pub const POSTBACK_RATE_LIMIT_MAX: u64 = 30;

/// Length of a rate-limit window, in seconds.
pub const RATE_LIMIT_WINDOW_SECS: u64 = 60;

/// Key of the counter of `ip` on the endpoint `scope`.
pub open spec fn rate_limit_key_spec(scope: Seq<char>, ip: Seq<char>) -> Seq<char> {
    "ratelimit:"@ + scope + ":"@ + ip
}

/// Key of the request counter of a client on an endpoint (`redirect`, `postback`).
pub fn rate_limit_key(scope: &str, ip: &str) -> (r: String)
    ensures
        r@ == rate_limit_key_spec(scope@, ip@),
{
    let mut r = String::from_str("ratelimit:");
    r.append(scope);
    r.append(":");
    r.append(ip);
    r
}

/// A request is refused once the client's counter in the window exceeds
/// the endpoint's limit `max`.
pub fn check_rate_limit(count: u64, max: u64) -> (r: Result<(), AppError>)
    ensures
        count <= max ==> r is Ok,
        count > max ==> r is Err && r->Err_0@ == ErrorView::RateLimited,
{
    if count > max {
        Err(AppError::RateLimited)
    } else {
        Ok(())
    }
}

/// Within one window, the first five redirects of a client pass the limit
/// and every later one is refused.
pub proof fn lemma_redirect_rate_limit(count: u64)
    ensures
        1 <= count <= 5 ==> count <= REDIRECT_RATE_LIMIT_MAX,
        count >= 6 ==> count > REDIRECT_RATE_LIMIT_MAX,
{
}

/// Within one window, the first thirty postbacks of a client pass the limit
/// and every later one is refused.
pub proof fn lemma_postback_rate_limit(count: u64)
    ensures
        1 <= count <= 30 ==> count <= POSTBACK_RATE_LIMIT_MAX,
        count >= 31 ==> count > POSTBACK_RATE_LIMIT_MAX,
{
}

/// A counter gets its expiry when it is created, that is on its first increment.
pub fn counter_needs_expiry(count: i64) -> (r: bool)
    ensures
        r == (count == 1),
{
    count == 1
}

/// The count an increment reports, converted as `as u64` does.
pub fn counter_value(count: i64) -> (r: u64)
    ensures
        r == count as u64,
{
    #[verifier::truncate]
    (count as u64)
}

/// A `SCAN` is finished when the server hands back the cursor `0`.
pub fn scan_finished(cursor: &str) -> (r: bool)
    ensures
        r == (cursor@ == "0"@),
{
    str_eq(cursor, "0")
}

/// Redis list that buffers click events until they are flushed.
pub fn click_buffer_key() -> (r: &'static str)
    ensures
        r@ == "click:pending"@,
{
    "click:pending"
}

} // verus!
