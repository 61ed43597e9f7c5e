//! Session lifetimes: when an access token expires, and whether a stored
//! session is still usable.
use vstd::prelude::*;

use crate::dto::user::SessionCheckInfo;
use crate::ids::{SessionId, UserId};

verus! {

/// The Unix time (seconds) at which an access token issued at `now` expires,
/// `lifetime` seconds later, as a `usize` (the `exp` claim of the token). The
/// sum is converted as Rust's `as` does.
pub fn access_token_expiry(now: i64, lifetime: i64) -> (r: usize)
    requires
        i64::MIN <= now + lifetime <= i64::MAX,
    ensures
        r == (now + lifetime) as usize,
{
    (now + lifetime) as usize
}

/// The session a refresh token leads to, if it has not expired at `now`
/// (both instants in nanoseconds since the Unix epoch): its id and its user
/// while `now` is strictly before `expires_at`, else `None`.
pub fn unexpired_session(info: SessionCheckInfo, now: i128) -> (r: Option<(SessionId, UserId)>)
    ensures
        r == (if now < info.expires_at {
            Some((info.id, info.user_id))
        } else {
            None
        }),
{
    if now < info.expires_at {
        Some((info.id, info.user_id))
    } else {
        None
    }
}

} // verus!
