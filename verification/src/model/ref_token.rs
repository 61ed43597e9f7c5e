use vstd::prelude::*;

use crate::ids::{RefreshTokenId, UserId};

verus! {

/// A refresh token as stored. Instants are nanoseconds since the Unix epoch,
/// UTC.
#[derive(Debug, Clone)]
pub struct RefreshToken {
    pub id: RefreshTokenId,
    pub user_id: UserId,
    pub token: String,
    pub expires_at: i128,
    pub created_at: i128,
}

} // verus!
