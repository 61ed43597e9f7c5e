use vstd::prelude::*;

use crate::ids::{ServerId, UserId};

verus! {

/// A user's membership of a server. `joined_at` is in nanoseconds since the
/// Unix epoch, UTC.
#[derive(Debug, Clone, Copy)]
pub struct ServerMember {
    pub server_id: ServerId,
    pub user_id: UserId,
    pub joined_at: i128,
}

} // verus!
