use vstd::prelude::*;

use crate::ids::{ServerId, UserId};

verus! {

/// The part of a server shown in a user's server list.
#[derive(Debug, Clone)]
pub struct ServerSmallPart {
    pub id: ServerId,
    pub name: String,
    pub icon_url: String,
}

/// A server as shown to clients. `created_at` is in nanoseconds since the
/// Unix epoch, UTC.
#[derive(Debug, Clone)]
pub struct Server {
    pub id: ServerId,
    pub owner_id: UserId,
    pub name: String,
    pub description: String,
    pub icon_url: String,
    pub cover: String,
    pub is_public: bool,
    pub members_count: u32,
    pub created_at: i128,
}

/// What a client sends to create a server.
#[derive(Debug, Clone)]
pub struct ServerCreateInfo {
    pub name: String,
    pub is_public: bool,
}

/// Filters of a server listing.
#[derive(Debug, Clone)]
pub struct ServerFilters {
    pub role: Option<String>,
}

/// A user joining a server.
#[derive(Debug, Clone)]
pub struct JoinInfo {
    pub server_id: ServerId,
    pub user_id: UserId,
}

/// A member of a server as listed to clients.
#[derive(Debug, Clone)]
pub struct MemberView {
    pub user_id: UserId,
    pub username: String,
    pub avatar: String,
}

} // verus!
