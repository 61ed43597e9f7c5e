use vstd::prelude::*;

use crate::ids::{ChannelId, ServerId, UserId};
use crate::model::channel::ChannelType;

verus! {

/// A server (a community of channels) as stored. `created_at` is in
/// nanoseconds since the Unix epoch, UTC.
#[derive(Debug, Clone)]
pub struct Server {
    pub id: ServerId,
    pub name: String,
    pub owner_id: UserId,
    pub icon_url: String,
    pub created_at: i128,
}

/// A user's membership of a server. `joined_at` is in nanoseconds since the
/// Unix epoch, UTC.
#[derive(Debug, Clone, Copy)]
pub struct ServerMember {
    pub server_id: ServerId,
    pub user_id: UserId,
    pub joined_at: i128,
}

/// A channel of a server, as the server listing stores it. The kind is the
/// field `channel_type`; `created_at` is in nanoseconds since the Unix epoch,
/// UTC.
#[derive(Debug, Clone)]
pub struct Channel {
    pub id: ChannelId,
    pub server_id: ServerId,
    pub name: String,
    pub channel_type: ChannelType,
    pub position: u16,
    pub created_at: i128,
}

} // verus!
