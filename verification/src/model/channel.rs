use vstd::prelude::*;

use crate::ids::{ChannelId, ServerId};

verus! {

/// Kind of a channel.
#[derive(Debug, Clone, Copy, PartialEq, Eq)]
pub enum ChannelType {
    TEXT,
    VOICE,
}

/// A channel as stored. The kind is the field `channel_type`; `created_at` is
/// in nanoseconds since the Unix epoch, UTC.
#[derive(Debug, Clone)]
pub struct Channel {
    pub id: ChannelId,
    pub server_id: ServerId,
    pub name: String,
    pub channel_type: ChannelType,
    pub position: u16,
    pub topic: String,
    pub created_at: i128,
}

} // verus!
