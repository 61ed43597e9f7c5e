//! Events of the real-time gateway protocol.
use vstd::prelude::*;

use crate::ids::{ChannelId, MessageId, UserId};

verus! {

/// A frame of the gateway protocol.
#[derive(Debug, Clone)]
pub enum GatewayEvent {
    Hello(HelloPayload),
    Heartbeat,
    HeartbeatAck,
    Identify(IdentifyPayload),
    Dispatch(DispatchPayload),
}

/// Sent on connection: how often the client must send a heartbeat.
#[derive(Debug, Clone)]
pub struct HelloPayload {
    pub heartbeat_interval: u64,
}

/// Sent by a client to authenticate with its access token.
#[derive(Debug, Clone)]
pub struct IdentifyPayload {
    pub token: String,
}

/// Events dispatched to connected clients.
#[derive(Debug, Clone)]
pub enum DispatchPayload {
    Ready(ReadyEvent),
    MessageCreate(MessageCreateEvent),
}

#[derive(Debug, Clone)]
pub struct ReadyEvent {
    pub user_id: UserId,
}

#[derive(Debug, Clone)]
pub struct MessageCreateEvent {
    pub id: MessageId,
    pub channel_id: ChannelId,
    pub author_id: UserId,
    pub content: String,
}

} // verus!
