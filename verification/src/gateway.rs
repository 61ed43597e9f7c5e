//! Decisions of the real-time gateway on each frame a client sends; the
//! connection itself (sockets, broadcasting, token checks) is run by the caller.
use vstd::prelude::*;

use crate::event::{DispatchPayload, GatewayEvent};

verus! {

/// What the gateway does in answer to a client frame.
#[derive(Debug, Clone)]
pub enum GatewayAction {
    /// Send this event to every connected client.
    Broadcast(DispatchPayload),
    /// Answer the sending client with this frame.
    Reply(GatewayEvent),
    /// Check this access token and log the user in on success.
    Authenticate(String),
    /// Nothing to do.
    Ignore,
}

/// The action for each frame: a new message is broadcast, a heartbeat is
/// acknowledged, an identification starts a token check, and every other frame
/// (hello, acknowledgements, other dispatches) is ignored.
pub open spec fn gateway_action(event: GatewayEvent) -> GatewayAction {
    match event {
        GatewayEvent::Dispatch(DispatchPayload::MessageCreate(m)) => GatewayAction::Broadcast(
            DispatchPayload::MessageCreate(m),
        ),
        GatewayEvent::Heartbeat => GatewayAction::Reply(GatewayEvent::HeartbeatAck),
        GatewayEvent::Identify(p) => GatewayAction::Authenticate(p.token),
        _ => GatewayAction::Ignore,
    }
}

/// Decides what to do with a frame received from a client.
pub fn handle_event(event: GatewayEvent) -> (a: GatewayAction)
    ensures
        a == gateway_action(event),
{
    match event {
        GatewayEvent::Dispatch(DispatchPayload::MessageCreate(m)) => GatewayAction::Broadcast(
            DispatchPayload::MessageCreate(m),
        ),
        GatewayEvent::Heartbeat => GatewayAction::Reply(GatewayEvent::HeartbeatAck),
        GatewayEvent::Identify(p) => GatewayAction::Authenticate(p.token),
        _ => GatewayAction::Ignore,
    }
}

/// What the gateway answers to each kind of frame: a new message is broadcast
/// to everyone exactly as it was received (same id, channel, author and
/// text), a heartbeat is answered with its acknowledgement, an identification
/// is checked with the very token it carries, and every other frame (hello,
/// acknowledgement, a dispatch other than a new message) is left unanswered.
pub proof fn lemma_gateway_answers(event: GatewayEvent)
    ensures
        event matches GatewayEvent::Dispatch(DispatchPayload::MessageCreate(m)) ==> (
        gateway_action(event) matches GatewayAction::Broadcast(DispatchPayload::MessageCreate(b))
            && b.id == m.id && b.channel_id == m.channel_id && b.author_id == m.author_id
            && b.content@ == m.content@),
        event is Heartbeat ==> gateway_action(event) matches GatewayAction::Reply(
            GatewayEvent::HeartbeatAck,
        ),
        event matches GatewayEvent::Identify(p) ==> (gateway_action(event) matches GatewayAction::Authenticate(t)
            && t@ == p.token@),
        (event is Hello || event is HeartbeatAck || (event matches GatewayEvent::Dispatch(
            DispatchPayload::Ready(_),
        ))) ==> gateway_action(event) is Ignore,
{
}

} // verus!
