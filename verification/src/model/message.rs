use vstd::prelude::*;

use crate::ids::{ChannelId, MessageId, UserId};

verus! {

/// A chat message as stored. Instants are nanoseconds since the Unix epoch,
/// UTC.
#[derive(Debug, Clone)]
pub struct Message {
    pub id: MessageId,
    pub channel_id: ChannelId,
    pub author_id: UserId,
    pub content: String,
    pub created_at: i128,
    pub updated_at: i128,
}

} // verus!
