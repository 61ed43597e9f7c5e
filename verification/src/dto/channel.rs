use vstd::prelude::*;

use crate::ids::ChannelId;

verus! {

/// Kind of a channel, stored in the database as a Postgres enum.
#[derive(Debug, Clone, Copy, PartialEq, Eq)]
pub enum ChannelType {
    TEXT,
    VOICE,
}

/// The bytes a channel type is written to the database as: its variant name.
pub open spec fn channel_type_sql_bytes(t: ChannelType) -> Seq<u8> {
    match t {
        ChannelType::TEXT => seq![0x54u8, 0x45u8, 0x58u8, 0x54u8],
        ChannelType::VOICE => seq![0x56u8, 0x4Fu8, 0x49u8, 0x43u8, 0x45u8],
    }
}

/// The channel type that database bytes are read as: exactly `TEXT`, or
/// exactly `VOICE` followed by two spaces; anything else is refused.
pub open spec fn channel_type_from_sql_bytes(raw: Seq<u8>) -> Option<ChannelType> {
    if raw == seq![0x54u8, 0x45u8, 0x58u8, 0x54u8] {
        Some(ChannelType::TEXT)
    } else if raw == seq![0x56u8, 0x4Fu8, 0x49u8, 0x43u8, 0x45u8, 0x20u8, 0x20u8] {
        Some(ChannelType::VOICE)
    } else {
        None
    }
}

impl ChannelType {
    /// The bytes written for this channel type (the database encoding).
    pub fn to_sql_bytes(&self) -> (r: Vec<u8>)
        ensures
            r@ == channel_type_sql_bytes(*self),
    {
        let r = match self {
            ChannelType::TEXT => vec![0x54u8, 0x45u8, 0x58u8, 0x54u8],
            ChannelType::VOICE => vec![0x56u8, 0x4Fu8, 0x49u8, 0x43u8, 0x45u8],
        };
        proof {
            assert(r@ =~= channel_type_sql_bytes(*self));
        }
        r
    }

    /// Reads a channel type from database bytes; `None` when they name none.
    pub fn from_sql_bytes(raw: &[u8]) -> (r: Option<ChannelType>)
        ensures
            r == channel_type_from_sql_bytes(raw@),
    {
        let text: [u8; 4] = [0x54u8, 0x45u8, 0x58u8, 0x54u8];
        let voice: [u8; 7] = [0x56u8, 0x4Fu8, 0x49u8, 0x43u8, 0x45u8, 0x20u8, 0x20u8];
        if bytes_equal(raw, &text) {
            proof {
                assert(text@ =~= seq![0x54u8, 0x45u8, 0x58u8, 0x54u8]);
            }
            Some(ChannelType::TEXT)
        } else if bytes_equal(raw, &voice) {
            proof {
                assert(text@ =~= seq![0x54u8, 0x45u8, 0x58u8, 0x54u8]);
                assert(voice@ =~= seq![0x56u8, 0x4Fu8, 0x49u8, 0x43u8, 0x45u8, 0x20u8, 0x20u8]);
            }
            Some(ChannelType::VOICE)
        } else {
            proof {
                assert(text@ =~= seq![0x54u8, 0x45u8, 0x58u8, 0x54u8]);
                assert(voice@ =~= seq![0x56u8, 0x4Fu8, 0x49u8, 0x43u8, 0x45u8, 0x20u8, 0x20u8]);
            }
            None
        }
    }
}

fn bytes_equal(a: &[u8], b: &[u8]) -> (r: bool)
    ensures
        r == (a@ == b@),
{
    if a.len() != b.len() {
        return false;
    }
    let mut i: usize = 0;
    while i < a.len()
        invariant
            a@.len() == b@.len(),
            i <= a@.len(),
            forall|j: int| 0 <= j < i ==> a@[j] == b@[j],
        decreases a@.len() - i,
    {
        if a[i] != b[i] {
            return false;
        }
        i = i + 1;
    }
    proof {
        assert(a@ =~= b@);
    }
    true
}

/// Reading back what was written gives the same channel type exactly for
/// `TEXT`: `VOICE` is written without the two trailing spaces that reading
/// expects, so it does not survive the round trip.
pub proof fn lemma_channel_type_round_trip(t: ChannelType)
    ensures
        channel_type_from_sql_bytes(channel_type_sql_bytes(t)) == Some(t) <==> t
            == ChannelType::TEXT,
        t == ChannelType::VOICE ==> channel_type_from_sql_bytes(channel_type_sql_bytes(t)) is None,
{
    let voice_read = seq![0x56u8, 0x4Fu8, 0x49u8, 0x43u8, 0x45u8, 0x20u8, 0x20u8];
    let voice_written = seq![0x56u8, 0x4Fu8, 0x49u8, 0x43u8, 0x45u8];
    assert(voice_written.len() != voice_read.len());
    assert(voice_written.len() != seq![0x54u8, 0x45u8, 0x58u8, 0x54u8].len());
}

/// What a client sends to create a channel. (`channel_type` is the field the
/// clients call `type`.)
#[derive(Debug, Clone)]
pub struct CreateInfo {
    pub name: String,
    pub channel_type: ChannelType,
}

/// A new channel name.
#[derive(Debug, Clone)]
pub struct NameUpdate(pub String);

/// A move of a channel from one position to another.
#[derive(Debug, Clone)]
pub struct PositionUpdate {
    pub old: i32,
    pub new: i32,
}

/// A channel as listed to clients.
#[derive(Debug, Clone)]
pub struct ChannelView {
    pub id: ChannelId,
    pub name: String,
    pub channel_type: ChannelType,
    pub position: i32,
}

} // verus!
