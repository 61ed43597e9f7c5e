use vstd::prelude::*;

use crate::ids::{GuildId, UserId};

verus! {

/// A guild and its owner.
#[derive(Debug, Clone)]
pub struct Guild {
    pub id: GuildId,
    pub name: String,
    pub owner_id: UserId,
}

} // verus!
