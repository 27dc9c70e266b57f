//! Which part of the event stream a connection asks for.

use crate::model::id::{ShardId, UserId};
use vstd::prelude::*;

verus! {

/// The place of one connection among the connections that share a client's
/// traffic.
#[derive(Clone, Copy, Debug, Eq, Hash, PartialEq, Structural)]
pub struct ShardInfo {
    pub id: ShardId,
    /// How many shards there are in all.
    pub total: u32,
}

/// A set of event categories, one bit each, that the gateway should deliver.
#[derive(Clone, Copy, Debug, Eq, Hash, PartialEq, Structural)]
pub struct GatewayIntents(pub u64);

impl GatewayIntents {
    /// The set as a bitmask.
    pub fn bits(self) -> (bits: u64)
        ensures
            bits == self.0,
    {
        self.0
    }
}

/// Which members of a guild a chunk request asks for.
#[derive(Clone, Debug, Eq, PartialEq)]
pub enum ChunkGuildFilter {
    /// All of them.
    All,
    /// Those whose name begins with the given text.
    Query(String),
    /// Exactly the users listed.
    UserIds(Vec<UserId>),
}

} // verus!
