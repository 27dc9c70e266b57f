//! The gateway connection seen from above the transport: what a received
//! frame means, and which control messages may be sent.

pub mod event;
pub mod message;
pub mod opcode;
pub mod presence;
pub mod shard;
pub mod ws;

pub use event::Envelope;
pub use message::{
    ChunkGuildMessage, IdentifyProperties, PresenceUpdateMessage, WebSocketMessage,
    WebSocketMessageData,
};
pub use opcode::Opcode;
pub use presence::{ActivityData, ActivityType, OnlineStatus, PresenceData, UnixTime};
pub use shard::{ChunkGuildFilter, GatewayIntents, ShardInfo};
