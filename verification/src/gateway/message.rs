//! The control messages that a client sends, each built with exactly the
//! fields that its kind carries.

use crate::gateway::opcode::Opcode;
use crate::gateway::presence::{ActivityData, PresenceData, UnixTime};
use crate::gateway::shard::{ChunkGuildFilter, GatewayIntents, ShardInfo};
use crate::model::id::{GuildId, UserId};
use vstd::prelude::*;

verus! {

/// Guilds with more members than this send only the members that are online.
pub const LARGE_THRESHOLD: u8 = 250;

/// The library name that the gateway is told when a session is opened. It is
/// sent both as the browser and as the device.
pub open spec fn spec_library_name() -> Seq<char> {
    "serenity"@
}

/// The library name that the gateway is told when a session is opened.
pub fn library_name() -> (name: &'static str)
    ensures
        name@ == spec_library_name(),
{
    "serenity"
}

/// What software is connecting.
#[derive(Clone, Copy, Debug, Eq, PartialEq)]
pub struct IdentifyProperties<'a> {
    pub browser: &'a str,
    pub device: &'a str,
    pub os: &'a str,
}

/// A request for the members of a guild. Of `user_ids` and `query` exactly
/// one is there; the other is left out of the message altogether.
#[derive(Clone, Debug, Eq, PartialEq)]
pub struct ChunkGuildMessage<'a> {
    pub user_ids: Option<Vec<UserId>>,
    pub query: Option<String>,
    pub guild_id: GuildId,
    pub nonce: &'a str,
    pub limit: u16,
}

/// The presence to show from now on.
#[derive(Clone, Debug, Eq, PartialEq)]
pub struct PresenceUpdateMessage<'a> {
    pub afk: bool,
    pub status: &'a str,
    pub since: UnixTime,
    /// Always a list, empty where the client is doing nothing.
    pub activities: Vec<&'a ActivityData>,
}

/// The body of a control message: one variant per kind, each with its own
/// fields and no others.
#[derive(Clone, Debug, Eq, PartialEq)]
pub enum WebSocketMessageData<'a> {
    /// The last sequence number seen, if any.
    Heartbeat(Option<u64>),
    ChunkGuild(ChunkGuildMessage<'a>),
    Identify {
        compress: bool,
        token: &'a str,
        large_threshold: u8,
        shard: &'a ShardInfo,
        intents: GatewayIntents,
        properties: IdentifyProperties<'a>,
        presence: PresenceUpdateMessage<'a>,
    },
    PresenceUpdate(PresenceUpdateMessage<'a>),
    Resume { session_id: &'a str, token: &'a str, seq: u64 },
}

impl<'a> WebSocketMessageData<'a> {
    /// Whether there is no body to send. Only a heartbeat without a sequence
    /// number has none; its `d` is then left out of the message, not written
    /// as a null.
    pub open spec fn spec_is_absent(&self) -> bool {
        *self matches WebSocketMessageData::Heartbeat(None)
    }

    /// Whether there is no body to send, so that `d` is left out.
    pub fn is_absent(&self) -> (absent: bool)
        ensures
            absent == self.spec_is_absent(),
    {
        match self {
            WebSocketMessageData::Heartbeat(None) => true,
            _ => false,
        }
    }
}

/// A control message, ready to be encoded.
#[derive(Clone, Debug, Eq, PartialEq)]
pub struct WebSocketMessage<'a> {
    pub op: Opcode,
    pub d: WebSocketMessageData<'a>,
}

/// Whether `message` shows `presence` as of `now`: never away from keyboard,
/// the status by its wire name, and the one activity, or none, as a list.
pub open spec fn shows_presence(
    message: PresenceUpdateMessage<'_>,
    presence: &PresenceData,
    now: UnixTime,
) -> bool {
    &&& !message.afk
    &&& message.since == now
    &&& message.status@ == presence.status.spec_name()
    &&& match presence.activity {
        Some(activity) => message.activities@ == seq![&activity],
        None => message.activities@ == Seq::<&ActivityData>::empty(),
    }
}

/// Whether `chunk` asks for the members of `guild_id` that `filter` selects.
/// No filter is sent as the empty query, which matches everyone; a list of
/// users is sent in place of a query.
pub open spec fn asks_for_members(
    chunk: ChunkGuildMessage<'_>,
    guild_id: GuildId,
    limit: Option<u16>,
    filter: ChunkGuildFilter,
    nonce: Option<&str>,
) -> bool {
    &&& chunk.guild_id == guild_id
    &&& chunk.limit == match limit {
        Some(limit) => limit,
        None => 0,
    }
    &&& chunk.nonce@ == match nonce {
        Some(nonce) => nonce@,
        None => Seq::<char>::empty(),
    }
    &&& match filter {
        ChunkGuildFilter::All => chunk.user_ids.is_none() && (chunk.query matches Some(query)
            && query@ == Seq::<char>::empty()),
        ChunkGuildFilter::Query(text) => chunk.user_ids.is_none() && chunk.query == Some(text),
        ChunkGuildFilter::UserIds(ids) => chunk.user_ids == Some(ids) && chunk.query.is_none(),
    }
}

fn presence_message<'a>(presence: &'a PresenceData, now: UnixTime) -> (message:
    PresenceUpdateMessage<'a>)
    ensures
        shows_presence(message, presence, now),
{
    let mut activities: Vec<&'a ActivityData> = Vec::new();
    match &presence.activity {
        Some(activity) => {
            activities.push(activity);
            assert(activities@ =~= seq![activity]);
        },
        None => {},
    }
    PresenceUpdateMessage { afk: false, since: now, status: presence.status.name(), activities }
}

impl<'a> WebSocketMessage<'a> {
    /// A request for the members of `guild_id`. Without a `limit` the
    /// gateway's default is asked for, which is written as zero.
    pub fn chunk_guild(
        guild_id: GuildId,
        limit: Option<u16>,
        filter: ChunkGuildFilter,
        nonce: Option<&'a str>,
    ) -> (message: WebSocketMessage<'a>)
        ensures
            message.op == Opcode::RequestGuildMembers,
            message.d matches WebSocketMessageData::ChunkGuild(chunk) && asks_for_members(
                chunk,
                guild_id,
                limit,
                filter,
                nonce,
            ) && chunk.query.is_some() != chunk.user_ids.is_some(),
    {
        let (query, user_ids) = match filter {
            ChunkGuildFilter::All => (Some(String::new()), None),
            ChunkGuildFilter::Query(query) => (Some(query), None),
            ChunkGuildFilter::UserIds(user_ids) => (None, Some(user_ids)),
        };
        let limit = match limit {
            Some(limit) => limit,
            None => 0,
        };
        let sent_nonce = match nonce {
            Some(nonce) => nonce,
            None => {
                proof {
                    reveal_strlit("");
                }
                assert(""@ =~= Seq::<char>::empty());
                ""
            },
        };
        WebSocketMessage {
            op: Opcode::RequestGuildMembers,
            d: WebSocketMessageData::ChunkGuild(
                ChunkGuildMessage { guild_id, user_ids, query, limit, nonce: sent_nonce },
            ),
        }
    }

    /// A heartbeat that reports the last sequence number seen. Before any
    /// event was seen there is none to report, and the message has no body.
    pub fn heartbeat(seq: Option<u64>) -> (message: WebSocketMessage<'a>)
        ensures
            message.op == Opcode::Heartbeat,
            message.d == WebSocketMessageData::Heartbeat(seq),
            message.d.spec_is_absent() == seq.is_none(),
    {
        WebSocketMessage { op: Opcode::Heartbeat, d: WebSocketMessageData::Heartbeat(seq) }
    }

    /// The message that opens a session for `shard`. It always asks for
    /// compressed payloads, and names the library and the operating system
    /// `os` as what is connecting.
    pub fn identify(
        shard: &'a ShardInfo,
        token: &'a str,
        intents: GatewayIntents,
        presence: &'a PresenceData,
        now: UnixTime,
        os: &'a str,
    ) -> (message: WebSocketMessage<'a>)
        ensures
            message.op == Opcode::Identify,
            message.d matches WebSocketMessageData::Identify {
                compress,
                token: sent_token,
                large_threshold,
                shard: sent_shard,
                intents: sent_intents,
                properties,
                presence: sent_presence,
            } && compress && sent_token@ == token@ && large_threshold == LARGE_THRESHOLD
                && *sent_shard == *shard && sent_intents == intents && properties.browser@
                == spec_library_name() && properties.device@ == spec_library_name()
                && properties.os@ == os@ && shows_presence(sent_presence, presence, now),
            presence.activity.is_none() ==> (message.d matches WebSocketMessageData::Identify {
                presence: sent_presence,
                ..
            } && sent_presence.activities@.len() == 0),
    {
        WebSocketMessage {
            op: Opcode::Identify,
            d: WebSocketMessageData::Identify {
                token,
                shard,
                intents,
                compress: true,
                large_threshold: LARGE_THRESHOLD,
                properties: IdentifyProperties {
                    browser: library_name(),
                    device: library_name(),
                    os,
                },
                presence: presence_message(presence, now),
            },
        }
    }

    /// The message that changes the presence shown to `presence`.
    pub fn presence_update(presence: &'a PresenceData, now: UnixTime) -> (message:
        WebSocketMessage<'a>)
        ensures
            message.op == Opcode::PresenceUpdate,
            message.d matches WebSocketMessageData::PresenceUpdate(sent) && shows_presence(
                sent,
                presence,
                now,
            ),
    {
        WebSocketMessage {
            op: Opcode::PresenceUpdate,
            d: WebSocketMessageData::PresenceUpdate(presence_message(presence, now)),
        }
    }

    /// The message that takes up the session `session_id` again after the
    /// event numbered `seq`.
    pub fn resume(session_id: &'a str, seq: u64, token: &'a str) -> (message: WebSocketMessage<'a>)
        ensures
            message.op == Opcode::Resume,
            message.d matches WebSocketMessageData::Resume {
                session_id: sent_session,
                token: sent_token,
                seq: sent_seq,
            } && sent_session@ == session_id@ && sent_token@ == token@ && sent_seq == seq,
    {
        WebSocketMessage {
            op: Opcode::Resume,
            d: WebSocketMessageData::Resume { session_id, token, seq },
        }
    }
}

} // verus!
