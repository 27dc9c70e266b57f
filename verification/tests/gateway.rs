use gateway_wire::gateway::message::{library_name, LARGE_THRESHOLD};
use gateway_wire::gateway::{
    ActivityData, ActivityType, ChunkGuildFilter, Envelope, GatewayIntents, OnlineStatus, Opcode,
    PresenceData, ShardInfo, UnixTime, WebSocketMessage, WebSocketMessageData,
};
use gateway_wire::model::id::{GuildId, ShardId, UserId};

fn noon() -> UnixTime {
    UnixTime { secs_since_epoch: 1_462_015_105, nanos_since_epoch: 796_000_000 }
}

fn playing() -> ActivityData {
    ActivityData {
        name: String::from("chess"),
        kind: ActivityType::Playing,
        state: None,
        url: None,
    }
}

#[test]
fn heartbeat_carries_the_last_sequence_number() {
    let message = WebSocketMessage::heartbeat(Some(41));
    assert_eq!(message.op, Opcode::Heartbeat);
    assert_eq!(message.d, WebSocketMessageData::Heartbeat(Some(41)));
}

#[test]
fn heartbeat_before_any_event_carries_nothing() {
    let message = WebSocketMessage::heartbeat(None);
    assert_eq!(message.op, Opcode::Heartbeat);
    assert_eq!(message.d, WebSocketMessageData::Heartbeat(None));
}

#[test]
fn identify_without_activity_sends_an_empty_list() {
    let shard = ShardInfo { id: ShardId(2), total: 5 };
    let presence = PresenceData { activity: None, status: OnlineStatus::Online };
    let message =
        WebSocketMessage::identify(&shard, "secret", GatewayIntents(513), &presence, noon(), "linux");
    assert_eq!(message.op, Opcode::Identify);
    match message.d {
        WebSocketMessageData::Identify {
            compress,
            token,
            large_threshold,
            shard: sent_shard,
            intents,
            properties,
            presence: sent_presence,
        } => {
            assert!(compress);
            assert_eq!(token, "secret");
            assert_eq!(large_threshold, 250);
            assert_eq!(large_threshold, LARGE_THRESHOLD);
            assert_eq!(*sent_shard, shard);
            assert_eq!(sent_shard.id, ShardId(2));
            assert_eq!(sent_shard.total, 5);
            assert_eq!(intents, GatewayIntents(513));
            assert_eq!(intents.bits(), 513);
            assert_eq!(properties.browser, "serenity");
            assert_eq!(properties.device, "serenity");
            assert_eq!(properties.os, "linux");
            assert!(!sent_presence.afk);
            assert_eq!(sent_presence.status, "online");
            assert_eq!(sent_presence.since, noon());
            assert!(sent_presence.activities.is_empty());
        },
        other => panic!("not an identify message: {:?}", other),
    }
}

#[test]
fn identify_with_activity_sends_it_alone() {
    let shard = ShardInfo { id: ShardId(0), total: 1 };
    let presence = PresenceData { activity: Some(playing()), status: OnlineStatus::DoNotDisturb };
    let message =
        WebSocketMessage::identify(&shard, "secret", GatewayIntents(0), &presence, noon(), "macos");
    match message.d {
        WebSocketMessageData::Identify { presence: sent_presence, .. } => {
            assert_eq!(sent_presence.status, "dnd");
            assert_eq!(sent_presence.activities, vec![&playing()]);
        },
        other => panic!("not an identify message: {:?}", other),
    }
}

#[test]
fn presence_update_shows_the_presence_given() {
    let presence = PresenceData { activity: Some(playing()), status: OnlineStatus::Idle };
    let message = WebSocketMessage::presence_update(&presence, noon());
    assert_eq!(message.op, Opcode::PresenceUpdate);
    match message.d {
        WebSocketMessageData::PresenceUpdate(sent) => {
            assert!(!sent.afk);
            assert_eq!(sent.status, "idle");
            assert_eq!(sent.since, noon());
            assert_eq!(sent.activities.len(), 1);
            assert_eq!(sent.activities[0].name, "chess");
            assert_eq!(sent.activities[0].kind, ActivityType::Playing);
        },
        other => panic!("not a presence update: {:?}", other),
    }
}

#[test]
fn presence_update_without_activity_sends_an_empty_list() {
    let presence = PresenceData { activity: None, status: OnlineStatus::Invisible };
    let message = WebSocketMessage::presence_update(&presence, noon());
    match message.d {
        WebSocketMessageData::PresenceUpdate(sent) => {
            assert_eq!(sent.status, "invisible");
            assert_eq!(sent.activities, Vec::<&ActivityData>::new());
        },
        other => panic!("not a presence update: {:?}", other),
    }
}

#[test]
fn resume_names_session_sequence_and_token() {
    let message = WebSocketMessage::resume("session", 77, "secret");
    assert_eq!(message.op, Opcode::Resume);
    assert_eq!(
        message.d,
        WebSocketMessageData::Resume { session_id: "session", token: "secret", seq: 77 }
    );
}

#[test]
fn chunk_request_without_filter_asks_with_an_empty_query() {
    let message =
        WebSocketMessage::chunk_guild(GuildId::new(81384788765712384), None, ChunkGuildFilter::All, None);
    assert_eq!(message.op, Opcode::RequestGuildMembers);
    match message.d {
        WebSocketMessageData::ChunkGuild(chunk) => {
            assert_eq!(chunk.guild_id, GuildId::new(81384788765712384));
            assert_eq!(chunk.query, Some(String::new()));
            assert_eq!(chunk.user_ids, None);
            assert_eq!(chunk.limit, 0);
            assert_eq!(chunk.nonce, "");
        },
        other => panic!("not a chunk request: {:?}", other),
    }
}

#[test]
fn chunk_request_with_query_sends_the_query() {
    let message = WebSocketMessage::chunk_guild(
        GuildId::new(1),
        Some(25),
        ChunkGuildFilter::Query(String::from("ab")),
        Some("n-1"),
    );
    match message.d {
        WebSocketMessageData::ChunkGuild(chunk) => {
            assert_eq!(chunk.query, Some(String::from("ab")));
            assert_eq!(chunk.user_ids, None);
            assert_eq!(chunk.limit, 25);
            assert_eq!(chunk.nonce, "n-1");
        },
        other => panic!("not a chunk request: {:?}", other),
    }
}

#[test]
fn chunk_request_with_users_leaves_the_query_out() {
    let users = vec![UserId::new(3), UserId::new(4)];
    let message = WebSocketMessage::chunk_guild(
        GuildId::new(1),
        None,
        ChunkGuildFilter::UserIds(users.clone()),
        None,
    );
    match message.d {
        WebSocketMessageData::ChunkGuild(chunk) => {
            assert_eq!(chunk.user_ids, Some(users));
            assert_eq!(chunk.query, None);
        },
        other => panic!("not a chunk request: {:?}", other),
    }
}

#[test]
fn chunk_request_never_has_both_query_and_users() {
    let filters = [
        ChunkGuildFilter::All,
        ChunkGuildFilter::Query(String::new()),
        ChunkGuildFilter::Query(String::from("x")),
        ChunkGuildFilter::UserIds(Vec::new()),
        ChunkGuildFilter::UserIds(vec![UserId::new(9)]),
    ];
    for filter in filters {
        let message = WebSocketMessage::chunk_guild(GuildId::new(1), None, filter, None);
        match message.d {
            WebSocketMessageData::ChunkGuild(chunk) => {
                assert_ne!(chunk.query.is_some(), chunk.user_ids.is_some());
            },
            other => panic!("not a chunk request: {:?}", other),
        }
    }
}

#[test]
fn online_status_has_its_wire_names() {
    assert_eq!(OnlineStatus::DoNotDisturb.name(), "dnd");
    assert_eq!(OnlineStatus::Idle.name(), "idle");
    assert_eq!(OnlineStatus::Invisible.name(), "invisible");
    assert_eq!(OnlineStatus::Offline.name(), "offline");
    assert_eq!(OnlineStatus::Online.name(), "online");
}

#[test]
fn activity_types_have_their_wire_numbers() {
    assert_eq!(ActivityType::Playing.code(), 0);
    assert_eq!(ActivityType::Streaming.code(), 1);
    assert_eq!(ActivityType::Listening.code(), 2);
    assert_eq!(ActivityType::Watching.code(), 3);
    assert_eq!(ActivityType::Custom.code(), 4);
    assert_eq!(ActivityType::Competing.code(), 5);
}

#[test]
fn opcodes_have_their_wire_numbers() {
    assert_eq!(Opcode::Dispatch.code(), 0);
    assert_eq!(Opcode::Heartbeat.code(), 1);
    assert_eq!(Opcode::Identify.code(), 2);
    assert_eq!(Opcode::PresenceUpdate.code(), 3);
    assert_eq!(Opcode::VoiceStateUpdate.code(), 4);
    assert_eq!(Opcode::Resume.code(), 6);
    assert_eq!(Opcode::Reconnect.code(), 7);
    assert_eq!(Opcode::RequestGuildMembers.code(), 8);
    assert_eq!(Opcode::InvalidSession.code(), 9);
    assert_eq!(Opcode::Hello.code(), 10);
    assert_eq!(Opcode::HeartbeatAck.code(), 11);
    assert_eq!(Opcode::Unknown.code(), 255);
}

#[test]
fn opcodes_are_read_back_from_their_numbers() {
    for code in 0..=255u8 {
        let op = Opcode::from_code(code);
        if op == Opcode::Unknown {
            assert!(code == 5 || code > 11, "{}", code);
        } else {
            assert_eq!(op.code(), code);
        }
    }
    assert_eq!(Opcode::from_code(5), Opcode::Unknown);
    assert_eq!(Opcode::from_code(255), Opcode::Unknown);
}

#[test]
fn envelope_reads_its_operation_and_passes_the_rest_on() {
    let envelope = Envelope::from_parts(0, String::from("{}"), Some(3), Some(String::from("READY")));
    assert_eq!(envelope.op, Opcode::Dispatch);
    assert_eq!(envelope.d, "{}");
    assert_eq!(envelope.s, Some(3));
    assert_eq!(envelope.t.as_deref(), Some("READY"));

    let hello = Envelope::from_parts(10, String::from("{\"heartbeat_interval\":41250}"), None, None);
    assert_eq!(hello.op, Opcode::Hello);
    assert_eq!(hello.s, None);
    assert_eq!(hello.t, None);
}

#[test]
fn library_name_is_the_name_sent() {
    assert_eq!(library_name(), "serenity");
}

#[test]
fn identify_names_the_library_whatever_the_arguments() {
    let shards = [ShardInfo { id: ShardId(0), total: 1 }, ShardInfo { id: ShardId(9), total: 10 }];
    let presences = [
        PresenceData { activity: None, status: OnlineStatus::Offline },
        PresenceData { activity: Some(playing()), status: OnlineStatus::Online },
    ];
    for shard in &shards {
        for presence in &presences {
            for os in ["linux", "windows", ""] {
                let message =
                    WebSocketMessage::identify(shard, "t", GatewayIntents(1), presence, noon(), os);
                match message.d {
                    WebSocketMessageData::Identify { properties, .. } => {
                        assert_eq!(properties.browser, "serenity");
                        assert_eq!(properties.device, "serenity");
                        assert_eq!(properties.os, os);
                    },
                    other => panic!("not an identify message: {:?}", other),
                }
            }
        }
    }
}

#[test]
fn only_a_heartbeat_without_sequence_number_has_no_body() {
    assert!(WebSocketMessage::heartbeat(None).d.is_absent());
    assert!(!WebSocketMessage::heartbeat(Some(0)).d.is_absent());
    assert!(!WebSocketMessage::heartbeat(Some(41)).d.is_absent());
    assert!(!WebSocketMessage::resume("session", 1, "secret").d.is_absent());
    let presence = PresenceData { activity: None, status: OnlineStatus::Online };
    assert!(!WebSocketMessage::presence_update(&presence, noon()).d.is_absent());
    let shard = ShardInfo { id: ShardId(0), total: 1 };
    let identify =
        WebSocketMessage::identify(&shard, "t", GatewayIntents(0), &presence, noon(), "linux");
    assert!(!identify.d.is_absent());
    let chunk =
        WebSocketMessage::chunk_guild(GuildId::new(1), None, ChunkGuildFilter::All, None);
    assert!(!chunk.d.is_absent());
}
