use gateway_wire::model::id::snowflake::{
    checked_parse, deserialize, digits_only, parse, parse_eight, serialize, simple_parse, Encoded,
    SnowflakeError,
};
use gateway_wire::model::id::{
    ApplicationId, ChannelId, EntitlementId, GenericId, GuildId, IDFromStrError, MessageId, RoleId,
    ShardId, UserId,
};
use gateway_wire::model::timestamp::DISCORD_EPOCH;
use std::collections::HashSet;
use std::str::FromStr;

#[test]
fn test_created_at() {
    // The id is from discord's snowflake docs
    let id = GuildId::new(175928847299117063);
    assert_eq!(id.created_at().unix_timestamp(), 1462015105);
    assert_eq!(id.created_at().to_string(), "2016-04-30T11:18:25.796Z");
}

#[test]
fn test_id_serde() {
    let id = GuildId::new(17_5928_8472_9911_7063);
    let json = serde_json::Value::String(String::from("175928847299117063"));

    // An identifier is written as a string, never as a bare number.
    assert_eq!(serde_json::Value::String(id.to_string()), json);
    assert_eq!(serde_json::Value::String(serialize(id.get())), json);

    // The string reads back as the same identifier.
    let text = json.as_str().unwrap();
    assert_eq!(deserialize(Encoded::Text(text)), Ok(id.get()));
    assert_eq!(GuildId::from_str(text), Ok(id));

    // So does the number, where a format supplies one.
    let number = serde_json::Value::from(17_5928_8472_9911_7063u64);
    assert_eq!(deserialize(Encoded::Unsigned(number.as_u64().unwrap())), Ok(id.get()));
    assert_eq!(deserialize(Encoded::Signed(number.as_i64().unwrap())), Ok(id.get()));

    // An identifier that may be missing is written the same way when it is there.
    let present: Option<GuildId> = Some(GuildId::new(17_5928_8472_9911_7063));
    assert_eq!(present.map(|id| serde_json::Value::String(id.to_string())), Some(json));
}

#[test]
fn parse_reads_every_boundary_length() {
    let cases: [(&str, u64); 10] = [
        ("7", 7),
        ("12345678", 12345678),
        ("123456789", 123456789),
        ("1234567890123456", 1234567890123456),
        ("12345678901234567", 12345678901234567),
        ("175928847299117063", 175928847299117063),
        ("1234567890123456789", 1234567890123456789),
        ("12345678901234567890", 12345678901234567890),
        ("18446744073709551615", u64::MAX),
        ("10000000000000000000", 10_000_000_000_000_000_000),
    ];
    for (text, value) in cases {
        assert_eq!(parse(text.as_bytes()), Some(value), "{}", text);
    }
}

#[test]
fn parse_agrees_with_digit_by_digit_reading() {
    let mut state: u64 = 0x9e37_79b9_7f4a_7c15;
    for round in 0..20_000u32 {
        state = state.wrapping_mul(6364136223846793005).wrapping_add(1442695040888963407);
        let value = (state >> (round % 64)).max(1);
        let text = value.to_string();
        assert_eq!(parse(text.as_bytes()), Some(value));
        assert_eq!(parse(text.as_bytes()), text.parse::<u64>().ok());
        let mut naive: u64 = 0;
        for byte in text.bytes() {
            naive = naive * 10 + u64::from(byte - b'0');
        }
        assert_eq!(parse(text.as_bytes()), Some(naive));
    }
}

#[test]
fn parse_round_trips_what_serialize_writes() {
    for value in [1u64, 9, 10, 99_999_999, 100_000_000, 9_999_999_999_999_999, u64::MAX] {
        assert_eq!(parse(serialize(value).as_bytes()), Some(value));
        assert_eq!(serialize(value), value.to_string());
    }
}

#[test]
fn parse_refuses_what_is_no_identifier() {
    assert_eq!(parse(b""), None);
    assert_eq!(parse(b"0"), None);
    assert_eq!(parse(b"00000000"), None);
    assert_eq!(parse(b"000000000000000000000000000"), None);
    assert_eq!(parse(b"12a4"), None);
    assert_eq!(parse(b"-1"), None);
    assert_eq!(parse(b"+1"), None);
    assert_eq!(parse(b" 1"), None);
    assert_eq!(parse(b"1234567 "), None);
    assert_eq!(parse(b"12345678/"), None);
    assert_eq!(parse(b"1234567812345678:"), None);
    assert_eq!(parse("１２３".as_bytes()), None);
    assert_eq!(parse(b"18446744073709551616"), None);
    assert_eq!(parse(b"18446744073709551620"), None);
    assert_eq!(parse(b"99999999999999999999"), None);
    assert_eq!(parse(b"100000000000000000000"), None);
    assert_eq!(parse(b"1000000000000000000000000"), None);
}

#[test]
fn parse_ignores_leading_zeros() {
    assert_eq!(parse(b"007"), Some(7));
    assert_eq!(parse(b"0000000000000000000042"), Some(42));
    assert_eq!(parse(b"00018446744073709551615"), Some(u64::MAX));
    assert_eq!(parse(b"000000000000000000000000000000042"), Some(42));
    assert_eq!(parse(b"00000000000018446744073709551616"), None);
}

#[test]
fn parse_eight_reads_eight_digits_at_once() {
    assert_eq!(parse_eight(*b"92233721"), 92233721);
    assert_eq!(parse_eight(*b"00000000"), 0);
    assert_eq!(parse_eight(*b"00000001"), 1);
    assert_eq!(parse_eight(*b"10000000"), 10000000);
    assert_eq!(parse_eight(*b"12345678"), 12345678);
    assert_eq!(parse_eight(*b"99999999"), 99999999);
}

#[test]
fn parse_eight_reads_only_the_low_nibbles() {
    // 'A' is 0x41 and 'z' is 0x7a: their low nibbles are 1 and 10.
    assert_eq!(parse_eight(*b"A0000000"), 10000000);
    assert_eq!(parse_eight(*b"0000000z"), 10);
    assert_eq!(parse_eight([0xff; 8]), 15 * 11111111);
}

#[test]
fn simple_parse_continues_a_number() {
    assert_eq!(simple_parse(0, b""), 0);
    assert_eq!(simple_parse(5, b""), 5);
    assert_eq!(simple_parse(0, b"123"), 123);
    assert_eq!(simple_parse(92233721, b"4567"), 922337214567);
    assert_eq!(simple_parse(1844674407370955161, b"5"), u64::MAX);
}

#[test]
fn checked_parse_notices_overflow() {
    assert_eq!(checked_parse(0, b"18446744073709551615"), Some(u64::MAX));
    assert_eq!(checked_parse(0, b"18446744073709551616"), None);
    assert_eq!(checked_parse(1844674407370955161, b"5"), Some(u64::MAX));
    assert_eq!(checked_parse(1844674407370955161, b"6"), None);
    assert_eq!(checked_parse(1844674407370955162, b"0"), None);
    assert_eq!(checked_parse(7, b""), Some(7));
}

#[test]
fn digits_only_tells_digits_from_the_rest() {
    assert!(digits_only(b""));
    assert!(digits_only(b"0123456789"));
    assert!(!digits_only(b"/"));
    assert!(!digits_only(b":"));
    assert!(!digits_only(b"12 4"));
}

#[test]
fn serialize_writes_decimal() {
    assert_eq!(serialize(0), "0");
    assert_eq!(serialize(1), "1");
    assert_eq!(serialize(10), "10");
    assert_eq!(serialize(1000), "1000");
    assert_eq!(serialize(175928847299117063), "175928847299117063");
    assert_eq!(serialize(u64::MAX), "18446744073709551615");
}

#[test]
fn deserialize_takes_text_and_integers() {
    assert_eq!(deserialize(Encoded::Text("42")), Ok(42));
    assert_eq!(deserialize(Encoded::Unsigned(42)), Ok(42));
    assert_eq!(deserialize(Encoded::Signed(42)), Ok(42));
    assert_eq!(deserialize(Encoded::Unsigned(u64::MAX)), Ok(u64::MAX));
    assert_eq!(deserialize(Encoded::Signed(i64::MAX)), Ok(i64::MAX as u64));
}

#[test]
fn deserialize_says_why_it_refuses() {
    assert_eq!(deserialize(Encoded::Signed(-1)), Err(SnowflakeError::Negative));
    assert_eq!(deserialize(Encoded::Signed(i64::MIN)), Err(SnowflakeError::Negative));
    assert_eq!(deserialize(Encoded::Signed(0)), Err(SnowflakeError::Invalid));
    assert_eq!(deserialize(Encoded::Unsigned(0)), Err(SnowflakeError::Invalid));
    assert_eq!(deserialize(Encoded::Text("0")), Err(SnowflakeError::Invalid));
    assert_eq!(deserialize(Encoded::Text("")), Err(SnowflakeError::Invalid));
    assert_eq!(deserialize(Encoded::Text("12x")), Err(SnowflakeError::Invalid));
    assert_eq!(deserialize(Encoded::Text("18446744073709551616")), Err(SnowflakeError::Invalid));
    assert_eq!(deserialize(Encoded::Other), Err(SnowflakeError::WrongType));
}

#[test]
fn id_holds_the_number_it_was_made_from() {
    assert_eq!(GuildId::new(1).get(), 1);
    assert_eq!(UserId::new(u64::MAX).get(), u64::MAX);
    assert_eq!(ChannelId::new(175928847299117063).get(), 175928847299117063);
}

#[test]
fn id_defaults_to_the_smallest() {
    assert_eq!(GuildId::default().get(), 1);
    assert_eq!(EntitlementId::default().get(), 1);
    assert_eq!(GenericId::default(), GenericId::new(1));
}

#[test]
fn id_compares_by_its_number() {
    assert!(MessageId::new(1) < MessageId::new(2));
    assert!(MessageId::new(u64::MAX) > MessageId::new(u64::MAX - 1));
    assert!(MessageId::new(5) <= MessageId::new(5));
    assert_eq!(MessageId::new(5), MessageId::new(5));
    assert_ne!(MessageId::new(5), MessageId::new(6));
    assert_eq!(MessageId::new(3).cmp(&MessageId::new(4)), std::cmp::Ordering::Less);
    assert_eq!(
        MessageId::new(4).partial_cmp(&MessageId::new(3)),
        Some(std::cmp::Ordering::Greater)
    );
    let mut ids = vec![RoleId::new(30), RoleId::new(10), RoleId::new(20)];
    ids.sort();
    assert_eq!(ids, vec![RoleId::new(10), RoleId::new(20), RoleId::new(30)]);
}

#[test]
fn id_compares_to_a_bare_number() {
    assert!(GuildId::new(81384788765712384) == 81384788765712384u64);
    assert!(GuildId::new(81384788765712384) != 81384788765712385u64);
}

#[test]
fn id_hashes_by_its_number() {
    let mut seen = HashSet::new();
    assert!(seen.insert(UserId::new(7)));
    assert!(!seen.insert(UserId::new(7)));
    assert!(seen.insert(UserId::new(8)));
    assert_eq!(seen.len(), 2);
}

#[test]
fn id_converts_to_integers() {
    assert_eq!(u64::from(ApplicationId::new(42)), 42);
    assert_eq!(i64::from(ApplicationId::new(42)), 42);
    assert_eq!(i64::from(ApplicationId::new(u64::MAX)), -1);
    assert_eq!(i64::from(ApplicationId::new(1 << 63)), i64::MIN);
}

#[test]
fn id_is_written_in_decimal() {
    assert_eq!(GuildId::new(175928847299117063).to_string(), "175928847299117063");
    assert_eq!(UserId::new(1).to_string(), "1");
    assert_eq!(UserId::new(u64::MAX).to_string(), "18446744073709551615");
}

#[test]
fn id_is_read_from_decimal_text() {
    assert_eq!("175928847299117063".parse::<GuildId>(), Ok(GuildId::new(175928847299117063)));
    assert_eq!(UserId::from_str("1"), Ok(UserId::new(1)));
    assert_eq!(UserId::from_str("0"), Err(IDFromStrError));
    assert_eq!(UserId::from_str(""), Err(IDFromStrError));
    assert_eq!(UserId::from_str("abc"), Err(IDFromStrError));
    assert_eq!(UserId::from_str("18446744073709551616"), Err(IDFromStrError));
}

#[test]
fn id_text_round_trips() {
    for value in [1u64, 42, 175928847299117063, u64::MAX] {
        let id = ChannelId::new(value);
        assert_eq!(ChannelId::from_str(&id.to_string()), Ok(id));
    }
}

#[test]
fn id_copies_are_equal() {
    let id = RoleId::new(99);
    let copy = id;
    assert_eq!(id, copy);
    assert_eq!(id.clone(), copy);
}

#[test]
fn id_creation_time_is_its_upper_bits() {
    for value in [1u64, 1 << 22, (1 << 22) - 1, 175928847299117063, u64::MAX] {
        let at = GenericId::new(value).created_at();
        assert_eq!(at.unix_timestamp_millis() as u64 - DISCORD_EPOCH, value >> 22);
    }
    assert_eq!(GenericId::new(1).created_at().to_string(), "2015-01-01T00:00:00.000Z");
    assert_eq!(GenericId::new(u64::MAX).created_at().to_string(), "2154-05-15T07:35:11.103Z");
}

#[test]
fn id_from_str_error_says_what_went_wrong() {
    assert_eq!(IDFromStrError.to_string(), "attempted to construct an ID of zero");
}

#[test]
fn shard_id_is_written_in_decimal() {
    assert_eq!(ShardId(0).to_string(), "0");
    assert_eq!(ShardId(7).to_string(), "7");
    assert_eq!(ShardId(u32::MAX).to_string(), "4294967295");
    assert!(ShardId(1) < ShardId(2));
}

#[test]
fn id_is_its_own_reference() {
    let id = GuildId::new(12);
    let same: &GuildId = id.as_ref();
    assert_eq!(*same, id);
    assert_eq!(GuildId::from(&id), id);
    let ids = [UserId::new(1), UserId::new(2)];
    let copied: Vec<UserId> = ids.iter().map(UserId::from).collect();
    assert_eq!(copied, ids);
}
