use gateway_wire::model::timestamp::{
    date_from_day, Date, InvalidTimestamp, Timestamp, DISCORD_EPOCH, MAX_DAY, MAX_MILLIS,
};

#[test]
fn timestamp_starts_at_the_unix_epoch() {
    let start = Timestamp::from_millis(0).unwrap();
    assert_eq!(start.unix_timestamp(), 0);
    assert_eq!(start.unix_timestamp_millis(), 0);
    assert_eq!(start.to_string(), "1970-01-01T00:00:00.000Z");
    assert_eq!(start.date(), Date { year: 1970, month: 1, day: 1 });
}

#[test]
fn timestamp_ends_with_the_year_9999() {
    let end = Timestamp::from_millis(MAX_MILLIS as i64).unwrap();
    assert_eq!(end.to_string(), "9999-12-31T23:59:59.999Z");
    assert_eq!(end.unix_timestamp(), 253_402_300_799);
}

#[test]
fn timestamp_outside_its_range_is_refused() {
    assert_eq!(Timestamp::from_millis(-1), Err(InvalidTimestamp));
    assert_eq!(Timestamp::from_millis(i64::MIN), Err(InvalidTimestamp));
    assert_eq!(Timestamp::from_millis(MAX_MILLIS as i64 + 1), Err(InvalidTimestamp));
    assert_eq!(Timestamp::from_millis(i64::MAX), Err(InvalidTimestamp));
}

#[test]
fn timestamp_of_an_identifier_counts_from_2015() {
    assert_eq!(Timestamp::from_discord_id(0).unix_timestamp_millis() as u64, DISCORD_EPOCH);
    assert_eq!(Timestamp::from_discord_id(0).to_string(), "2015-01-01T00:00:00.000Z");
    assert_eq!(Timestamp::from_discord_id((1 << 22) - 1).to_string(), "2015-01-01T00:00:00.000Z");
    assert_eq!(Timestamp::from_discord_id(1 << 22).to_string(), "2015-01-01T00:00:00.001Z");
    assert_eq!(
        Timestamp::from_discord_id(175928847299117063).unix_timestamp_millis(),
        1462015105796
    );
    assert_eq!(
        Timestamp::from_discord_id(u64::MAX).unix_timestamp_millis(),
        5818116911103
    );
}

#[test]
fn timestamp_pads_every_field() {
    let early = Timestamp::from_millis(3_661_001).unwrap();
    assert_eq!(early.to_string(), "1970-01-01T01:01:01.001Z");
    let late = Timestamp::from_millis(86_399_999).unwrap();
    assert_eq!(late.to_string(), "1970-01-01T23:59:59.999Z");
    let next = Timestamp::from_millis(86_400_000).unwrap();
    assert_eq!(next.to_string(), "1970-01-02T00:00:00.000Z");
}

#[test]
fn timestamp_knows_leap_days() {
    // 2016-02-29T12:00:00Z, 2000-02-29, 2100-03-01 (2100 is no leap year).
    assert_eq!(
        Timestamp::from_millis(1_456_747_200_000).unwrap().to_string(),
        "2016-02-29T12:00:00.000Z"
    );
    assert_eq!(
        Timestamp::from_millis(951_782_400_000).unwrap().to_string(),
        "2000-02-29T00:00:00.000Z"
    );
    assert_eq!(
        Timestamp::from_millis(4_107_542_400_000).unwrap().to_string(),
        "2100-03-01T00:00:00.000Z"
    );
    assert_eq!(
        Timestamp::from_millis(4_107_456_000_000).unwrap().to_string(),
        "2100-02-28T00:00:00.000Z"
    );
}

#[test]
fn timestamps_are_ordered_in_time() {
    let earlier = Timestamp::from_millis(1).unwrap();
    let later = Timestamp::from_millis(2).unwrap();
    assert!(earlier < later);
    assert_eq!(earlier, Timestamp::from_millis(1).unwrap());
}

#[test]
fn date_from_day_walks_the_calendar() {
    assert_eq!(date_from_day(0), Date { year: 1970, month: 1, day: 1 });
    assert_eq!(date_from_day(30), Date { year: 1970, month: 1, day: 31 });
    assert_eq!(date_from_day(31), Date { year: 1970, month: 2, day: 1 });
    assert_eq!(date_from_day(58), Date { year: 1970, month: 2, day: 28 });
    assert_eq!(date_from_day(59), Date { year: 1970, month: 3, day: 1 });
    assert_eq!(date_from_day(364), Date { year: 1970, month: 12, day: 31 });
    assert_eq!(date_from_day(365), Date { year: 1971, month: 1, day: 1 });
    assert_eq!(date_from_day(789), Date { year: 1972, month: 2, day: 29 });
    assert_eq!(date_from_day(1095), Date { year: 1972, month: 12, day: 31 });
    assert_eq!(date_from_day(11016), Date { year: 2000, month: 2, day: 29 });
    assert_eq!(date_from_day(16436), Date { year: 2015, month: 1, day: 1 });
    assert_eq!(date_from_day(16921), Date { year: 2016, month: 4, day: 30 });
    assert_eq!(date_from_day(MAX_DAY), Date { year: 9999, month: 12, day: 31 });
}

#[test]
fn date_from_day_never_skips_or_repeats_a_day() {
    let lengths = [31u8, 28, 31, 30, 31, 30, 31, 31, 30, 31, 30, 31];
    let mut expected = Date { year: 1970, month: 1, day: 1 };
    for day in 0..=MAX_DAY {
        assert_eq!(date_from_day(day), expected, "day {}", day);
        let year = expected.year;
        let leap = year % 4 == 0 && (year % 100 != 0 || year % 400 == 0);
        let mut length = lengths[usize::from(expected.month) - 1];
        if expected.month == 2 && leap {
            length = 29;
        }
        if expected.day < length {
            expected.day += 1;
        } else if expected.month < 12 {
            expected.day = 1;
            expected.month += 1;
        } else {
            expected.day = 1;
            expected.month = 1;
            expected.year += 1;
        }
    }
    assert_eq!(expected, Date { year: 10000, month: 1, day: 1 });
}
