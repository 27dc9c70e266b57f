//! A point in time with millisecond precision, and its calendar form.

use crate::decimal::{
    four_digits, push_four_digits, push_three_digits, push_two_digits, three_digits, two_digits,
};
use vstd::prelude::*;

verus! {

/// The first millisecond that an identifier can carry, counted from the Unix
/// epoch: the start of the year 2015.
pub const DISCORD_EPOCH: u64 = 1_420_070_400_000;

/// The last millisecond of the year 9999, counted from the Unix epoch.
pub const MAX_MILLIS: u64 = 253_402_300_799_999;

pub const MILLIS_PER_DAY: u64 = 86_400_000;

/// The day number of the last day of the year 9999.
pub const MAX_DAY: u64 = 2_932_896;

/// Whether the Gregorian calendar gives `year` a 29th of February.
pub open spec fn is_leap_year(year: int) -> bool {
    year % 4 == 0 && (year % 100 != 0 || year % 400 == 0)
}

pub open spec fn days_in_year(year: int) -> int {
    if is_leap_year(year) {
        366
    } else {
        365
    }
}

pub open spec fn days_in_month(year: int, month: int) -> int {
    if month == 2 {
        if is_leap_year(year) {
            29
        } else {
            28
        }
    } else if month == 4 || month == 6 || month == 9 || month == 11 {
        30
    } else {
        31
    }
}

/// The days of `year` that lie before the first of `month`.
pub open spec fn days_before_month(year: int, month: int) -> int
    decreases month,
{
    if month <= 1 {
        0
    } else {
        days_before_month(year, month - 1) + days_in_month(year, month - 1)
    }
}

/// The days from the first of January 1970 up to the first of January of
/// `year`.
pub open spec fn days_before_year(year: int) -> int
    decreases year,
{
    if year <= 1970 {
        0
    } else {
        days_before_year(year - 1) + days_in_year(year - 1)
    }
}

/// A day of the Gregorian calendar, in the years 1970 to 9999.
#[derive(Debug, Clone, Copy, PartialEq, Eq, Structural)]
pub struct Date {
    pub year: u16,
    pub month: u8,
    pub day: u8,
}

impl Date {
    /// Whether the calendar has this day.
    pub open spec fn valid(self) -> bool {
        &&& 1970 <= self.year <= 9999
        &&& 1 <= self.month <= 12
        &&& 1 <= self.day <= days_in_month(self.year as int, self.month as int)
    }

    /// The days from the first of January 1970 up to this day.
    pub open spec fn day_number(self) -> int {
        days_before_year(self.year as int) + days_before_month(
            self.year as int,
            self.month as int,
        ) + self.day - 1
    }
}

/// The day of the calendar that lies `day` days after the first of January
/// 1970.
pub open spec fn date_of_day(day: int) -> Date {
    choose|date: Date| date.valid() && date.day_number() == day
}

/// The days before each month, spelled out.
proof fn lemma_days_before_month(year: int)
    ensures
        days_before_month(year, 1) == 0,
        days_before_month(year, 2) == 31,
        days_before_month(year, 3) == 31 + days_in_month(year, 2),
        days_before_month(year, 4) == 62 + days_in_month(year, 2),
        days_before_month(year, 5) == 92 + days_in_month(year, 2),
        days_before_month(year, 6) == 123 + days_in_month(year, 2),
        days_before_month(year, 7) == 153 + days_in_month(year, 2),
        days_before_month(year, 8) == 184 + days_in_month(year, 2),
        days_before_month(year, 9) == 215 + days_in_month(year, 2),
        days_before_month(year, 10) == 245 + days_in_month(year, 2),
        days_before_month(year, 11) == 276 + days_in_month(year, 2),
        days_before_month(year, 12) == 306 + days_in_month(year, 2),
        days_before_month(year, 13) == days_in_year(year),
{
    reveal_with_fuel(days_before_month, 14);
}

/// The days before a year, without counting year by year.
proof fn lemma_days_before_year(year: int)
    requires
        1970 <= year,
    ensures
        days_before_year(year) == 365 * (year - 1970) + (year - 1969) / 4 - (year - 1901) / 100
            + (year - 1601) / 400,
    decreases year,
{
    if year > 1970 {
        lemma_days_before_year(year - 1);
    }
}

/// Later years begin later.
proof fn lemma_years_in_order(earlier: int, later: int)
    requires
        1970 <= earlier <= later,
    ensures
        days_before_year(earlier) <= days_before_year(later),
    decreases later - earlier,
{
    if earlier < later {
        lemma_years_in_order(earlier, later - 1);
    }
}

/// A valid day lies within its year.
proof fn lemma_day_within_year(date: Date)
    requires
        date.valid(),
    ensures
        days_before_year(date.year as int) <= date.day_number() < days_before_year(
            date.year as int + 1,
        ),
{
    lemma_days_before_month(date.year as int);
}

/// No two days of the calendar have the same day number.
pub proof fn lemma_day_number_is_unique(a: Date, b: Date)
    requires
        a.valid(),
        b.valid(),
        a.day_number() == b.day_number(),
    ensures
        a == b,
{
    lemma_day_within_year(a);
    lemma_day_within_year(b);
    if a.year < b.year {
        lemma_years_in_order(a.year as int + 1, b.year as int);
    } else if b.year < a.year {
        lemma_years_in_order(b.year as int + 1, a.year as int);
    } else {
        lemma_days_before_month(a.year as int);
    }
}

/// A valid day is the day that the calendar assigns to its day number.
pub proof fn lemma_date_of_its_day_number(date: Date)
    requires
        date.valid(),
    ensures
        date_of_day(date.day_number()) == date,
{
    let found = date_of_day(date.day_number());
    lemma_day_number_is_unique(found, date);
}

fn leap_year(year: u16) -> (leap: bool)
    ensures
        leap == is_leap_year(year as int),
{
    year % 4 == 0 && (year % 100 != 0 || year % 400 == 0)
}

fn month_length(year: u16, month: u8) -> (days: u64)
    ensures
        days == days_in_month(year as int, month as int),
{
    if month == 2 {
        if leap_year(year) {
            29
        } else {
            28
        }
    } else if month == 4 || month == 6 || month == 9 || month == 11 {
        30
    } else {
        31
    }
}

fn year_start(year: u16) -> (days: u64)
    requires
        1970 <= year <= 10000,
    ensures
        days == days_before_year(year as int),
{
    proof {
        lemma_days_before_year(year as int);
    }
    let year = year as u64;
    365 * (year - 1970) + (year - 1969) / 4 - (year - 1901) / 100 + (year - 1601) / 400
}

/// Finds the calendar day for a day number: first the year, starting from the
/// latest year it could be, then the month.
pub fn date_from_day(day: u64) -> (date: Date)
    requires
        day <= MAX_DAY,
    ensures
        date.valid(),
        date.day_number() == day,
        date == date_of_day(day as int),
{
    let mut year: u16 = (1970 + day / 365) as u16;
    proof {
        lemma_days_before_year(year as int + 1);
        lemma_days_before_year(10000);
    }
    if year > 9999 {
        year = 9999;
    }
    let mut start = year_start(year);
    while start > day
        invariant
            1970 <= year <= 9999,
            start == days_before_year(year as int),
            day < days_before_year(year as int + 1),
        decreases year,
    {
        year = year - 1;
        start = year_start(year);
    }
    let mut left = day - start;
    let mut month: u8 = 1;
    proof {
        lemma_days_before_month(year as int);
    }
    while month < 12 && left >= month_length(year, month)
        invariant
            1970 <= year <= 9999,
            1 <= month <= 12,
            left == day - days_before_year(year as int) - days_before_month(
                year as int,
                month as int,
            ),
            day < days_before_year(year as int + 1),
        decreases 12 - month,
    {
        left = left - month_length(year, month);
        month = month + 1;
    }
    proof {
        lemma_days_before_month(year as int);
    }
    let date = Date { year, month, day: (left + 1) as u8 };
    proof {
        lemma_date_of_its_day_number(date);
    }
    date
}

/// The date and time of `millis`, a count of milliseconds since the Unix
/// epoch, in UTC and in the form `2016-04-30T11:18:25.796Z`.
pub open spec fn rfc3339(millis: int) -> Seq<char> {
    let date = date_of_day(millis / MILLIS_PER_DAY as int);
    let in_day = millis % MILLIS_PER_DAY as int;
    four_digits(date.year as int) + seq!['-'] + two_digits(date.month as int) + seq!['-']
        + two_digits(date.day as int) + seq!['T'] + two_digits(in_day / 3_600_000) + seq![':']
        + two_digits(in_day / 60_000 % 60) + seq![':'] + two_digits(in_day / 1000 % 60) + seq!['.']
        + three_digits(in_day % 1000) + seq!['Z']
}

/// A count of milliseconds that no timestamp can hold.
#[derive(Debug, Clone, Copy, PartialEq, Eq, Structural)]
pub struct InvalidTimestamp;

/// A point in time between the start of 1970 and the end of 9999, to the
/// millisecond.
#[derive(Debug, Clone, Copy, PartialEq, Eq, PartialOrd, Ord, Hash, Structural)]
pub struct Timestamp {
    millis: u64,
}

impl Timestamp {
    #[verifier::type_invariant]
    spec fn in_range(self) -> bool {
        self.millis <= MAX_MILLIS
    }

    /// The milliseconds from the Unix epoch to this point in time.
    pub closed spec fn view(&self) -> int {
        self.millis as int
    }

    /// The point in time `millis` milliseconds after the Unix epoch, if that
    /// lies between 1970 and 9999.
    pub fn from_millis(millis: i64) -> (made: Result<Timestamp, InvalidTimestamp>)
        ensures
            match made {
                Ok(timestamp) => 0 <= millis <= MAX_MILLIS && timestamp@ == millis,
                Err(_) => millis < 0 || millis > MAX_MILLIS,
            },
    {
        if millis < 0 || millis > MAX_MILLIS as i64 {
            Err(InvalidTimestamp)
        } else {
            Ok(Timestamp { millis: millis as u64 })
        }
    }

    /// The time at which the identifier `id` was made: its upper 42 bits are
    /// the milliseconds that had passed since [`DISCORD_EPOCH`].
    pub fn from_discord_id(id: u64) -> (timestamp: Timestamp)
        ensures
            timestamp@ == (id >> 22) + DISCORD_EPOCH,
            timestamp@ - DISCORD_EPOCH == id >> 22,
    {
        assert(id >> 22 <= 0x3ff_ffff_ffff) by (bit_vector);
        Timestamp { millis: (id >> 22) + DISCORD_EPOCH }
    }

    /// Whole seconds since the Unix epoch.
    pub fn unix_timestamp(&self) -> (seconds: i64)
        ensures
            seconds == self@ / 1000,
    {
        proof {
            use_type_invariant(self);
        }
        (self.millis / 1000) as i64
    }

    /// Milliseconds since the Unix epoch.
    pub fn unix_timestamp_millis(&self) -> (millis: i64)
        ensures
            millis == self@,
            0 <= millis <= MAX_MILLIS,
    {
        proof {
            use_type_invariant(self);
        }
        self.millis as i64
    }

    /// The calendar day, in UTC, on which this point in time falls.
    pub fn date(&self) -> (date: Date)
        ensures
            date == date_of_day(self@ / MILLIS_PER_DAY as int),
            date.valid(),
    {
        proof {
            use_type_invariant(self);
        }
        date_from_day(self.millis / MILLIS_PER_DAY)
    }

    /// This point in time as text: date and time in UTC, with milliseconds.
    pub fn to_string(&self) -> (text: String)
        ensures
            text@ == rfc3339(self@),
    {
        proof {
            use_type_invariant(self);
        }
        let date = date_from_day(self.millis / MILLIS_PER_DAY);
        let in_day = self.millis % MILLIS_PER_DAY;
        let mut text = String::new();
        push_four_digits(&mut text, date.year as u64);
        text.push('-');
        push_two_digits(&mut text, date.month as u64);
        text.push('-');
        push_two_digits(&mut text, date.day as u64);
        text.push('T');
        push_two_digits(&mut text, in_day / 3_600_000);
        text.push(':');
        push_two_digits(&mut text, in_day / 60_000 % 60);
        text.push(':');
        push_two_digits(&mut text, in_day / 1000 % 60);
        text.push('.');
        push_three_digits(&mut text, in_day % 1000);
        text.push('Z');
        assert(text@ =~= rfc3339(self@));
        text
    }
}

} // verus!
