//! Publication time: six calendar fields, always read as UTC.

use crate::error::Error;
use crate::text::{
    decimal, four_at, is_digit, lemma_decimal, lemma_two_digits, push_decimal, push_signed,
    push_two_digits, signed_decimal, two_at, two_digits,
};
use chrono::{Datelike, Timelike};
use vstd::prelude::*;
use vstd::string::*;

verus! {

/// The error that chrono reports for a text that is no date and time.
#[verifier::external_type_specification]
#[verifier::external_body]
pub struct ExParseError(chrono::ParseError);

/// The Unix timestamp that chrono reads out of an RFC 3339 text, where it
/// accepts the text.
pub uninterp spec fn rfc3339_seconds(text: Seq<char>) -> Option<i64>;

/// A point in time, in UTC, as it is written in a document's header.
///
/// The fields are kept as they were read: nothing says that they form a
/// real calendar date until `timestamp` has accepted them.
#[derive(Clone, Copy, Debug, PartialEq, Eq, PartialOrd, Structural)]
pub struct Time {
    pub year: i32,
    pub month: u32,
    pub day: u32,
    pub hour: u32,
    pub minute: u32,
    pub second: u32,
}

/// `t` with its fields as they are, without padding.
pub open spec fn plain_text(t: Time) -> Seq<char> {
    signed_decimal(t.year as int) + seq!['-'] + decimal(t.month as nat) + seq!['-'] + decimal(
        t.day as nat,
    ) + seq!['T'] + decimal(t.hour as nat) + seq![':'] + decimal(t.minute as nat) + seq![':']
        + decimal(t.second as nat) + seq!['Z']
}

/// The date of `t` as `YYYY-MM-DD`.
pub open spec fn date_text(t: Time) -> Seq<char> {
    signed_decimal(t.year as int) + seq!['-'] + two_digits(t.month as nat) + seq!['-']
        + two_digits(t.day as nat)
}

/// `t` in RFC 3339 form, `YYYY-MM-DDTHH:MM:SSZ`.
pub open spec fn rfc3339_text(t: Time) -> Seq<char> {
    date_text(t) + seq!['T'] + two_digits(t.hour as nat) + seq![':'] + two_digits(
        t.minute as nat,
    ) + seq![':'] + two_digits(t.second as nat) + seq!['Z']
}

/// Reads the system clock through `chrono::Utc::now` and takes the calendar
/// fields of the answer. The clock decides the value; chrono promises the
/// ranges of the fields and that the day is one of its month. The call
/// aborts where the clock stands before 1970.
#[verifier::external_body]
fn utc_now() -> (t: Time)
    ensures
        1 <= t.month <= 12,
        1 <= t.day <= days_in_month(t.year as int, t.month as int),
        t.hour <= 23,
        t.minute <= 59,
        t.second <= 59,
{
    let utc = chrono::Utc::now();
    Time {
        year: utc.date_naive().year(),
        month: utc.date_naive().month(),
        day: utc.date_naive().day(),
        hour: utc.time().hour(),
        minute: utc.time().minute(),
        second: utc.time().second(),
    }
}

/// Whether `year` is a leap year of the Gregorian calendar.
pub open spec fn is_leap_year(year: int) -> bool {
    year % 4 == 0 && (year % 100 != 0 || year % 400 == 0)
}

/// The number of days of a month.
pub open spec fn days_in_month(year: int, month: int) -> int {
    if month == 2 {
        if is_leap_year(year) {
            29
        } else {
            28
        }
    } else if month == 4 || month == 6 || month == 9 || month == 11 {
        30
    } else {
        31
    }
}

/// Whether the fields of `t` form a date and time that has a timestamp: a
/// year of four digits, a day that the month has, and a time of day. The
/// second may be 60, for a leap second.
pub open spec fn is_date_time(t: Time) -> bool {
    &&& 1000 <= t.year <= 9999
    &&& 1 <= t.month <= 12
    &&& 1 <= t.day <= days_in_month(t.year as int, t.month as int)
    &&& t.hour <= 23
    &&& t.minute <= 59
    &&& t.second <= 60
}

/// The number of leap years from the year 1 up to, and without, `year`.
pub open spec fn leap_years_before(year: int) -> int {
    (year - 1) / 4 - (year - 1) / 100 + (year - 1) / 400
}

/// The number of days from 1970-01-01 to the first day of `year`.
pub open spec fn days_before_year(year: int) -> int {
    365 * (year - 1970) + leap_years_before(year) - leap_years_before(1970)
}

/// The number of days from the first day of `year` to the first day of
/// `month`.
pub open spec fn days_before_month(year: int, month: int) -> int {
    let leap: int = if month > 2 && is_leap_year(year) {
        1
    } else {
        0
    };
    leap + if month == 1 {
        0int
    } else if month == 2 {
        31
    } else if month == 3 {
        59
    } else if month == 4 {
        90
    } else if month == 5 {
        120
    } else if month == 6 {
        151
    } else if month == 7 {
        181
    } else if month == 8 {
        212
    } else if month == 9 {
        243
    } else if month == 10 {
        273
    } else if month == 11 {
        304
    } else {
        334
    }
}

/// The number of days from 1970-01-01 to the day of `t`.
pub open spec fn epoch_day(t: Time) -> int {
    days_before_year(t.year as int) + days_before_month(t.year as int, t.month as int) + t.day - 1
}

/// The number of seconds from 1970-01-01T00:00:00Z to `t`, without leap
/// seconds: a leap second counts as the second before it.
pub open spec fn epoch_seconds(t: Time) -> int {
    epoch_day(t) * 86400 + t.hour * 3600 + t.minute * 60 + if t.second <= 59 {
        t.second as int
    } else {
        59
    }
}

/// The timestamp of `t`, where it has one.
pub open spec fn timestamp_of(t: Time) -> Option<i64> {
    if is_date_time(t) {
        Some(epoch_seconds(t) as i64)
    } else {
        None
    }
}

/// Whether `c` can begin what follows the seconds in RFC 3339: a
/// fraction, or an offset from UTC.
pub open spec fn begins_offset(c: char) -> bool {
    c == '.' || c == 'Z' || c == 'z' || c == '+' || c == '-' || c == '\u{2212}'
}

/// Whether `s` begins as RFC 3339 asks: `YYYY-MM-DD`, one of `T`, `t` and
/// a blank, `HH:MM:SS`, and the beginning of a fraction or an offset.
pub open spec fn has_frame(s: Seq<char>) -> bool {
    &&& s.len() >= 20
    &&& is_digit(s[0]) && is_digit(s[1]) && is_digit(s[2]) && is_digit(s[3])
    &&& s[4] == '-'
    &&& is_digit(s[5]) && is_digit(s[6])
    &&& s[7] == '-'
    &&& is_digit(s[8]) && is_digit(s[9])
    &&& (s[10] == 'T' || s[10] == 't' || s[10] == ' ')
    &&& is_digit(s[11]) && is_digit(s[12])
    &&& s[13] == ':'
    &&& is_digit(s[14]) && is_digit(s[15])
    &&& s[16] == ':'
    &&& is_digit(s[17]) && is_digit(s[18])
    &&& begins_offset(s[19])
}

/// The time whose fields are the numbers in the frame of `s`.
pub open spec fn framed_time(s: Seq<char>) -> Time {
    Time {
        year: four_at(s, 0) as i32,
        month: two_at(s, 5) as u32,
        day: two_at(s, 8) as u32,
        hour: two_at(s, 11) as u32,
        minute: two_at(s, 14) as u32,
        second: two_at(s, 17) as u32,
    }
}

/// Whether `s` is a frame with nothing but `Z` behind it, and a year from
/// 1000 on.
pub open spec fn is_plain_utc(s: Seq<char>) -> bool {
    has_frame(s) && s.len() == 20 && s[19] == 'Z' && four_at(s, 0) >= 1000
}

/// Parses `text` with `chrono::DateTime::parse_from_rfc3339` and takes the
/// `timestamp()` of the date and time. Whether chrono accepts the text, and
/// the timestamp, depend on the text alone. chrono accepts no text
/// without the frame. Of a frame with `Z` behind it, it accepts exactly
/// those whose numbers form a date and time, and the timestamp then counts
/// the seconds since 1970-01-01T00:00:00Z without leap seconds.
#[verifier::external_body]
pub(crate) fn parse_rfc3339(text: &str) -> (r: Result<i64, chrono::ParseError>)
    ensures
        r is Ok <==> rfc3339_seconds(text@) is Some,
        r matches Ok(v) ==> rfc3339_seconds(text@) == Some(v),
        r is Ok ==> has_frame(text@),
        is_plain_utc(text@) ==> (r is Ok <==> is_date_time(framed_time(text@))),
        is_plain_utc(text@) ==> (r matches Ok(v) ==> v == epoch_seconds(framed_time(text@))),
{
    match chrono::DateTime::parse_from_rfc3339(text) {
        Ok(date) => Ok(date.timestamp()),
        Err(e) => Err(e),
    }
}

impl Time {
    /// A time from its six fields.
    pub fn new(year: i32, month: u32, day: u32, hour: u32, minute: u32, second: u32) -> (t: Time)
        ensures
            t == (Time { year, month, day, hour, minute, second }),
    {
        Time { year, month, day, hour, minute, second }
    }

    /// A time from the parts that a log entry is dated with: the second is
    /// zero, and the time zone is taken to be UTC whatever `_tz` says.
    pub fn from_parts(year: u32, month: u32, day: u32, hour: u32, minute: u32, _tz: String) -> (t:
        Time)
        requires
            year <= i32::MAX,
        ensures
            t == (Time { year: year as i32, month, day, hour, minute, second: 0 }),
    {
        Time { year: year as i32, month, day, hour, minute, second: 0 }
    }

    /// The time zone, which is always UTC.
    pub fn tz(&self) -> (s: String)
        ensures
            s@ == "UTC"@,
    {
        String::from_str("UTC")
    }

    /// The time with its fields as they are, without padding:
    /// `Y-M-DTh:m:sZ`.
    pub fn to_string(&self) -> (s: String)
        ensures
            s@ == plain_text(*self),
    {
        let mut s = String::new();
        push_signed(&mut s, self.year);
        s.push('-');
        push_decimal(&mut s, self.month as u64);
        s.push('-');
        push_decimal(&mut s, self.day as u64);
        s.push('T');
        push_decimal(&mut s, self.hour as u64);
        s.push(':');
        push_decimal(&mut s, self.minute as u64);
        s.push(':');
        push_decimal(&mut s, self.second as u64);
        s.push('Z');
        s
    }

    /// The current time in UTC.
    pub fn now() -> (t: Time)
        ensures
            1 <= t.month <= 12,
            1 <= t.day <= days_in_month(t.year as int, t.month as int),
            t.hour <= 23,
            t.minute <= 59,
            t.second <= 59,
    {
        utc_now()
    }

    pub fn year(&self) -> (y: i32)
        ensures
            y == self.year,
    {
        self.year
    }

    pub fn month(&self) -> (m: u32)
        ensures
            m == self.month,
    {
        self.month
    }

    pub fn day(&self) -> (d: u32)
        ensures
            d == self.day,
    {
        self.day
    }

    pub fn hour(&self) -> (h: u32)
        ensures
            h == self.hour,
    {
        self.hour
    }

    pub fn minute(&self) -> (m: u32)
        ensures
            m == self.minute,
    {
        self.minute
    }

    /// The date alone, `YYYY-MM-DD`.
    pub fn date_string(&self) -> (s: String)
        ensures
            s@ == date_text(*self),
    {
        let mut s = String::new();
        push_signed(&mut s, self.year);
        s.push('-');
        push_two_digits(&mut s, self.month);
        s.push('-');
        push_two_digits(&mut s, self.day);
        s
    }

    /// Date and time in RFC 3339 form.
    pub fn to_rfc_3339(&self) -> (s: String)
        ensures
            s@ == rfc3339_text(*self),
    {
        let mut s = self.date_string();
        s.push('T');
        push_two_digits(&mut s, self.hour);
        s.push(':');
        push_two_digits(&mut s, self.minute);
        s.push(':');
        push_two_digits(&mut s, self.second);
        s.push('Z');
        s
    }

    /// The number of seconds since 1970-01-01T00:00:00Z, where the fields
    /// form a date and time; else the error that chrono gave.
    pub fn timestamp(&self) -> (r: Result<i64, Error>)
        ensures
            match r {
                Ok(v) => timestamp_of(*self) == Some(v) && rfc3339_seconds(rfc3339_text(*self))
                    == Some(v),
                Err(e) => e is TimeError && timestamp_of(*self) is None && rfc3339_seconds(
                    rfc3339_text(*self),
                ) is None,
            },
    {
        let text = self.to_rfc_3339();
        proof {
            lemma_rfc3339_text(*self);
        }
        match parse_rfc3339(text.as_str()) {
            Ok(v) => Ok(v),
            Err(e) => Err(Error::TimeError(e)),
        }
    }

    /// Whether this time lies before `other`, field by field from the year
    /// down to the second.
    pub fn precedes(&self, other: &Time) -> (b: bool)
        ensures
            b == earlier(*self, *other),
    {
        if self.year != other.year {
            self.year < other.year
        } else if self.month != other.month {
            self.month < other.month
        } else if self.day != other.day {
            self.day < other.day
        } else if self.hour != other.hour {
            self.hour < other.hour
        } else if self.minute != other.minute {
            self.minute < other.minute
        } else {
            self.second < other.second
        }
    }
}

/// Whether `a` lies before `b`, field by field from the year down to the
/// second.
pub open spec fn earlier(a: Time, b: Time) -> bool {
    if a.year != b.year {
        a.year < b.year
    } else if a.month != b.month {
        a.month < b.month
    } else if a.day != b.day {
        a.day < b.day
    } else if a.hour != b.hour {
        a.hour < b.hour
    } else if a.minute != b.minute {
        a.minute < b.minute
    } else {
        a.second < b.second
    }
}

/// The length of a year in days.
pub open spec fn days_in_year(year: int) -> int {
    if is_leap_year(year) {
        366
    } else {
        365
    }
}

proof fn lemma_next_year(year: int)
    requires
        1 <= year,
    ensures
        days_before_year(year + 1) == days_before_year(year) + days_in_year(year),
{
}

proof fn lemma_years_grow(a: int, b: int)
    requires
        1 <= a < b,
    ensures
        days_before_year(a) + days_in_year(a) <= days_before_year(b),
    decreases b - a,
{
    lemma_next_year(a);
    if a + 1 < b {
        lemma_years_grow(a + 1, b);
    }
}

proof fn lemma_days_grow(a: Time, b: Time)
    requires
        is_date_time(a),
        is_date_time(b),
        a.year < b.year || (a.year == b.year && (a.month < b.month || (a.month == b.month && a.day
            < b.day))),
    ensures
        epoch_day(a) < epoch_day(b),
{
    if a.year < b.year {
        lemma_years_grow(a.year as int, b.year as int);
    }
}

proof fn lemma_seconds_grow(a: Time, b: Time)
    requires
        is_date_time(a),
        is_date_time(b),
        a.second <= 59,
        b.second <= 59,
        earlier(a, b),
    ensures
        epoch_seconds(a) < epoch_seconds(b),
{
    if a.year != b.year || a.month != b.month || a.day != b.day {
        lemma_days_grow(a, b);
    }
}

/// The order of two times, field by field, is the order of their
/// timestamps, as long as neither is a leap second.
pub proof fn lemma_order_is_that_of_timestamps(a: Time, b: Time)
    requires
        is_date_time(a),
        is_date_time(b),
        a.second <= 59,
        b.second <= 59,
    ensures
        earlier(a, b) <==> epoch_seconds(a) < epoch_seconds(b),
        a == b <==> epoch_seconds(a) == epoch_seconds(b),
{
    if earlier(a, b) {
        lemma_seconds_grow(a, b);
    } else if earlier(b, a) {
        lemma_seconds_grow(b, a);
    }
}

/// Whether each field of `t` is written with the number of digits that
/// RFC 3339 gives it: four for the year, two for the others.
pub open spec fn fills_frame(t: Time) -> bool {
    &&& 1000 <= t.year <= 9999
    &&& t.month <= 99
    &&& t.day <= 99
    &&& t.hour <= 99
    &&& t.minute <= 99
    &&& t.second <= 99
}

/// A time that is written out in RFC 3339 form is a frame with `Z`
/// behind it, and its numbers are the time's fields, where each field has
/// the number of digits that the frame gives it. Where one has not, what is
/// written is no frame.
pub proof fn lemma_rfc3339_text(t: Time)
    ensures
        fills_frame(t) ==> is_plain_utc(rfc3339_text(t)) && framed_time(rfc3339_text(t)) == t,
        !fills_frame(t) ==> !has_frame(rfc3339_text(t)),
{
    let s = rfc3339_text(t);
    let p1 = signed_decimal(t.year as int) + seq!['-'];
    let p2 = p1 + two_digits(t.month as nat) + seq!['-'];
    let p3 = p2 + two_digits(t.day as nat) + seq!['T'];
    let p4 = p3 + two_digits(t.hour as nat) + seq![':'];
    let p5 = p4 + two_digits(t.minute as nat) + seq![':'];
    if t.year >= 0 {
        lemma_decimal(t.year as nat);
    }
    lemma_two_digits(t.month as nat);
    lemma_two_digits(t.day as nat);
    lemma_two_digits(t.hour as nat);
    lemma_two_digits(t.minute as nat);
    lemma_two_digits(t.second as nat);
    assert forall|k: int| 0 <= k < p1.len() implies s[k] == p1[k] by {}
    assert forall|k: int| 0 <= k < p2.len() implies s[k] == p2[k] by {}
    assert forall|k: int| 0 <= k < p3.len() implies s[k] == p3[k] by {}
    assert forall|k: int| 0 <= k < p4.len() implies s[k] == p4[k] by {}
    assert forall|k: int| 0 <= k < p5.len() implies s[k] == p5[k] by {}
}

} // verus!
