//! UTC timestamps as the log records them: calendar date and time of day to
//! the second. Parsing of the ADIF date and time texts is done by `chrono`;
//! the fixed-width renderings are written here.
use chrono::{Datelike, Timelike};
use vstd::prelude::*;

use crate::text::{
    dec, dec_chars, dec_chars_padded, dec_padded, str_trim, string_from_chars, trim,
};
use vstd::utf8::encode_utf8;

verus! {

/// A UTC date and time of day, to the second.
#[derive(Debug, Clone, Copy, PartialEq, Eq, Structural, PartialOrd, Ord, Hash)]
pub struct UtcDateTime {
    pub year: i32,
    pub month: u8,
    pub day: u8,
    pub hour: u8,
    pub minute: u8,
    pub second: u8,
}

/// What `NaiveDate::parse_from_str(s, "%Y%m%d")` gives, as
/// (year, month, day).
pub uninterp spec fn chrono_date_ymd(s: Seq<char>) -> Option<(i32, u32, u32)>;

/// What `NaiveTime::parse_from_str(s, "%H%M")` gives, as (hour, minute).
pub uninterp spec fn chrono_time_hm(s: Seq<char>) -> Option<(u32, u32)>;

/// What `NaiveTime::parse_from_str(s, "%H%M%S")` gives, as
/// (hour, minute, second).
pub uninterp spec fn chrono_time_hms(s: Seq<char>) -> Option<(u32, u32, u32)>;

/// `chrono::NaiveDate::parse_from_str(s, "%Y%m%d")`, read back as
/// (year, month, day). The result is named; chrono's documentation gives
/// months 1 to 12 and days 1 to 31.
#[verifier::external_body]
pub(crate) fn chrono_parse_ymd(s: &str) -> (r: Option<(i32, u32, u32)>)
    ensures
        r == chrono_date_ymd(s@),
        r matches Some((y, m, d)) ==> 1 <= m <= 12 && 1 <= d <= 31,
{
    chrono::NaiveDate::parse_from_str(s, "%Y%m%d").ok().map(|d| (d.year(), d.month(), d.day()))
}

/// `chrono::NaiveTime::parse_from_str(s, "%H%M")`, read back as (hour,
/// minute). The result is named; chrono's documentation gives hours below 24
/// and minutes below 60.
#[verifier::external_body]
pub(crate) fn chrono_parse_hm(s: &str) -> (r: Option<(u32, u32)>)
    ensures
        r == chrono_time_hm(s@),
        r matches Some((h, m)) ==> h < 24 && m < 60,
{
    chrono::NaiveTime::parse_from_str(s, "%H%M").ok().map(|t| (t.hour(), t.minute()))
}

/// `chrono::NaiveTime::parse_from_str(s, "%H%M%S")`, read back as (hour,
/// minute, second). The result is named; chrono's documentation gives hours
/// below 24 and minutes and seconds below 60.
#[verifier::external_body]
pub(crate) fn chrono_parse_hms(s: &str) -> (r: Option<(u32, u32, u32)>)
    ensures
        r == chrono_time_hms(s@),
        r matches Some((h, m, sec)) ==> h < 24 && m < 60 && sec < 60,
{
    chrono::NaiveTime::parse_from_str(s, "%H%M%S").ok().map(
        |t| (t.hour(), t.minute(), t.second()),
    )
}

/// Whether chrono's `NaiveDate` holds dates of year `y`.
pub open spec fn year_in_range(y: int) -> bool {
    -262143 <= y <= 262142
}

/// The leap years from year 0 up to, not including, year `y`; negative,
/// the leap years from `y` up to year 0, for a year before 0.
pub open spec fn leap_years_before(y: int) -> int {
    (y - 1) / 4 - (y - 1) / 100 + (y - 1) / 400 + 1
}

/// The days of the months of year `y` before month `m`.
pub open spec fn days_before_month(y: int, m: int) -> int
    decreases m,
{
    if m <= 1 {
        0
    } else {
        days_before_month(y, m - 1) + days_in_month(y, m - 1)
    }
}

/// The seconds from 0000-01-01 00:00:00 to `t`, in the proleptic
/// Gregorian calendar.
pub open spec fn instant_secs(t: UtcDateTime) -> int {
    let days = 365 * t.year + leap_years_before(t.year as int) + days_before_month(
        t.year as int,
        t.month as int,
    ) + t.day - 1;
    days * 86400 + t.hour * 3600 + t.minute * 60 + t.second
}

/// The whole seconds from `from` to `to` (negative when `to` is earlier);
/// none when either is not a valid date and time of a year that chrono
/// holds.
pub open spec fn seconds_from(from: UtcDateTime, to: UtcDateTime) -> Option<i64> {
    if datetime_valid(from) && datetime_valid(to) && year_in_range(from.year as int)
        && year_in_range(to.year as int) {
        Some((instant_secs(to) - instant_secs(from)) as i64)
    } else {
        None
    }
}

/// `NaiveDateTime::signed_duration_since(..).num_seconds()`, after chrono's
/// `from_ymd_opt` and `and_hms_opt` accept both instants. Claimed: chrono
/// accepts a valid date and time of day whose year lies within its range,
/// and counts days in the proleptic Gregorian calendar, so the result is
/// `seconds_from(from, to)`.
#[verifier::external_body]
pub fn seconds_between(from: UtcDateTime, to: UtcDateTime) -> (r: Option<i64>)
    ensures
        r == seconds_from(from, to),
{
    let a = chrono::NaiveDate::from_ymd_opt(from.year, from.month as u32, from.day as u32)?
        .and_hms_opt(from.hour as u32, from.minute as u32, from.second as u32)?;
    let b = chrono::NaiveDate::from_ymd_opt(to.year, to.month as u32, to.day as u32)?
        .and_hms_opt(to.hour as u32, to.minute as u32, to.second as u32)?;
    Some(b.signed_duration_since(a).num_seconds())
}

/// `chrono::Utc::now()`, as fields. Which instant it is depends on the
/// clock and is not stated; chrono's date and time values always form a
/// valid calendar date and time of day.
#[verifier::external_body]
pub fn now_utc() -> (r: UtcDateTime)
    ensures
        datetime_valid(r),
{
    let n = chrono::Utc::now();
    UtcDateTime {
        year: n.year(),
        month: n.month() as u8,
        day: n.day() as u8,
        hour: n.hour() as u8,
        minute: n.minute() as u8,
        second: n.second() as u8,
    }
}

/// The date of an ADIF `QSO_DATE` text (`YYYYMMDD`, surrounding whitespace
/// ignored).
pub open spec fn adif_date(s: Seq<char>) -> Option<(i32, u32, u32)> {
    chrono_date_ymd(trim(s))
}

/// The time of day of an ADIF `TIME_ON`/`TIME_OFF` text: `HHMM` or
/// `HHMMSS` by its length in bytes, surrounding whitespace ignored.
pub open spec fn adif_time(s: Seq<char>) -> Option<(u32, u32, u32)> {
    let t = trim(s);
    if encode_utf8(t).len() as usize == 4 {
        match chrono_time_hm(t) {
            Some((h, m)) => Some((h, m, 0u32)),
            None => None,
        }
    } else if encode_utf8(t).len() as usize == 6 {
        chrono_time_hms(t)
    } else {
        None
    }
}

/// The timestamp of an ADIF date and time pair.
pub open spec fn adif_datetime(date: Seq<char>, time: Seq<char>) -> Option<UtcDateTime> {
    match (adif_date(date), adif_time(time)) {
        (Some((y, mo, d)), Some((h, mi, s))) => Some(
            UtcDateTime {
                year: y,
                month: mo as u8,
                day: d as u8,
                hour: h as u8,
                minute: mi as u8,
                second: s as u8,
            },
        ),
        _ => None,
    }
}

/// The midnight that starts an ADIF date.
pub open spec fn adif_midnight(date: Seq<char>) -> Option<UtcDateTime> {
    match adif_date(date) {
        Some((y, mo, d)) => Some(
            UtcDateTime { year: y, month: mo as u8, day: d as u8, hour: 0, minute: 0, second: 0 },
        ),
        None => None,
    }
}

pub fn parse_adif_date(s: &str) -> (r: Option<(i32, u32, u32)>)
    ensures
        r == adif_date(s@),
        r matches Some((y, m, d)) ==> 1 <= m <= 12 && 1 <= d <= 31,
{
    chrono_parse_ymd(str_trim(s))
}

pub fn parse_adif_time(s: &str) -> (r: Option<(u32, u32, u32)>)
    ensures
        r == adif_time(s@),
        r matches Some((h, m, sec)) ==> h < 24 && m < 60 && sec < 60,
{
    let t = str_trim(s);
    if t.len() == 4 {
        match chrono_parse_hm(t) {
            Some((h, m)) => Some((h, m, 0)),
            None => None,
        }
    } else if t.len() == 6 {
        chrono_parse_hms(t)
    } else {
        None
    }
}

/// Timestamp of an ADIF `QSO_DATE` + `TIME_ON` pair.
pub fn parse_adif_datetime(date: &str, time: &str) -> (r: Option<UtcDateTime>)
    ensures
        r == adif_datetime(date@, time@),
{
    let d = parse_adif_date(date);
    let (y, mo, dd) = match d {
        Some(v) => v,
        None => return None,
    };
    let (h, mi, s) = match parse_adif_time(time) {
        Some(v) => v,
        None => return None,
    };
    Some(
        UtcDateTime {
            year: y,
            month: mo as u8,
            day: dd as u8,
            hour: h as u8,
            minute: mi as u8,
            second: s as u8,
        },
    )
}

/// Midnight UTC of an ADIF date.
pub fn parse_adif_midnight(date: &str) -> (r: Option<UtcDateTime>)
    ensures
        r == adif_midnight(date@),
{
    match parse_adif_date(date) {
        Some((y, mo, d)) => Some(
            UtcDateTime { year: y, month: mo as u8, day: d as u8, hour: 0, minute: 0, second: 0 },
        ),
        None => None,
    }
}

/// chrono's `%Y`: four digits, zero-padded, for years 0 to 9999; a sign in
/// front otherwise.
pub open spec fn year_text(y: int) -> Seq<char> {
    if 0 <= y <= 9999 {
        dec_padded(y as nat, 4)
    } else if y > 9999 {
        seq!['+'] + dec(y as nat)
    } else {
        seq!['-'] + dec_padded((-y) as nat, 4)
    }
}

/// Two-digit zero-padded rendering (`%m`, `%d`, `%H`, `%M`, `%S`).
pub open spec fn two_digits(n: nat) -> Seq<char> {
    dec_padded(n, 2)
}

/// `%Y%m%d`.
pub open spec fn date_compact(t: UtcDateTime) -> Seq<char> {
    year_text(t.year as int) + two_digits(t.month as nat) + two_digits(t.day as nat)
}

/// `%Y-%m-%d`.
pub open spec fn date_dashed(t: UtcDateTime) -> Seq<char> {
    year_text(t.year as int) + seq!['-'] + two_digits(t.month as nat) + seq!['-'] + two_digits(
        t.day as nat,
    )
}

/// `%H%M%S`.
pub open spec fn time_compact(t: UtcDateTime) -> Seq<char> {
    two_digits(t.hour as nat) + two_digits(t.minute as nat) + two_digits(t.second as nat)
}

fn year_chars(y: i32) -> (r: Vec<char>)
    ensures
        r@ == year_text(y as int),
{
    if 0 <= y && y <= 9999 {
        dec_chars_padded(y as u64, 4)
    } else if y > 9999 {
        let mut v: Vec<char> = Vec::new();
        v.push('+');
        let mut d = dec_chars(y as u64);
        v.append(&mut d);
        v
    } else {
        let mut v: Vec<char> = Vec::new();
        v.push('-');
        let m: u64 = (-(y as i64)) as u64;
        let mut d = dec_chars_padded(m, 4);
        v.append(&mut d);
        v
    }
}

/// Whether `y` is a leap year of the Gregorian calendar.
pub open spec fn is_leap_year(y: int) -> bool {
    (y % 4 == 0 && y % 100 != 0) || y % 400 == 0
}

/// The number of days of month `m` of year `y`.
pub open spec fn days_in_month(y: int, m: int) -> int {
    if m == 2 {
        if is_leap_year(y) {
            29
        } else {
            28
        }
    } else if m == 4 || m == 6 || m == 9 || m == 11 {
        30
    } else {
        31
    }
}

/// A date and time that exists on the calendar.
pub open spec fn datetime_valid(t: UtcDateTime) -> bool {
    &&& 1 <= t.month <= 12
    &&& 1 <= t.day <= days_in_month(t.year as int, t.month as int)
    &&& t.hour < 24
    &&& t.minute < 60
    &&& t.second < 60
}

/// `%H:%M:%S`.
pub open spec fn clock_text(t: UtcDateTime) -> Seq<char> {
    two_digits(t.hour as nat) + seq![':'] + two_digits(t.minute as nat) + seq![':'] + two_digits(
        t.second as nat,
    )
}

/// RFC 3339 text of a UTC instant with no fraction of a second, as
/// chrono's `to_rfc3339` writes it: `%Y-%m-%dT%H:%M:%S+00:00`.
pub open spec fn rfc3339_text(t: UtcDateTime) -> Seq<char> {
    date_dashed(t) + seq!['T'] + clock_text(t) + seq!['+', '0', '0', ':', '0', '0']
}

/// What `chrono::DateTime::parse_from_rfc3339` reads from a text, taken
/// to UTC and to the second.
pub uninterp spec fn rfc3339_instant(s: Seq<char>) -> Option<UtcDateTime>;

/// `chrono::DateTime::parse_from_rfc3339`, taken to UTC and to the
/// second. The parser takes a four-digit year, so the RFC 3339 text of a
/// calendar instant of the years 0 to 9999 reads back as that instant.
/// The text of the error is chrono's own and is not described.
#[verifier::external_body]
pub(crate) fn parse_rfc3339(s: &str) -> (r: Result<UtcDateTime, String>)
    ensures
        r matches Ok(t) ==> rfc3339_instant(s@) == Some(t),
        r is Err ==> rfc3339_instant(s@) is None,
        r is Ok || forall|t: UtcDateTime|
            !(datetime_valid(t) && 0 <= t.year <= 9999 && s@ == #[trigger] rfc3339_text(t)),
        r matches Ok(x) ==> forall|t: UtcDateTime|
            datetime_valid(t) && 0 <= t.year <= 9999 && s@ == #[trigger] rfc3339_text(t) ==> x == t,
{
    match chrono::DateTime::parse_from_rfc3339(s) {
        Ok(d) => {
            let n = d.with_timezone(&chrono::Utc);
            Ok(UtcDateTime {
                year: n.year(),
                month: n.month() as u8,
                day: n.day() as u8,
                hour: n.hour() as u8,
                minute: n.minute() as u8,
                second: n.second() as u8,
            })
        },
        Err(e) => Err(e.to_string()),
    }
}

impl UtcDateTime {
    /// RFC 3339 text, `%Y-%m-%dT%H:%M:%S+00:00`.
    pub fn to_rfc3339(&self) -> (r: String)
        ensures
            r@ == rfc3339_text(*self),
    {
        let mut v = year_chars(self.year);
        v.push('-');
        let mut m = dec_chars_padded(self.month as u64, 2);
        v.append(&mut m);
        v.push('-');
        let mut d = dec_chars_padded(self.day as u64, 2);
        v.append(&mut d);
        v.push('T');
        let mut h = dec_chars_padded(self.hour as u64, 2);
        v.append(&mut h);
        v.push(':');
        let mut mi = dec_chars_padded(self.minute as u64, 2);
        v.append(&mut mi);
        v.push(':');
        let mut se = dec_chars_padded(self.second as u64, 2);
        v.append(&mut se);
        v.push('+');
        v.push('0');
        v.push('0');
        v.push(':');
        v.push('0');
        v.push('0');
        assert(v@ =~= rfc3339_text(*self));
        string_from_chars(v.as_slice())
    }

    /// `%H:%M:%S`.
    pub fn clock(&self) -> (r: String)
        ensures
            r@ == clock_text(*self),
    {
        let mut v = dec_chars_padded(self.hour as u64, 2);
        v.push(':');
        let mut mi = dec_chars_padded(self.minute as u64, 2);
        v.append(&mut mi);
        v.push(':');
        let mut se = dec_chars_padded(self.second as u64, 2);
        v.append(&mut se);
        assert(v@ =~= clock_text(*self));
        string_from_chars(v.as_slice())
    }

    /// `%Y%m%d`.
    pub fn date_compact(&self) -> (r: String)
        ensures
            r@ == date_compact(*self),
    {
        let mut v = year_chars(self.year);
        let mut m = dec_chars_padded(self.month as u64, 2);
        let mut d = dec_chars_padded(self.day as u64, 2);
        v.append(&mut m);
        v.append(&mut d);
        string_from_chars(v.as_slice())
    }

    /// `%Y-%m-%d`.
    pub fn date_dashed(&self) -> (r: String)
        ensures
            r@ == date_dashed(*self),
    {
        let mut v = year_chars(self.year);
        v.push('-');
        let mut m = dec_chars_padded(self.month as u64, 2);
        v.append(&mut m);
        v.push('-');
        let mut d = dec_chars_padded(self.day as u64, 2);
        v.append(&mut d);
        string_from_chars(v.as_slice())
    }

    /// `%H%M%S`.
    pub fn time_compact(&self) -> (r: String)
        ensures
            r@ == time_compact(*self),
    {
        let mut v = dec_chars_padded(self.hour as u64, 2);
        let mut m = dec_chars_padded(self.minute as u64, 2);
        let mut s = dec_chars_padded(self.second as u64, 2);
        v.append(&mut m);
        v.append(&mut s);
        string_from_chars(v.as_slice())
    }

    /// Whether both fall on the same UTC date.
    pub fn same_date(&self, other: &UtcDateTime) -> (r: bool)
        ensures
            r == (self.year == other.year && self.month == other.month && self.day == other.day),
    {
        self.year == other.year && self.month == other.month && self.day == other.day
    }
}

} // verus!
