//! Reading the ADIF reports that QSL services send back: field lookup in
//! a parsed record and the `YYYY-MM-DD` form of an ADIF date.
use vstd::prelude::*;

use crate::adif::{record_view, AdifField, FieldV};
use crate::datetime::{chrono_parse_hm, chrono_parse_hms, chrono_parse_ymd, chrono_date_ymd, chrono_time_hm, chrono_time_hms, UtcDateTime};
use crate::import::{get_str, get_upper, lookup, opt_upper, opt_view};
use crate::text::{chars_of, is_ascii_alnum, str_trim, string_from_chars, trim};
use crate::value::string_of;
use vstd::string::StringSliceAdditionalSpecFns;
use vstd::utf8::encode_utf8;

verus! {

/// Every character is ASCII.
pub open spec fn all_ascii(s: Seq<char>) -> bool {
    forall|i: int| 0 <= i < s.len() ==> (#[trigger] s[i] as u32) < 128
}

/// An ADIF date `YYYYMMDD` as `YYYY-MM-DD`; other text (after trimming)
/// is kept as it is. Only eight ASCII characters are split.
pub open spec fn iso_date(d: Seq<char>) -> Seq<char> {
    let s = trim(d);
    if s.len() == 8 && all_ascii(s) {
        s.subrange(0, 4) + "-"@ + s.subrange(4, 6) + "-"@ + s.subrange(6, 8)
    } else {
        s
    }
}

pub fn format_iso_date(d: &str) -> (r: String)
    ensures
        r@ == iso_date(d@),
{
    let s = chars_of(str_trim(d));
    let mut ascii = true;
    let mut i: usize = 0;
    while i < s.len()
        invariant
            i <= s.len(),
            ascii == forall|k: int| 0 <= k < i ==> (#[trigger] s@[k] as u32) < 128,
        decreases s.len() - i,
    {
        if (s[i] as u32) >= 128 {
            ascii = false;
        }
        i = i + 1;
    }
    if s.len() == 8 && ascii {
        let v: Vec<char> = vec![s[0], s[1], s[2], s[3], '-', s[4], s[5], '-', s[6], s[7]];
        proof {
            reveal_strlit("-");
        }
        let r = string_from_chars(v.as_slice());
        assert(r@ =~= iso_date(d@));
        r
    } else {
        string_from_chars(s.as_slice())
    }
}

/// The value of the first field called `name`.
pub fn field_value(record: &Vec<AdifField>, name: &str) -> (r: Option<String>)
    ensures
        opt_view(r) == lookup(record_view(record@), name@),
{
    get_str(record, &string_of(name))
}

/// The upper-cased value of the first field called `name`.
pub fn field_upper(record: &Vec<AdifField>, name: &str) -> (r: Option<String>)
    ensures
        opt_view(r) == opt_upper(lookup(record_view(record@), name@)),
{
    get_upper(record, &string_of(name))
}

/// The time of day of a QSL-received time: `HHMM` or `HHMMSS` by its
/// length in bytes, midnight when absent or of another length.
pub open spec fn qslr_time(t: Option<Seq<char>>) -> Option<(u32, u32, u32)> {
    let s = match t {
        Some(x) => x,
        None => "0000"@,
    };
    if encode_utf8(s).len() as usize == 4 {
        match chrono_time_hm(s) {
            Some((h, m)) => Some((h, m, 0u32)),
            None => None,
        }
    } else if encode_utf8(s).len() as usize == 6 {
        chrono_time_hms(s)
    } else {
        Some((0u32, 0u32, 0u32))
    }
}

/// The instant a QSL was received: its `YYYYMMDD` date (trimmed) and its
/// time.
pub open spec fn qslr_instant(date: Seq<char>, time: Option<Seq<char>>) -> Option<UtcDateTime> {
    match (chrono_date_ymd(trim(date)), qslr_time(time)) {
        (Some((y, mo, d)), Some((h, mi, s))) => Some(
            UtcDateTime {
                year: y,
                month: mo as u8,
                day: d as u8,
                hour: h as u8,
                minute: mi as u8,
                second: s as u8,
            },
        ),
        _ => None,
    }
}

pub fn parse_qslrdate(date: &str, time: Option<&str>) -> (r: Option<UtcDateTime>)
    ensures
        r == qslr_instant(
            date@,
            match time {
                Some(t) => Some(t@),
                None => None,
            },
        ),
{
    let (y, mo, d) = match chrono_parse_ymd(str_trim(date)) {
        Some(v) => v,
        None => return None,
    };
    let t = match time {
        Some(x) => x,
        None => "0000",
    };
    let (h, mi, s) = if t.len() == 4 {
        match chrono_parse_hm(t) {
            Some((h, m)) => (h, m, 0u32),
            None => return None,
        }
    } else if t.len() == 6 {
        match chrono_parse_hms(t) {
            Some(v) => v,
            None => return None,
        }
    } else {
        (0u32, 0u32, 0u32)
    };
    Some(
        UtcDateTime {
            year: y,
            month: mo as u8,
            day: d as u8,
            hour: h as u8,
            minute: mi as u8,
            second: s as u8,
        },
    )
}

/// A report row counts when it names the worked callsign and the date.
pub open spec fn names_call_and_date(rec: Seq<FieldV>) -> bool {
    lookup(rec, "CALL"@) is Some && lookup(rec, "QSO_DATE"@) is Some
}

/// Positions, below `n`, of the rows that name a callsign and a date.
pub open spec fn reported_positions(recs: Seq<Seq<FieldV>>, n: int) -> Seq<int>
    decreases n,
{
    if n <= 0 {
        seq![]
    } else if names_call_and_date(recs[n - 1]) {
        reported_positions(recs, n - 1).push(n - 1)
    } else {
        reported_positions(recs, n - 1)
    }
}

} // verus!
