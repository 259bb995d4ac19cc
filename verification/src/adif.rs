//! Reader for ADIF `.adi` text: a single pass over the bytes that collects
//! every record as a list of (upper-cased field name, value) pairs.
//!
//! Tags are read from the first byte on. A field is `<NAME:LEN[:T]>VALUE`,
//! where VALUE is exactly LEN bytes (cut short at the end of the input),
//! so a `<` inside a value is never taken for a tag. The first `<EOH>` tag
//! ends the header: what was read before it is dropped. A text without an
//! `<EOH>` tag has no header. `<EOR>` closes a record, `<EOF>` ends the
//! input, other marker tags are skipped. A record without a closing
//! `<EOR>` at the end is kept.
use vstd::prelude::*;

use vstd::string::StringSliceAdditionalSpecFns;

use vstd::utf8::{decode_utf8, valid_utf8};

use crate::text::{string_from_utf8_lossy, utf8_lossy};

verus! {

/// One field of a parsed record.
pub struct AdifField {
    pub name: String,
    pub value: String,
}

/// A field as a pair of character sequences.
pub type FieldV = (Seq<char>, Seq<char>);

impl View for AdifField {
    type V = FieldV;

    open spec fn view(&self) -> FieldV {
        (self.name@, self.value@)
    }
}

/// The view of a record.
pub open spec fn record_view(r: Seq<AdifField>) -> Seq<FieldV> {
    r.map_values(|f: AdifField| f@)
}

/// The view of a list of records.
pub open spec fn records_view(rs: Seq<Vec<AdifField>>) -> Seq<Seq<FieldV>> {
    rs.map_values(|r: Vec<AdifField>| record_view(r@))
}

pub open spec fn upper_byte(b: u8) -> u8 {
    if 97 <= b <= 122 {
        (b - 32) as u8
    } else {
        b
    }
}

/// A field name as the parser stores it: each byte upper-cased (ASCII) and
/// taken as the character with that code.
pub open spec fn name_chars(b: Seq<u8>) -> Seq<char> {
    b.map_values(|x: u8| upper_byte(x) as char)
}

/// `<[u8]>::eq_ignore_ascii_case`.
pub open spec fn eq_ignore_case(a: Seq<u8>, b: Seq<u8>) -> bool {
    a.len() == b.len() && forall|i: int| 0 <= i < a.len() ==> upper_byte(#[trigger] a[i]) == upper_byte(b[i])
}

pub open spec fn is_digit_byte(b: u8) -> bool {
    48 <= b <= 57
}

/// The text of a field value's bytes: their decoding when they are valid
/// UTF-8, else what `String::from_utf8_lossy` makes of them.
pub open spec fn lossy_text(b: Seq<u8>) -> Seq<char> {
    if valid_utf8(b) {
        decode_utf8(b)
    } else {
        utf8_lossy(b)
    }
}

/// First index at or after `pos` holding `x`, or `b.len()`.
pub open spec fn index_of_from(b: Seq<u8>, pos: int, x: u8) -> int
    decreases b.len() - pos,
{
    if pos >= b.len() {
        b.len() as int
    } else if b[pos] == x {
        pos
    } else {
        index_of_from(b, pos + 1, x)
    }
}

/// First index at or after `pos` holding `:` or `>`, or `b.len()`.
pub open spec fn name_end(b: Seq<u8>, pos: int) -> int
    decreases b.len() - pos,
{
    if pos >= b.len() {
        b.len() as int
    } else if b[pos] == 58 || b[pos] == 62 {
        pos
    } else {
        name_end(b, pos + 1)
    }
}

/// First index at or after `pos` that is not an ASCII digit, or `b.len()`.
pub open spec fn digits_end(b: Seq<u8>, pos: int) -> int
    decreases b.len() - pos,
{
    if pos >= b.len() {
        b.len() as int
    } else if !is_digit_byte(b[pos]) {
        pos
    } else {
        digits_end(b, pos + 1)
    }
}

pub proof fn lemma_index_of_bounds(b: Seq<u8>, pos: int, x: u8)
    requires
        0 <= pos,
    ensures
        pos <= index_of_from(b, pos, x) || pos > b.len(),
        index_of_from(b, pos, x) <= b.len(),
        index_of_from(b, pos, x) < b.len() ==> b[index_of_from(b, pos, x)] == x,
    decreases b.len() - pos,
{
    if pos < b.len() && b[pos] != x {
        lemma_index_of_bounds(b, pos + 1, x);
    }
}

pub proof fn lemma_name_end_bounds(b: Seq<u8>, pos: int)
    requires
        0 <= pos,
    ensures
        pos <= name_end(b, pos) || pos > b.len(),
        name_end(b, pos) <= b.len(),
        name_end(b, pos) < b.len() ==> (b[name_end(b, pos)] == 58 || b[name_end(b, pos)] == 62),
    decreases b.len() - pos,
{
    if pos < b.len() && !(b[pos] == 58 || b[pos] == 62) {
        lemma_name_end_bounds(b, pos + 1);
    }
}

pub proof fn lemma_digits_end_bounds(b: Seq<u8>, pos: int)
    requires
        0 <= pos,
    ensures
        pos <= digits_end(b, pos) || pos > b.len(),
        digits_end(b, pos) <= b.len(),
    decreases b.len() - pos,
{
    if pos < b.len() && is_digit_byte(b[pos]) {
        lemma_digits_end_bounds(b, pos + 1);
    }
}

pub proof fn lemma_header_end_bounds(b: Seq<u8>, i: int)
    requires
        0 <= i,
    ensures
        header_end_from(b, i) matches Some(p) ==> 0 <= p <= b.len(),
    decreases b.len() - i,
{
    if i < b.len() && !(b[i] == 60 && i + 4 < b.len() && eq_ignore_case(b.subrange(i + 1, i + 4), seq![69u8, 79u8, 72u8])
        && b[i + 4] == 62) {
        lemma_header_end_bounds(b, i + 1);
    }
}

/// Decimal value of a run of ASCII digits.
pub open spec fn digits_value(d: Seq<u8>) -> nat
    decreases d.len(),
{
    if d.len() == 0 {
        0
    } else {
        digits_value(d.drop_last()) * 10 + (d.last() - 48) as nat
    }
}

/// The declared length of a field: the digits read as a `usize`, or 0
/// where there are none or they do not fit.
pub open spec fn declared_length(d: Seq<u8>) -> nat {
    if d.len() > 0 && digits_value(d) <= usize::MAX {
        digits_value(d)
    } else {
        0
    }
}

/// Offset just after the first `<EOH>` tag (any case), if there is one.
pub open spec fn header_end_from(b: Seq<u8>, i: int) -> Option<int>
    decreases b.len() - i,
{
    if i >= b.len() {
        None
    } else if b[i] == 60 && i + 4 < b.len() && eq_ignore_case(b.subrange(i + 1, i + 4), seq![69u8, 79u8, 72u8])
        && b[i + 4] == 62 {
        Some(i + 5)
    } else {
        header_end_from(b, i + 1)
    }
}

/// The record being built, closed off if it has any field.
pub open spec fn close_record(cur: Seq<FieldV>, recs: Seq<Seq<FieldV>>) -> Seq<Seq<FieldV>> {
    if cur.len() > 0 {
        recs.push(cur)
    } else {
        recs
    }
}

/// The records read from position `pos` on, given the record `cur` being
/// built and the records `recs` already closed.
pub open spec fn scan(b: Seq<u8>, pos: int, cur: Seq<FieldV>, recs: Seq<Seq<FieldV>>) -> Seq<Seq<FieldV>>
    decreases b.len() - pos,
{
    if pos < 0 || pos >= b.len() {
        close_record(cur, recs)
    } else {
        proof {
            lemma_index_of_bounds(b, pos, 60);
            lemma_name_end_bounds(b, index_of_from(b, pos, 60) + 1);
        }
        let lt = index_of_from(b, pos, 60);
        let ns = lt + 1;
        let ne = name_end(b, ns);
        if lt >= b.len() || ne >= b.len() {
            close_record(cur, recs)
        } else {
            let name = b.subrange(ns, ne);
            if b[ne] == 62 {
                if eq_ignore_case(name, seq![69u8, 79u8, 82u8]) {
                    scan(b, ne + 1, seq![], close_record(cur, recs))
                } else if eq_ignore_case(name, seq![69u8, 79u8, 70u8]) {
                    close_record(cur, recs)
                } else {
                    scan(b, ne + 1, cur, recs)
                }
            } else {
                let ls = ne + 1;
                proof {
                    lemma_digits_end_bounds(b, ls);
                }
                let le = digits_end(b, ls);
                let length = declared_length(b.subrange(ls, le));
                let p1 = if le < b.len() && b[le] == 58 {
                    if le + 1 < b.len() {
                        le + 2
                    } else {
                        le + 1
                    }
                } else {
                    le
                };
                proof {
                    lemma_index_of_bounds(b, p1, 62);
                }
                let gt = index_of_from(b, p1, 62);
                if gt >= b.len() {
                    close_record(cur, recs)
                } else {
                    let vs = gt + 1;
                    let ve = if vs + length <= b.len() {
                        vs + length
                    } else {
                        b.len() as int
                    };
                    if name.len() == 0 {
                        scan(b, ve, cur, recs)
                    } else {
                        scan(
                            b,
                            ve,
                            cur.push((name_chars(name), lossy_text(b.subrange(vs, ve)))),
                            recs,
                        )
                    }
                }
            }
        }
    }
}

/// The records read from position `pos` on while no `<EOH>` tag has been
/// seen: as `scan`, except that the first `<EOH>` tag drops what was read
/// and the rest is read by `scan`.
pub open spec fn lead_scan(b: Seq<u8>, pos: int, cur: Seq<FieldV>, recs: Seq<Seq<FieldV>>) -> Seq<Seq<FieldV>>
    decreases b.len() - pos,
{
    if pos < 0 || pos >= b.len() {
        close_record(cur, recs)
    } else {
        proof {
            lemma_index_of_bounds(b, pos, 60);
            lemma_name_end_bounds(b, index_of_from(b, pos, 60) + 1);
        }
        let lt = index_of_from(b, pos, 60);
        let ns = lt + 1;
        let ne = name_end(b, ns);
        if lt >= b.len() || ne >= b.len() {
            close_record(cur, recs)
        } else {
            let name = b.subrange(ns, ne);
            if b[ne] == 62 {
                if eq_ignore_case(name, seq![69u8, 79u8, 72u8]) {
                    scan(b, ne + 1, seq![], seq![])
                } else if eq_ignore_case(name, seq![69u8, 79u8, 82u8]) {
                    lead_scan(b, ne + 1, seq![], close_record(cur, recs))
                } else if eq_ignore_case(name, seq![69u8, 79u8, 70u8]) {
                    close_record(cur, recs)
                } else {
                    lead_scan(b, ne + 1, cur, recs)
                }
            } else {
                let ls = ne + 1;
                proof {
                    lemma_digits_end_bounds(b, ls);
                }
                let le = digits_end(b, ls);
                let length = declared_length(b.subrange(ls, le));
                let p1 = if le < b.len() && b[le] == 58 {
                    if le + 1 < b.len() {
                        le + 2
                    } else {
                        le + 1
                    }
                } else {
                    le
                };
                proof {
                    lemma_index_of_bounds(b, p1, 62);
                }
                let gt = index_of_from(b, p1, 62);
                if gt >= b.len() {
                    close_record(cur, recs)
                } else {
                    let vs = gt + 1;
                    let ve = if vs + length <= b.len() {
                        vs + length
                    } else {
                        b.len() as int
                    };
                    if name.len() == 0 {
                        lead_scan(b, ve, cur, recs)
                    } else {
                        lead_scan(
                            b,
                            ve,
                            cur.push((name_chars(name), lossy_text(b.subrange(vs, ve)))),
                            recs,
                        )
                    }
                }
            }
        }
    }
}

/// The records of an ADIF text given as bytes.
pub open spec fn adi_records(b: Seq<u8>) -> Seq<Seq<FieldV>> {
    lead_scan(b, 0, seq![], seq![])
}

/// Offset of the first `byte` at or after `from`, if any.
pub fn find_byte(haystack: &[u8], from: usize, byte: u8) -> (r: Option<usize>)
    requires
        from <= haystack.len(),
    ensures
        match r {
            Some(i) => i == index_of_from(haystack@, from as int, byte) && i < haystack.len(),
            None => index_of_from(haystack@, from as int, byte) == haystack.len(),
        },
{
    let mut i = from;
    while i < haystack.len()
        invariant
            from <= i <= haystack.len(),
            index_of_from(haystack@, from as int, byte) == index_of_from(haystack@, i as int, byte),
        decreases haystack.len() - i,
    {
        if haystack[i] == byte {
            return Some(i);
        }
        i = i + 1;
    }
    None
}

fn upper_byte_exec(b: u8) -> (r: u8)
    ensures
        r == upper_byte(b),
{
    if 97 <= b && b <= 122 {
        b - 32
    } else {
        b
    }
}

/// Whether `b[start..start + 3]` is the three-letter tag name `t`, in any
/// case.
fn tag3_at(b: &[u8], start: usize, end: usize, t0: u8, t1: u8, t2: u8) -> (r: bool)
    requires
        start <= end <= b.len(),
    ensures
        r == eq_ignore_case(b@.subrange(start as int, end as int), seq![t0, t1, t2]),
{
    if end - start != 3 {
        return false;
    }
    let r = upper_byte_exec(b[start]) == upper_byte_exec(t0) && upper_byte_exec(b[start + 1])
        == upper_byte_exec(t1) && upper_byte_exec(b[start + 2]) == upper_byte_exec(t2);
    proof {
        let s = b@.subrange(start as int, end as int);
        let t = seq![t0, t1, t2];
        if r {
            assert forall|i: int| 0 <= i < s.len() implies upper_byte(#[trigger] s[i]) == upper_byte(
                t[i],
            ) by {
                if i == 0 {
                } else if i == 1 {
                } else {
                }
            }
        } else {
            if eq_ignore_case(s, t) {
                assert(upper_byte(s[0]) == upper_byte(t[0]));
                assert(upper_byte(s[1]) == upper_byte(t[1]));
                assert(upper_byte(s[2]) == upper_byte(t[2]));
            }
        }
    }
    r
}

/// Offset just after the first `<EOH>` marker, if any.
pub fn find_marker_end(bytes: &[u8]) -> (r: Option<usize>)
    ensures
        match r {
            Some(p) => header_end_from(bytes@, 0) == Some(p as int) && p <= bytes.len(),
            None => header_end_from(bytes@, 0) == None::<int>,
        },
{
    let mut i: usize = 0;
    while i < bytes.len()
        invariant
            i <= bytes.len(),
            header_end_from(bytes@, 0) == header_end_from(bytes@, i as int),
        decreases bytes.len() - i,
    {
        if bytes[i] == 60 && bytes.len() > 4 && i < bytes.len() - 4 {
            if tag3_at(bytes, i + 1, i + 4, 69, 79, 72) && bytes[i + 4] == 62 {
                proof {
                    lemma_header_end_bounds(bytes@, 0);
                }
                return Some(i + 5);
            }
        }
        i = i + 1;
    }
    None
}

/// Reads the declared length digits `b[start..end]`.
fn parse_declared_length(b: &[u8], start: usize, end: usize) -> (r: usize)
    requires
        start <= end <= b.len(),
        forall|k: int| start <= k < end ==> is_digit_byte(#[trigger] b@[k]),
    ensures
        r == declared_length(b@.subrange(start as int, end as int)),
{
    let ghost d = b@.subrange(start as int, end as int);
    let mut v: usize = 0;
    let mut overflow = false;
    let mut k = start;
    while k < end
        invariant
            start <= k <= end <= b.len(),
            d == b@.subrange(start as int, end as int),
            forall|m: int| start <= m < end ==> is_digit_byte(#[trigger] b@[m]),
            !overflow ==> v == digits_value(b@.subrange(start as int, k as int)),
            overflow ==> digits_value(b@.subrange(start as int, k as int)) > usize::MAX,
        decreases end - k,
    {
        let ghost pre = b@.subrange(start as int, k as int);
        let ghost next = b@.subrange(start as int, k + 1);
        assert(next.drop_last() =~= pre);
        assert(is_digit_byte(b@[k as int]));
        let dgt: usize = (b[k] - 48) as usize;
        assert(digits_value(next) == digits_value(pre) * 10 + dgt);
        if !overflow {
            if v > (usize::MAX - dgt) / 10 {
                overflow = true;
                assert(digits_value(pre) * 10 + dgt > usize::MAX) by (nonlinear_arith)
                    requires
                        digits_value(pre) == v,
                        v > (usize::MAX - dgt) / 10,
                        dgt <= 9,
                ;
            } else {
                assert(v * 10 + dgt <= usize::MAX) by (nonlinear_arith)
                    requires
                        v <= (usize::MAX - dgt) / 10,
                        dgt <= 9,
                ;
                v = v * 10 + dgt;
            }
        } else {
            assert(digits_value(pre) * 10 + dgt > usize::MAX) by (nonlinear_arith)
                requires
                    digits_value(pre) > usize::MAX,
            ;
        }
        k = k + 1;
    }
    if overflow || end == start {
        0
    } else {
        v
    }
}

/// Builds the stored name of a field from its tag bytes.
fn name_string(b: &[u8], start: usize, end: usize) -> (r: String)
    requires
        start <= end <= b.len(),
    ensures
        r@ == name_chars(b@.subrange(start as int, end as int)),
{
    let mut v: Vec<char> = Vec::new();
    let mut k = start;
    while k < end
        invariant
            start <= k <= end <= b.len(),
            v@ == name_chars(b@.subrange(start as int, k as int)),
        decreases end - k,
    {
        let c = upper_byte_exec(b[k]) as char;
        v.push(c);
        k = k + 1;
        assert(v@ =~= name_chars(b@.subrange(start as int, k as int)));
    }
    crate::text::string_from_chars(v.as_slice())
}

/// `b[start..end]`.
fn byte_range(b: &[u8], start: usize, end: usize) -> (r: Vec<u8>)
    requires
        start <= end <= b.len(),
    ensures
        r@ == b@.subrange(start as int, end as int),
{
    let mut v: Vec<u8> = Vec::new();
    let mut k = start;
    while k < end
        invariant
            start <= k <= end <= b.len(),
            v@ == b@.subrange(start as int, k as int),
        decreases end - k,
    {
        v.push(b[k]);
        k = k + 1;
        assert(v@ =~= b@.subrange(start as int, k as int));
    }
    v
}

/// All records of an ADIF text.
pub fn fast_parse_adi(input: &str) -> (r: Vec<Vec<AdifField>>)
    ensures
        records_view(r@) == adi_records(input.spec_bytes()),
{
    let bytes = input.as_bytes();
    let ghost b = bytes@;
    let mut records: Vec<Vec<AdifField>> = Vec::new();
    let mut current: Vec<AdifField> = Vec::new();
    let mut pos: usize = 0;
    let mut header_open = true;
    assert(records_view(records@) =~= seq![]);
    assert(record_view(current@) =~= seq![]);
    while pos < bytes.len()
        invariant_except_break
            b == bytes@,
            pos <= bytes.len(),
            (if header_open {
                lead_scan(b, pos as int, record_view(current@), records_view(records@))
            } else {
                scan(b, pos as int, record_view(current@), records_view(records@))
            }) == adi_records(b),
        ensures
            close_record(record_view(current@), records_view(records@)) == adi_records(b),
        decreases bytes.len() - pos,
    {
        let ghost cur_v = record_view(current@);
        let ghost recs_v = records_view(records@);
        let ghost pos0 = pos as int;
        proof {
            lemma_index_of_bounds(b, pos0, 60);
        }
        let lt = match find_byte(bytes, pos, 60) {
            Some(i) => i,
            None => break,
        };
        proof {
            lemma_name_end_bounds(b, lt + 1);
        }
        pos = lt + 1;
        let name_start = pos;
        while pos < bytes.len() && bytes[pos] != 58 && bytes[pos] != 62
            invariant
                b == bytes@,
                name_start <= pos <= bytes.len(),
                name_end(b, name_start as int) == name_end(b, pos as int),
            decreases bytes.len() - pos,
        {
            pos = pos + 1;
        }
        if pos >= bytes.len() {
            break;
        }
        let name_stop = pos;
        if bytes[pos] == 62 {
            pos = pos + 1;
            if header_open && tag3_at(bytes, name_start, name_stop, 69, 79, 72) {
                records = Vec::new();
                current = Vec::new();
                header_open = false;
                assert(records_view(records@) =~= seq![]);
                assert(record_view(current@) =~= seq![]);
            } else if tag3_at(bytes, name_start, name_stop, 69, 79, 82) {
                if current.len() > 0 {
                    let mut done: Vec<AdifField> = Vec::new();
                    std::mem::swap(&mut done, &mut current);
                    records.push(done);
                    assert(records_view(records@) =~= recs_v.push(cur_v));
                }
                assert(record_view(current@) =~= seq![]);
            } else if tag3_at(bytes, name_start, name_stop, 69, 79, 70) {
                break;
            }
            continue;
        }
        pos = pos + 1;
        let len_start = pos;
        proof {
            lemma_digits_end_bounds(b, len_start as int);
        }
        while pos < bytes.len() && 48 <= bytes[pos] && bytes[pos] <= 57
            invariant
                b == bytes@,
                len_start <= pos <= bytes.len(),
                digits_end(b, len_start as int) == digits_end(b, pos as int),
                forall|k: int| len_start <= k < pos ==> is_digit_byte(#[trigger] b[k]),
            decreases bytes.len() - pos,
        {
            pos = pos + 1;
        }
        let length = parse_declared_length(bytes, len_start, pos);
        if pos < bytes.len() && bytes[pos] == 58 {
            pos = pos + 1;
            if pos < bytes.len() {
                pos = pos + 1;
            }
        }
        proof {
            lemma_index_of_bounds(b, pos as int, 62);
        }
        let gt = match find_byte(bytes, pos, 62) {
            Some(i) => i,
            None => break,
        };
        pos = gt + 1;
        let value_end = if length <= bytes.len() - pos {
            pos + length
        } else {
            bytes.len()
        };
        let value_start = pos;
        pos = value_end;
        if name_stop == name_start {
            continue;
        }
        let name = name_string(bytes, name_start, name_stop);
        let value = string_from_utf8_lossy(byte_range(bytes, value_start, value_end).as_slice());
        current.push(AdifField { name, value });
        assert(record_view(current@) =~= cur_v.push(
            (
                name_chars(b.subrange(name_start as int, name_stop as int)),
                lossy_text(b.subrange(value_start as int, value_end as int)),
            ),
        ));
    }
    let ghost cur_v = record_view(current@);
    let ghost recs_v = records_view(records@);
    if current.len() > 0 {
        records.push(current);
        assert(records_view(records@) =~= recs_v.push(cur_v));
    }
    records
}

} // verus!
