//! Reading back what the ADIF writer wrote: the reader, run over the
//! UTF-8 bytes of an exported document, finds exactly the records that
//! were written.
use vstd::prelude::*;
use vstd::utf8::*;

use crate::adif::{
    adi_records, close_record, declared_length, digits_end, digits_value, eq_ignore_case,
    index_of_from, lead_scan,
    is_digit_byte, lossy_text, name_chars, name_end, scan, upper_byte, FieldV,
};
use crate::datetime::{adif_datetime, date_compact, time_compact};
use crate::export::{
    document_text, field_text, freq_mhz_text, opt_field, prop_mode_adif, qso_record, record_text,
    records_text, utf8_len,
};
use crate::import::{command_fits, lookup, opt_view, CreateQsoCommand};
use crate::qso::Qso;
use crate::value::{band_adif, mode_adif};
use crate::text::{dec, digit_char};

verus! {

/// A character of an ADIF field name as this writer spells names: an
/// upper-case letter, a digit or `_`.
pub open spec fn plain_name_char(c: char) -> bool {
    ('A' <= c && c <= 'Z') || ('0' <= c && c <= '9') || c == '_'
}

/// A field name of such characters, not empty.
pub open spec fn plain_name(s: Seq<char>) -> bool {
    s.len() > 0 && forall|i: int| 0 <= i < s.len() ==> plain_name_char(#[trigger] s[i])
}

/// A field this writer writes and the reader reads back: a plain name,
/// and a value whose UTF-8 length is a machine-sized number.
pub open spec fn readable_field(f: FieldV) -> bool {
    plain_name(f.0) && encode_utf8(f.1).len() <= usize::MAX
}

/// A record with at least one field, each readable.
pub open spec fn readable_record(fs: Seq<FieldV>) -> bool {
    fs.len() > 0 && forall|i: int| 0 <= i < fs.len() ==> readable_field(#[trigger] fs[i])
}

proof fn lemma_encode_concat(a: Seq<char>, b: Seq<char>)
    ensures
        encode_utf8(a + b) == encode_utf8(a) + encode_utf8(b),
    decreases a.len(),
{
    if a.len() == 0 {
        assert(a + b =~= b);
        assert(encode_utf8(a) =~= seq![]);
        assert(encode_utf8(a) + encode_utf8(b) =~= encode_utf8(b));
    } else {
        assert((a + b).drop_first() =~= a.drop_first() + b);
        assert((a + b)[0] == a[0]);
        lemma_encode_concat(a.drop_first(), b);
        assert(encode_utf8(a + b) =~= encode_utf8(a) + encode_utf8(b));
    }
}

proof fn lemma_plain_name_bytes(s: Seq<char>)
    requires
        plain_name(s),
    ensures
        is_ascii_chars(s),
        encode_utf8(s).len() == s.len(),
        forall|i: int|
            0 <= i < s.len() ==> {
                &&& #[trigger] encode_utf8(s)[i] != 58
                &&& encode_utf8(s)[i] != 62
                &&& encode_utf8(s)[i] != 60
            },
        name_chars(encode_utf8(s)) == s,
{
    assert(is_ascii_chars(s)) by {
        assert forall|i: int| 0 <= i < s.len() implies '\0' <= #[trigger] s[i] <= '\u{7f}' by {
            assert(plain_name_char(s[i]));
        }
    }
    is_ascii_chars_encode_utf8(s);
    let e = encode_utf8(s);
    assert forall|i: int| 0 <= i < s.len() implies {
        &&& #[trigger] e[i] != 58
        &&& e[i] != 62
        &&& e[i] != 60
    } by {
        assert(plain_name_char(s[i]));
        assert(s[i] as u8 == e[i]);
    }
    assert forall|i: int| 0 <= i < s.len() implies #[trigger] name_chars(e)[i] == s[i] by {
        assert(plain_name_char(s[i]));
        assert(s[i] as u8 == e[i]);
        assert(upper_byte(e[i]) == e[i]);
        char_u32_cast(s[i], s[i] as u32);
    }
    assert(name_chars(e) =~= s);
}

proof fn lemma_digit_char_byte(d: nat)
    requires
        d < 10,
    ensures
        encode_utf8(seq![digit_char(d)]) == seq![(48 + d) as u8],
{
    let c = digit_char(d);
    assert(is_ascii_chars(seq![c]));
    is_ascii_chars_encode_utf8(seq![c]);
    assert(encode_utf8(seq![c])[0] == c as u8);
    assert(encode_utf8(seq![c]) =~= seq![(48 + d) as u8]);
}

/// The bytes of a decimal number are ASCII digits, as many as its
/// characters, and read back as the number.
proof fn lemma_dec_bytes(n: nat)
    ensures
        encode_utf8(dec(n)).len() == dec(n).len(),
        dec(n).len() > 0,
        forall|i: int| 0 <= i < dec(n).len() ==> is_digit_byte(#[trigger] encode_utf8(dec(n))[i]),
        digits_value(encode_utf8(dec(n))) == n,
    decreases n,
{
    if n < 10 {
        lemma_digit_char_byte(n);
        let e = encode_utf8(dec(n));
        assert(e.drop_last() =~= seq![]);
        assert(digits_value(e.drop_last()) == 0);
    } else {
        lemma_dec_bytes(n / 10);
        let d = dec(n / 10);
        let c = digit_char(n % 10);
        assert(dec(n) == d.push(c));
        assert(d.push(c) =~= d + seq![c]);
        lemma_encode_concat(d, seq![c]);
        lemma_digit_char_byte(n % 10);
        let e = encode_utf8(dec(n));
        assert(e == encode_utf8(d) + seq![(48 + n % 10) as u8]);
        assert(e.drop_last() =~= encode_utf8(d));
        assert(e.last() == (48 + n % 10) as u8);
        assert forall|i: int| 0 <= i < dec(n).len() implies is_digit_byte(#[trigger] e[i]) by {
            if i < d.len() {
                assert(e[i] == encode_utf8(d)[i]);
            }
        }
        assert(digits_value(e) == digits_value(encode_utf8(d)) * 10 + (n % 10));
    }
}

/// The reader over bytes `b` from `pos`: the header reading (`lead`),
/// which ends at the first `<EOH>` tag, or the reading of records after
/// it.
pub open spec fn reader(lead: bool, b: Seq<u8>, pos: int, cur: Seq<FieldV>, recs: Seq<Seq<FieldV>>) -> Seq<Seq<FieldV>> {
    if lead {
        lead_scan(b, pos, cur, recs)
    } else {
        scan(b, pos, cur, recs)
    }
}

/// A byte other than `<` is passed over.
proof fn lemma_reader_skip(lead: bool, b: Seq<u8>, p: int, cur: Seq<FieldV>, recs: Seq<Seq<FieldV>>)
    requires
        0 <= p < b.len(),
        b[p] != 60,
    ensures
        reader(lead, b, p, cur, recs) == reader(lead, b, p + 1, cur, recs),
{
    assert(index_of_from(b, p, 60) == index_of_from(b, p + 1, 60));
    if p + 1 >= b.len() {
        assert(index_of_from(b, p + 1, 60) == b.len());
    }
}

/// A run of bytes without `<` is passed over.
proof fn lemma_reader_skip_run(
    lead: bool,
    b: Seq<u8>,
    p: int,
    q: int,
    cur: Seq<FieldV>,
    recs: Seq<Seq<FieldV>>,
)
    requires
        0 <= p <= q <= b.len(),
        forall|k: int| p <= k < q ==> b[k] != 60,
    ensures
        reader(lead, b, p, cur, recs) == reader(lead, b, q, cur, recs),
    decreases q - p,
{
    if p < q {
        lemma_reader_skip(lead, b, p, cur, recs);
        lemma_reader_skip_run(lead, b, p + 1, q, cur, recs);
    }
}

proof fn lemma_name_end_at(b: Seq<u8>, ns: int, k: int)
    requires
        0 <= ns,
        0 <= k,
        ns + k < b.len(),
        forall|i: int| ns <= i < ns + k ==> b[i] != 58 && b[i] != 62,
        b[ns + k] == 58 || b[ns + k] == 62,
    ensures
        name_end(b, ns) == ns + k,
    decreases k,
{
    if k > 0 {
        lemma_name_end_at(b, ns + 1, k - 1);
    }
}

proof fn lemma_digits_end_at(b: Seq<u8>, ls: int, k: int)
    requires
        0 <= ls,
        0 <= k,
        ls + k < b.len(),
        forall|i: int| ls <= i < ls + k ==> is_digit_byte(b[i]),
        !is_digit_byte(b[ls + k]),
    ensures
        digits_end(b, ls) == ls + k,
    decreases k,
{
    if k > 0 {
        lemma_digits_end_at(b, ls + 1, k - 1);
    }
}

/// The bytes of a field as the writer lays them out.
pub open spec fn field_bytes(f: FieldV) -> Seq<u8> {
    seq![60u8] + encode_utf8(f.0) + seq![58u8] + encode_utf8(dec(encode_utf8(f.1).len())) + seq![62u8]
        + encode_utf8(f.1)
}

proof fn lemma_ascii_char_bytes(c: char)
    requires
        '\0' <= c <= '\u{7f}',
    ensures
        encode_utf8(seq![c]) == seq![c as u8],
{
    assert(is_ascii_chars(seq![c]));
    is_ascii_chars_encode_utf8(seq![c]);
    assert(encode_utf8(seq![c]) =~= seq![c as u8]);
}

proof fn lemma_field_bytes(f: FieldV)
    requires
        readable_field(f),
    ensures
        encode_utf8(field_text(f)) == field_bytes(f),
{
    reveal_strlit("<");
    reveal_strlit(":");
    reveal_strlit(">");
    let n = f.0;
    let v = f.1;
    assert(utf8_len(v) == encode_utf8(v).len());
    let d = dec(encode_utf8(v).len());
    assert(field_text(f) == seq!['<'] + n + seq![':'] + d + seq!['>'] + v);
    lemma_ascii_char_bytes('<');
    lemma_ascii_char_bytes(':');
    lemma_ascii_char_bytes('>');
    lemma_encode_concat(seq!['<'], n);
    lemma_encode_concat(seq!['<'] + n, seq![':']);
    lemma_encode_concat(seq!['<'] + n + seq![':'], d);
    lemma_encode_concat(seq!['<'] + n + seq![':'] + d, seq!['>']);
    lemma_encode_concat(seq!['<'] + n + seq![':'] + d + seq!['>'], v);
}

/// One field is read as that field, in the header as among the records.
proof fn lemma_reader_field(
    lead: bool,
    b: Seq<u8>,
    pos: int,
    f: FieldV,
    cur: Seq<FieldV>,
    recs: Seq<Seq<FieldV>>,
)
    requires
        readable_field(f),
        0 <= pos,
        pos + field_bytes(f).len() <= b.len(),
        b.subrange(pos, pos + field_bytes(f).len()) == field_bytes(f),
    ensures
        reader(lead, b, pos, cur, recs) == reader(lead, b, pos + field_bytes(f).len(), cur.push(f), recs),
{
    let nm = encode_utf8(f.0);
    let v = encode_utf8(f.1);
    let len = v.len();
    let dg = encode_utf8(dec(len));
    let fb = field_bytes(f);
    lemma_plain_name_bytes(f.0);
    lemma_dec_bytes(len);
    let ns = pos + 1;
    let ne = ns + nm.len();
    let ls = ne + 1;
    let le = ls + dg.len();
    let vs = le + 1;
    let ve = vs + len;
    assert(fb.len() == 1 + nm.len() + 1 + dg.len() + 1 + len);
    assert(ve == pos + fb.len());
    assert forall|i: int| 0 <= i < fb.len() implies b[pos + i] == #[trigger] fb[i] by {
        assert(b.subrange(pos, pos + fb.len())[i] == b[pos + i]);
    }
    assert(b[pos] == 60) by {
        assert(fb[0] == 60);
    }
    assert forall|i: int| ns <= i < ne implies b[i] != 58 && b[i] != 62 by {
        assert(fb[i - pos] == nm[i - ns]);
        assert(b[pos + (i - pos)] == fb[i - pos]);
    }
    assert(b[ne] == 58) by {
        assert(fb[ne - pos] == 58);
        assert(b[pos + (ne - pos)] == fb[ne - pos]);
    }
    lemma_name_end_at(b, ns, nm.len() as int);
    assert(b.subrange(ns, ne) =~= nm) by {
        assert forall|i: int| 0 <= i < nm.len() implies b.subrange(ns, ne)[i] == nm[i] by {
            assert(fb[1 + i] == nm[i]);
            assert(b[pos + (1 + i)] == fb[1 + i]);
        }
    }
    assert forall|i: int| ls <= i < le implies is_digit_byte(b[i]) by {
        assert(fb[i - pos] == dg[i - ls]);
        assert(b[pos + (i - pos)] == fb[i - pos]);
        assert(is_digit_byte(dg[i - ls]));
    }
    assert(b[le] == 62) by {
        assert(fb[le - pos] == 62);
        assert(b[pos + (le - pos)] == fb[le - pos]);
    }
    lemma_digits_end_at(b, ls, dg.len() as int);
    assert(b.subrange(ls, le) =~= dg) by {
        assert forall|i: int| 0 <= i < dg.len() implies b.subrange(ls, le)[i] == dg[i] by {
            assert(fb[ls - pos + i] == dg[i]);
            assert(b[pos + (ls - pos + i)] == fb[ls - pos + i]);
        }
    }
    assert(declared_length(b.subrange(ls, le)) == len);
    assert(index_of_from(b, le, 62) == le);
    assert(index_of_from(b, pos, 60) == pos);
    assert(b.subrange(vs, ve) =~= v) by {
        assert forall|i: int| 0 <= i < len implies b.subrange(vs, ve)[i] == v[i] by {
            assert(fb[vs - pos + i] == v[i]);
            assert(b[pos + (vs - pos + i)] == fb[vs - pos + i]);
        }
    }
    encode_utf8_valid_utf8(f.1);
    encode_utf8_decode_utf8(f.1);
    assert(lossy_text(b.subrange(vs, ve)) == f.1);
    assert(name_chars(b.subrange(ns, ne)) == f.0);
    assert(scan(b, pos, cur, recs) == scan(b, ve, cur.push(f), recs));
    assert(lead_scan(b, pos, cur, recs) == lead_scan(b, ve, cur.push(f), recs));
}

/// The bytes `<EOR>`.
pub open spec fn eor_bytes() -> Seq<u8> {
    seq![60u8, 69u8, 79u8, 82u8, 62u8]
}

/// The bytes of a record: each field followed by `fsep`, then `<EOR>`
/// followed by `rsep`.
pub open spec fn record_bytes(fs: Seq<FieldV>, fsep: Seq<u8>, rsep: Seq<u8>) -> Seq<u8>
    decreases fs.len(),
{
    if fs.len() == 0 {
        eor_bytes() + rsep
    } else {
        field_bytes(fs[0]) + fsep + record_bytes(fs.drop_first(), fsep, rsep)
    }
}

/// Bytes without `<`.
pub open spec fn no_lt(s: Seq<u8>) -> bool {
    forall|i: int| 0 <= i < s.len() ==> s[i] != 60
}

/// A record is read as its fields, added to the record being built,
/// which it then closes.
proof fn lemma_reader_record(
    lead: bool,
    b: Seq<u8>,
    pos: int,
    fs: Seq<FieldV>,
    fsep: Seq<u8>,
    rsep: Seq<u8>,
    cur: Seq<FieldV>,
    recs: Seq<Seq<FieldV>>,
)
    requires
        forall|i: int| 0 <= i < fs.len() ==> readable_field(#[trigger] fs[i]),
        no_lt(fsep),
        no_lt(rsep),
        0 <= pos,
        pos + record_bytes(fs, fsep, rsep).len() <= b.len(),
        b.subrange(pos, pos + record_bytes(fs, fsep, rsep).len()) == record_bytes(fs, fsep, rsep),
    ensures
        reader(lead, b, pos, cur, recs) == reader(
            lead,
            b,
            pos + record_bytes(fs, fsep, rsep).len(),
            seq![],
            close_record(cur + fs, recs),
        ),
    decreases fs.len(),
{
    let rb = record_bytes(fs, fsep, rsep);
    assert forall|i: int| 0 <= i < rb.len() implies b[pos + i] == #[trigger] rb[i] by {
        assert(b.subrange(pos, pos + rb.len())[i] == b[pos + i]);
    }
    if fs.len() == 0 {
        assert(rb == eor_bytes() + rsep);
        assert(rb[0] == 60 && rb[1] == 69 && rb[2] == 79 && rb[3] == 82 && rb[4] == 62);
        assert(b[pos + 0] == rb[0] && b[pos + 1] == rb[1] && b[pos + 2] == rb[2]);
        assert(b[pos + 3] == rb[3] && b[pos + 4] == rb[4]);
        assert(b[pos] == 60 && b[pos + 1] == 69 && b[pos + 2] == 79 && b[pos + 3] == 82);
        assert(b[pos + 4] == 62);
        assert(index_of_from(b, pos, 60) == pos);
        lemma_name_end_at(b, pos + 1, 3);
        assert(b.subrange(pos + 1, pos + 4) =~= seq![69u8, 79u8, 82u8]);
        assert(eq_ignore_case(b.subrange(pos + 1, pos + 4), seq![69u8, 79u8, 82u8]));
        assert(!eq_ignore_case(b.subrange(pos + 1, pos + 4), seq![69u8, 79u8, 72u8])) by {
            assert(upper_byte(b.subrange(pos + 1, pos + 4)[2]) != upper_byte(72u8));
        }
        assert(reader(lead, b, pos, cur, recs) == reader(lead, b, pos + 5, seq![], close_record(cur, recs)));
        assert forall|k: int| pos + 5 <= k < pos + rb.len() implies b[k] != 60 by {
            assert(b[pos + (k - pos)] == rb[k - pos]);
            assert(rb[k - pos] == rsep[k - pos - 5]);
        }
        lemma_reader_skip_run(lead, b, pos + 5, pos + rb.len(), seq![], close_record(cur, recs));
        assert(cur + fs =~= cur);
    } else {
        let f = fs[0];
        let fb = field_bytes(f);
        let rest = fs.drop_first();
        let rrb = record_bytes(rest, fsep, rsep);
        assert(readable_field(f));
        assert(rb == fb + fsep + rrb);
        assert(b.subrange(pos, pos + fb.len()) =~= fb) by {
            assert forall|i: int| 0 <= i < fb.len() implies b.subrange(pos, pos + fb.len())[i] == fb[i] by {
                assert(rb[i] == fb[i]);
            }
        }
        lemma_reader_field(lead, b, pos, f, cur, recs);
        let p1 = pos + fb.len();
        let p2 = p1 + fsep.len();
        assert forall|k: int| p1 <= k < p2 implies b[k] != 60 by {
            assert(b[pos + (k - pos)] == rb[k - pos]);
            assert(rb[k - pos] == fsep[k - p1]);
        }
        lemma_reader_skip_run(lead, b, p1, p2, cur.push(f), recs);
        assert(b.subrange(p2, p2 + rrb.len()) =~= rrb) by {
            assert forall|i: int| 0 <= i < rrb.len() implies b.subrange(p2, p2 + rrb.len())[i] == rrb[i] by {
                assert(rb[fb.len() + fsep.len() + i] == rrb[i]);
                assert(b[pos + (fb.len() + fsep.len() + i)] == rb[fb.len() + fsep.len() + i]);
            }
        }
        assert forall|i: int| 0 <= i < rest.len() implies readable_field(#[trigger] rest[i]) by {
            assert(rest[i] == fs[i + 1]);
        }
        lemma_reader_record(lead, b, p2, rest, fsep, rsep, cur.push(f), recs);
        assert(cur.push(f) + rest =~= cur + fs);
    }
}

/// The bytes of the records one after the other.
pub open spec fn records_bytes(rs: Seq<Seq<FieldV>>, fsep: Seq<u8>, rsep: Seq<u8>) -> Seq<u8>
    decreases rs.len(),
{
    if rs.len() == 0 {
        seq![]
    } else {
        records_bytes(rs.drop_last(), fsep, rsep) + record_bytes(rs.last(), fsep, rsep)
    }
}

proof fn lemma_records_bytes_take(rs: Seq<Seq<FieldV>>, fsep: Seq<u8>, rsep: Seq<u8>, k: int)
    requires
        0 <= k < rs.len(),
    ensures
        records_bytes(rs.take(k + 1), fsep, rsep) == records_bytes(rs.take(k), fsep, rsep) + record_bytes(
            rs[k],
            fsep,
            rsep,
        ),
{
    assert(rs.take(k + 1).drop_last() =~= rs.take(k));
    assert(rs.take(k + 1).last() == rs[k]);
}

proof fn lemma_records_prefix(rs: Seq<Seq<FieldV>>, fsep: Seq<u8>, rsep: Seq<u8>, k: int)
    requires
        0 <= k <= rs.len(),
    ensures
        records_bytes(rs.take(k), fsep, rsep).len() <= records_bytes(rs, fsep, rsep).len(),
        records_bytes(rs, fsep, rsep).subrange(0, records_bytes(rs.take(k), fsep, rsep).len() as int)
            == records_bytes(rs.take(k), fsep, rsep),
    decreases rs.len() - k,
{
    let all = records_bytes(rs, fsep, rsep);
    if k == rs.len() {
        assert(rs.take(k) =~= rs);
        assert(all.subrange(0, all.len() as int) =~= all);
    } else {
        lemma_records_prefix(rs, fsep, rsep, k + 1);
        lemma_records_bytes_take(rs, fsep, rsep, k);
        let a = records_bytes(rs.take(k), fsep, rsep);
        let a1 = records_bytes(rs.take(k + 1), fsep, rsep);
        assert(all.subrange(0, a.len() as int) =~= a) by {
            assert forall|i: int| 0 <= i < a.len() implies all.subrange(0, a.len() as int)[i] == a[i] by {
                assert(all.subrange(0, a1.len() as int)[i] == a1[i]);
                assert(a1[i] == a[i]);
            }
        }
    }
}

/// Records that fill the bytes from `start` to the end are read as
/// those records.
proof fn lemma_reader_records(
    lead: bool,
    b: Seq<u8>,
    start: int,
    rs: Seq<Seq<FieldV>>,
    fsep: Seq<u8>,
    rsep: Seq<u8>,
    k: int,
)
    requires
        forall|j: int| 0 <= j < rs.len() ==> readable_record(#[trigger] rs[j]),
        no_lt(fsep),
        no_lt(rsep),
        0 <= start,
        0 <= k <= rs.len(),
        b.len() == start + records_bytes(rs, fsep, rsep).len(),
        b.subrange(start, b.len() as int) == records_bytes(rs, fsep, rsep),
    ensures
        reader(lead, b, start + records_bytes(rs.take(k), fsep, rsep).len(), seq![], rs.take(k)) == rs,
    decreases rs.len() - k,
{
    lemma_records_prefix(rs, fsep, rsep, k);
    if k == rs.len() {
        assert(rs.take(k) =~= rs);
    } else {
        lemma_records_bytes_take(rs, fsep, rsep, k);
        lemma_records_prefix(rs, fsep, rsep, k + 1);
        let all = records_bytes(rs, fsep, rsep);
        let a = records_bytes(rs.take(k), fsep, rsep);
        let rb = record_bytes(rs[k], fsep, rsep);
        let pk = start + a.len();
        assert(readable_record(rs[k]));
        assert(b.subrange(pk, pk + rb.len()) =~= rb) by {
            assert forall|i: int| 0 <= i < rb.len() implies b.subrange(pk, pk + rb.len())[i] == rb[i] by {
                let a1 = records_bytes(rs.take(k + 1), fsep, rsep);
                assert(all.subrange(0, a1.len() as int)[a.len() + i] == a1[a.len() + i]);
                assert(a1[a.len() + i] == rb[i]);
                assert(b.subrange(start, b.len() as int)[a.len() + i] == b[start + a.len() + i]);
            }
        }
        lemma_reader_record(lead, b, pk, rs[k], fsep, rsep, seq![], rs.take(k));
        assert(seq![] + rs[k] =~= rs[k]);
        assert(close_record(rs[k], rs.take(k)) =~= rs.take(k + 1));
        lemma_reader_records(lead, b, start, rs, fsep, rsep, k + 1);
    }
}

/// The bytes of a header: each field followed by `sep`, then `<EOH>`.
pub open spec fn header_bytes(fs: Seq<FieldV>, sep: Seq<u8>) -> Seq<u8>
    decreases fs.len(),
{
    if fs.len() == 0 {
        seq![60u8, 69u8, 79u8, 72u8, 62u8]
    } else {
        field_bytes(fs[0]) + sep + header_bytes(fs.drop_first(), sep)
    }
}

/// A header is read up to its `<EOH>`, where what it held is dropped and
/// the reading of records begins.
proof fn lemma_reader_header(
    b: Seq<u8>,
    pos: int,
    fs: Seq<FieldV>,
    sep: Seq<u8>,
    cur: Seq<FieldV>,
    recs: Seq<Seq<FieldV>>,
)
    requires
        forall|i: int| 0 <= i < fs.len() ==> readable_field(#[trigger] fs[i]),
        no_lt(sep),
        0 <= pos,
        pos + header_bytes(fs, sep).len() <= b.len(),
        b.subrange(pos, pos + header_bytes(fs, sep).len()) == header_bytes(fs, sep),
    ensures
        reader(true, b, pos, cur, recs) == reader(false, b, pos + header_bytes(fs, sep).len(), seq![], seq![]),
    decreases fs.len(),
{
    let hb = header_bytes(fs, sep);
    assert forall|i: int| 0 <= i < hb.len() implies b[pos + i] == #[trigger] hb[i] by {
        assert(b.subrange(pos, pos + hb.len())[i] == b[pos + i]);
    }
    if fs.len() == 0 {
        assert(b[pos] == 60 && b[pos + 1] == 69 && b[pos + 2] == 79 && b[pos + 3] == 72);
        assert(b[pos + 4] == 62);
        assert(index_of_from(b, pos, 60) == pos);
        lemma_name_end_at(b, pos + 1, 3);
        assert(b.subrange(pos + 1, pos + 4) =~= seq![69u8, 79u8, 72u8]);
        assert(eq_ignore_case(b.subrange(pos + 1, pos + 4), seq![69u8, 79u8, 72u8]));
    } else {
        let f = fs[0];
        let fb = field_bytes(f);
        let rest = fs.drop_first();
        let rhb = header_bytes(rest, sep);
        assert(readable_field(f));
        assert(hb == fb + sep + rhb);
        assert(b.subrange(pos, pos + fb.len()) =~= fb) by {
            assert forall|i: int| 0 <= i < fb.len() implies b.subrange(pos, pos + fb.len())[i] == fb[i] by {
                assert(hb[i] == fb[i]);
            }
        }
        lemma_reader_field(true, b, pos, f, cur, recs);
        let p1 = pos + fb.len();
        let p2 = p1 + sep.len();
        assert forall|k: int| p1 <= k < p2 implies b[k] != 60 by {
            assert(b[pos + (k - pos)] == hb[k - pos]);
            assert(hb[k - pos] == sep[k - p1]);
        }
        lemma_reader_skip_run(true, b, p1, p2, cur.push(f), recs);
        assert(b.subrange(p2, p2 + rhb.len()) =~= rhb) by {
            assert forall|i: int| 0 <= i < rhb.len() implies b.subrange(p2, p2 + rhb.len())[i] == rhb[i] by {
                assert(hb[fb.len() + sep.len() + i] == rhb[i]);
                assert(b[pos + (fb.len() + sep.len() + i)] == hb[fb.len() + sep.len() + i]);
            }
        }
        assert forall|i: int| 0 <= i < rest.len() implies readable_field(#[trigger] rest[i]) by {
            assert(rest[i] == fs[i + 1]);
        }
        lemma_reader_header(b, p2, rest, sep, cur.push(f), recs);
    }
}

/// The characters of a record written without separators: each field,
/// then `<EOR>`.
pub open spec fn plain_record_text(fs: Seq<FieldV>) -> Seq<char>
    decreases fs.len(),
{
    if fs.len() == 0 {
        "<EOR>"@
    } else {
        field_text(fs[0]) + plain_record_text(fs.drop_first())
    }
}

/// Records written without separators, one after the other.
pub open spec fn plain_records_text(rs: Seq<Seq<FieldV>>) -> Seq<char>
    decreases rs.len(),
{
    if rs.len() == 0 {
        seq![]
    } else {
        plain_records_text(rs.drop_last()) + plain_record_text(rs.last())
    }
}

proof fn lemma_eor_bytes()
    ensures
        encode_utf8("<EOR>"@) == eor_bytes(),
        encode_utf8("<EOH>"@) == header_bytes(seq![], seq![]),
{
    reveal_strlit("<EOR>");
    reveal_strlit("<EOH>");
    assert(is_ascii_chars("<EOR>"@));
    assert(is_ascii_chars("<EOH>"@));
    is_ascii_chars_encode_utf8("<EOR>"@);
    is_ascii_chars_encode_utf8("<EOH>"@);
    assert(encode_utf8("<EOR>"@) =~= eor_bytes());
    assert(encode_utf8("<EOH>"@) =~= header_bytes(seq![], seq![]));
}

proof fn lemma_plain_record_bytes(fs: Seq<FieldV>)
    requires
        forall|i: int| 0 <= i < fs.len() ==> readable_field(#[trigger] fs[i]),
    ensures
        encode_utf8(plain_record_text(fs)) == record_bytes(fs, seq![], seq![]),
    decreases fs.len(),
{
    lemma_eor_bytes();
    if fs.len() == 0 {
        assert(eor_bytes() + seq![] =~= eor_bytes());
    } else {
        assert(readable_field(fs[0]));
        assert forall|i: int| 0 <= i < fs.drop_first().len() implies readable_field(
            #[trigger] fs.drop_first()[i],
        ) by {
            assert(fs.drop_first()[i] == fs[i + 1]);
        }
        lemma_field_bytes(fs[0]);
        lemma_plain_record_bytes(fs.drop_first());
        lemma_encode_concat(field_text(fs[0]), plain_record_text(fs.drop_first()));
        assert(field_bytes(fs[0]) + seq![] =~= field_bytes(fs[0]));
    }
}

proof fn lemma_plain_records_bytes(rs: Seq<Seq<FieldV>>)
    requires
        forall|k: int| 0 <= k < rs.len() ==> readable_record(#[trigger] rs[k]),
    ensures
        encode_utf8(plain_records_text(rs)) == records_bytes(rs, seq![], seq![]),
    decreases rs.len(),
{
    if rs.len() == 0 {
        assert(encode_utf8(plain_records_text(rs)) =~= seq![]);
    } else {
        assert(readable_record(rs[rs.len() - 1]));
        assert forall|k: int| 0 <= k < rs.drop_last().len() implies readable_record(
            #[trigger] rs.drop_last()[k],
        ) by {
            assert(rs.drop_last()[k] == rs[k]);
        }
        lemma_plain_records_bytes(rs.drop_last());
        lemma_plain_record_bytes(rs.last());
        lemma_encode_concat(plain_records_text(rs.drop_last()), plain_record_text(rs.last()));
    }
}

/// A character other than `<` is encoded without the byte of `<`.
proof fn lemma_encode_no_lt(s: Seq<char>)
    requires
        forall|i: int| 0 <= i < s.len() ==> s[i] != '<',
    ensures
        no_lt(encode_utf8(s)),
    decreases s.len(),
{
    if s.len() > 0 {
        let c = s[0] as u32;
        char_is_scalar(s[0]);
        lemma_encode_no_lt(s.drop_first());
        let e = encode_scalar(c);
        assert(no_lt(e)) by {
            if has_width_1_encoding(c) {
                assert(c != 60) by {
                    char_u32_cast(s[0], c);
                    if c == 60 {
                        assert((60u32 as char) == '<');
                    }
                }
                assert(leading_byte_width_1(c) != 60) by (bit_vector)
                    requires
                        c <= 0x7F,
                        c != 60,
                ;
            } else if has_width_2_encoding(c) {
                assert(leading_byte_width_2(c) != 60 && last_continuation_byte(c) != 60) by (bit_vector);
            } else if has_width_3_encoding(c) {
                assert(leading_byte_width_3(c) != 60 && second_last_continuation_byte(c) != 60
                    && last_continuation_byte(c) != 60) by (bit_vector);
            } else {
                assert(leading_byte_width_4(c) != 60 && third_last_continuation_byte(c) != 60
                    && second_last_continuation_byte(c) != 60 && last_continuation_byte(c) != 60)
                    by (bit_vector);
            }
        }
        let all = encode_utf8(s);
        assert(all == e + encode_utf8(s.drop_first()));
        assert forall|i: int| 0 <= i < all.len() implies all[i] != 60 by {
            if i < e.len() {
                assert(all[i] == e[i]);
            } else {
                assert(all[i] == encode_utf8(s.drop_first())[i - e.len()]);
            }
        }
    }
}

/// Any text without `<`, then `<EOH>`, then records written as fields
/// `<NAME:LEN>VALUE` and `<EOR>` with nothing between them, reads back as
/// those records: the same records, fields in the same order, values byte
/// for byte, even where a value holds `<`, `<EOR>` or `<EOH>`. This holds
/// for records that each have a field, whose names are upper-case ADIF
/// names and whose values have machine-sized lengths.
pub proof fn law_headed_records_read_back(h: Seq<char>, rs: Seq<Seq<FieldV>>)
    requires
        forall|i: int| 0 <= i < h.len() ==> h[i] != '<',
        forall|k: int| 0 <= k < rs.len() ==> readable_record(#[trigger] rs[k]),
    ensures
        adi_records(encode_utf8(h + "<EOH>"@ + plain_records_text(rs))) == rs,
{
    lemma_encode_no_lt(h);
    lemma_eor_bytes();
    lemma_plain_records_bytes(rs);
    lemma_encode_concat(h, "<EOH>"@);
    lemma_encode_concat(h + "<EOH>"@, plain_records_text(rs));
    let eh = encode_utf8(h);
    let hb = header_bytes(seq![], seq![]);
    let rb = records_bytes(rs, seq![], seq![]);
    let b = encode_utf8(h + "<EOH>"@ + plain_records_text(rs));
    assert(b == eh + hb + rb);
    assert forall|k: int| 0 <= k < eh.len() implies b[k] != 60 by {
        assert(b[k] == eh[k]);
    }
    lemma_reader_skip_run(true, b, 0, eh.len() as int, seq![], seq![]);
    assert(b.subrange(eh.len() as int, (eh.len() + hb.len()) as int) =~= hb);
    lemma_reader_header(b, eh.len() as int, seq![], seq![], seq![], seq![]);
    let start = (eh.len() + hb.len()) as int;
    assert(b.subrange(start, b.len() as int) =~= rb);
    assert(rs.take(0) =~= seq![]);
    assert(records_bytes(rs.take(0), seq![], seq![]) =~= seq![]);
    lemma_reader_records(false, b, start, rs, seq![], seq![], 0);
}

/// A text of records written as fields `<NAME:LEN>VALUE` and `<EOR>`, with
/// no header, is read from its first byte and reads back as those
/// records, for records as above.
pub proof fn law_headless_records_read_back(rs: Seq<Seq<FieldV>>)
    requires
        forall|k: int| 0 <= k < rs.len() ==> readable_record(#[trigger] rs[k]),
    ensures
        adi_records(encode_utf8(plain_records_text(rs))) == rs,
{
    lemma_plain_records_bytes(rs);
    let b = encode_utf8(plain_records_text(rs));
    assert(b.subrange(0, b.len() as int) =~= b);
    assert(rs.take(0) =~= seq![]);
    assert(records_bytes(rs.take(0), seq![], seq![]) =~= seq![]);
    lemma_reader_records(true, b, 0, rs, seq![], seq![], 0);
}

/// The characters of a header: each field on a line of its own, then
/// `<EOH>`.
pub open spec fn header_text(fs: Seq<FieldV>) -> Seq<char>
    decreases fs.len(),
{
    if fs.len() == 0 {
        "<EOH>"@
    } else {
        field_text(fs[0]) + "\n"@ + header_text(fs.drop_first())
    }
}

proof fn lemma_newline_bytes()
    ensures
        encode_utf8("\n"@) == seq![10u8],
        encode_utf8(" "@) == seq![32u8],
{
    reveal_strlit("\n");
    reveal_strlit(" ");
    lemma_ascii_char_bytes('\n');
    lemma_ascii_char_bytes(' ');
    assert("\n"@ =~= seq!['\n']);
    assert(" "@ =~= seq![' ']);
}

proof fn lemma_header_text_bytes(fs: Seq<FieldV>)
    requires
        forall|i: int| 0 <= i < fs.len() ==> readable_field(#[trigger] fs[i]),
    ensures
        encode_utf8(header_text(fs)) == header_bytes(fs, seq![10u8]),
    decreases fs.len(),
{
    lemma_eor_bytes();
    lemma_newline_bytes();
    if fs.len() > 0 {
        assert(readable_field(fs[0]));
        assert forall|i: int| 0 <= i < fs.drop_first().len() implies readable_field(
            #[trigger] fs.drop_first()[i],
        ) by {
            assert(fs.drop_first()[i] == fs[i + 1]);
        }
        lemma_field_bytes(fs[0]);
        lemma_header_text_bytes(fs.drop_first());
        lemma_encode_concat(field_text(fs[0]), "\n"@);
        lemma_encode_concat(field_text(fs[0]) + "\n"@, header_text(fs.drop_first()));
    }
}

proof fn lemma_export_record_bytes(fs: Seq<FieldV>)
    requires
        forall|i: int| 0 <= i < fs.len() ==> readable_field(#[trigger] fs[i]),
    ensures
        encode_utf8(record_text(fs)) == record_bytes(fs, seq![32u8], seq![10u8]),
    decreases fs.len(),
{
    lemma_eor_bytes();
    lemma_newline_bytes();
    if fs.len() == 0 {
        reveal_strlit("<EOR>\n");
        reveal_strlit("<EOR>");
        reveal_strlit("\n");
        assert("<EOR>\n"@ =~= "<EOR>"@ + "\n"@);
        lemma_encode_concat("<EOR>"@, "\n"@);
    } else {
        assert(readable_field(fs[0]));
        assert forall|i: int| 0 <= i < fs.drop_first().len() implies readable_field(
            #[trigger] fs.drop_first()[i],
        ) by {
            assert(fs.drop_first()[i] == fs[i + 1]);
        }
        lemma_field_bytes(fs[0]);
        lemma_export_record_bytes(fs.drop_first());
        lemma_encode_concat(field_text(fs[0]), " "@);
        lemma_encode_concat(field_text(fs[0]) + " "@, record_text(fs.drop_first()));
    }
}

proof fn lemma_export_records_bytes(rs: Seq<Seq<FieldV>>)
    requires
        forall|k: int| 0 <= k < rs.len() ==> readable_record(#[trigger] rs[k]),
    ensures
        encode_utf8(records_text(rs)) == records_bytes(rs, seq![32u8], seq![10u8]),
    decreases rs.len(),
{
    if rs.len() == 0 {
        assert(encode_utf8(records_text(rs)) =~= seq![]);
    } else {
        assert(readable_record(rs[rs.len() - 1]));
        assert forall|k: int| 0 <= k < rs.drop_last().len() implies readable_record(
            #[trigger] rs.drop_last()[k],
        ) by {
            assert(rs.drop_last()[k] == rs[k]);
        }
        lemma_export_records_bytes(rs.drop_last());
        lemma_export_record_bytes(rs.last());
        lemma_encode_concat(records_text(rs.drop_last()), record_text(rs.last()));
    }
}

/// The header fields of a document written with the default options.
pub open spec fn default_header_fields() -> Seq<FieldV> {
    seq![("ADIF_VER"@, "3.1.4"@), ("PROGRAMID"@, "slogger"@), ("PROGRAMVERSION"@, "0.1.0"@)]
}

proof fn lemma_default_document(rs: Seq<Seq<FieldV>>)
    ensures
        document_text("ADIF export by slogger"@, "3.1.4"@, "slogger"@, "0.1.0"@, rs)
            == "ADIF export by slogger"@ + "\n"@ + header_text(default_header_fields()) + "\n"@
            + records_text(rs),
        forall|i: int|
            0 <= i < default_header_fields().len() ==> readable_field(
                #[trigger] default_header_fields()[i],
            ),
{
    reveal_strlit("<EOH>\n");
    reveal_strlit("<EOH>");
    reveal_strlit("\n");
    reveal_strlit("ADIF_VER");
    reveal_strlit("PROGRAMID");
    reveal_strlit("PROGRAMVERSION");
    reveal_strlit("3.1.4");
    reveal_strlit("slogger");
    reveal_strlit("0.1.0");
    let fs = default_header_fields();
    assert(fs.drop_first() =~= seq![("PROGRAMID"@, "slogger"@), ("PROGRAMVERSION"@, "0.1.0"@)]);
    assert(fs.drop_first().drop_first() =~= seq![("PROGRAMVERSION"@, "0.1.0"@)]);
    assert(fs.drop_first().drop_first().drop_first() =~= seq![]);
    assert("<EOH>\n"@ =~= "<EOH>"@ + "\n"@);
    let f1 = ("ADIF_VER"@, "3.1.4"@);
    let f2 = ("PROGRAMID"@, "slogger"@);
    let f3 = ("PROGRAMVERSION"@, "0.1.0"@);
    assert(header_text(fs.drop_first().drop_first().drop_first()) == "<EOH>"@);
    assert(header_text(fs.drop_first().drop_first()) == field_text(f3) + "\n"@ + "<EOH>"@);
    assert(header_text(fs.drop_first()) == field_text(f2) + "\n"@ + (field_text(f3) + "\n"@ + "<EOH>"@));
    assert(header_text(fs) == field_text(f1) + "\n"@ + (field_text(f2) + "\n"@ + (field_text(f3) + "\n"@
        + "<EOH>"@)));
    assert(document_text("ADIF export by slogger"@, "3.1.4"@, "slogger"@, "0.1.0"@, rs)
        =~= "ADIF export by slogger"@ + "\n"@ + header_text(fs) + "\n"@ + records_text(rs));
    assert(plain_name("ADIF_VER"@) && plain_name("PROGRAMID"@) && plain_name("PROGRAMVERSION"@));
    is_ascii_chars_encode_utf8("3.1.4"@);
    is_ascii_chars_encode_utf8("slogger"@);
    is_ascii_chars_encode_utf8("0.1.0"@);
    assert forall|i: int| 0 <= i < fs.len() implies readable_field(#[trigger] fs[i]) by {
        assert(encode_utf8(fs[i].1).len() <= 7);
    }
}

/// Reading a document written with the default header gives back the
/// records written, for records that each have a field, whose names are
/// upper-case ADIF names and whose values have machine-sized lengths.
pub proof fn law_default_export_reads_back(rs: Seq<Seq<FieldV>>)
    requires
        forall|k: int| 0 <= k < rs.len() ==> readable_record(#[trigger] rs[k]),
    ensures
        adi_records(
            encode_utf8(document_text("ADIF export by slogger"@, "3.1.4"@, "slogger"@, "0.1.0"@, rs)),
        ) == rs,
{
    lemma_default_document(rs);
    let pre = "ADIF export by slogger"@ + "\n"@;
    let fs = default_header_fields();
    lemma_header_text_bytes(fs);
    lemma_export_records_bytes(rs);
    lemma_newline_bytes();
    lemma_encode_concat(pre, header_text(fs));
    lemma_encode_concat(pre + header_text(fs), "\n"@);
    lemma_encode_concat(pre + header_text(fs) + "\n"@, records_text(rs));
    reveal_strlit("ADIF export by slogger");
    reveal_strlit("\n");
    assert(forall|i: int| 0 <= i < pre.len() ==> pre[i] != '<');
    lemma_encode_no_lt(pre);
    let ep = encode_utf8(pre);
    let hb = header_bytes(fs, seq![10u8]);
    let rb = records_bytes(rs, seq![32u8], seq![10u8]);
    let b = encode_utf8(pre + header_text(fs) + "\n"@ + records_text(rs));
    assert(b == ep + hb + seq![10u8] + rb);
    assert forall|k: int| 0 <= k < ep.len() implies b[k] != 60 by {
        assert(b[k] == ep[k]);
    }
    lemma_reader_skip_run(true, b, 0, ep.len() as int, seq![], seq![]);
    assert(b.subrange(ep.len() as int, (ep.len() + hb.len()) as int) =~= hb);
    assert(no_lt(seq![10u8]));
    lemma_reader_header(b, ep.len() as int, fs, seq![10u8], seq![], seq![]);
    let p = (ep.len() + hb.len()) as int;
    assert(b[p] == 10);
    lemma_reader_skip(false, b, p, seq![], seq![]);
    assert(b.subrange(p + 1, b.len() as int) =~= rb);
    assert(rs.take(0) =~= seq![]);
    assert(records_bytes(rs.take(0), seq![32u8], seq![10u8]) =~= seq![]);
    assert(no_lt(seq![32u8]));
    lemma_reader_records(false, b, p + 1, rs, seq![32u8], seq![10u8], 0);
}

/// The names of the fields are upper-case ADIF names.
pub open spec fn names_plain(fs: Seq<FieldV>) -> bool {
    forall|i: int| 0 <= i < fs.len() ==> plain_name(#[trigger] fs[i].0)
}

proof fn lemma_names_plain_concat(a: Seq<FieldV>, b: Seq<FieldV>)
    requires
        names_plain(a),
        names_plain(b),
    ensures
        names_plain(a + b),
{
    assert forall|i: int| 0 <= i < (a + b).len() implies plain_name(#[trigger] (a + b)[i].0) by {
        if i < a.len() {
            assert((a + b)[i] == a[i]);
        } else {
            assert((a + b)[i] == b[i - a.len()]);
        }
    }
}

proof fn lemma_opt_field_plain(name: Seq<char>, v: Option<Seq<char>>)
    requires
        plain_name(name),
    ensures
        names_plain(opt_field(name, v)),
{
}

/// Every value of a QSO's record has a machine-sized UTF-8 length.
pub open spec fn qso_values_fit(q: Qso) -> bool {
    forall|i: int| 0 <= i < qso_record(q).len() ==> encode_utf8(#[trigger] qso_record(q)[i].1).len() <= usize::MAX
}

proof fn lemma_field_names_plain()
    ensures
        plain_name("CALL"@),
        plain_name("QSO_DATE"@),
        plain_name("TIME_ON"@),
        plain_name("QSO_DATE_OFF"@),
        plain_name("TIME_OFF"@),
        plain_name("BAND"@),
        plain_name("FREQ"@),
        plain_name("MODE"@),
        plain_name("SUBMODE"@),
        plain_name("RST_SENT"@),
        plain_name("RST_RCVD"@),
        plain_name("STATION_CALLSIGN"@),
        plain_name("OPERATOR"@),
        plain_name("DXCC"@),
        plain_name("PFX"@),
        plain_name("CONT"@),
        plain_name("CQZ"@),
        plain_name("ITUZ"@),
        plain_name("GRIDSQUARE"@),
        plain_name("STATE"@),
        plain_name("CNTY"@),
        plain_name("VE_PROV"@),
        plain_name("IOTA"@),
        plain_name("TX_PWR"@),
        plain_name("RX_PWR"@),
        plain_name("PROP_MODE"@),
        plain_name("SAT_NAME"@),
        plain_name("SAT_MODE"@),
{
    reveal_strlit("CALL");
    reveal_strlit("QSO_DATE");
    reveal_strlit("TIME_ON");
    reveal_strlit("QSO_DATE_OFF");
    reveal_strlit("TIME_OFF");
    reveal_strlit("BAND");
    reveal_strlit("FREQ");
    reveal_strlit("MODE");
    reveal_strlit("SUBMODE");
    reveal_strlit("RST_SENT");
    reveal_strlit("RST_RCVD");
    reveal_strlit("STATION_CALLSIGN");
    reveal_strlit("OPERATOR");
    reveal_strlit("DXCC");
    reveal_strlit("PFX");
    reveal_strlit("CONT");
    reveal_strlit("CQZ");
    reveal_strlit("ITUZ");
    reveal_strlit("GRIDSQUARE");
    reveal_strlit("STATE");
    reveal_strlit("CNTY");
    reveal_strlit("VE_PROV");
    reveal_strlit("IOTA");
    reveal_strlit("TX_PWR");
    reveal_strlit("RX_PWR");
    reveal_strlit("PROP_MODE");
    reveal_strlit("SAT_NAME");
    reveal_strlit("SAT_MODE");
}

#[verifier::spinoff_prover]
#[verifier::rlimit(50)]
proof fn lemma_qso_record_plain(q: Qso)
    ensures
        qso_record(q).len() > 0,
        names_plain(qso_record(q)),
{
    reveal(qso_record);
    lemma_field_names_plain();
    let p0: Seq<FieldV> = seq![("CALL"@, q.call@), ("QSO_DATE"@, date_compact(q.qso_begin)), ("TIME_ON"@, time_compact(q.qso_begin))];
    assert(names_plain(p0));
    let x1: Seq<FieldV> = match q.qso_end {
            Some(e) => (if e.year != q.qso_begin.year || e.month != q.qso_begin.month || e.day
                != q.qso_begin.day {
                seq![("QSO_DATE_OFF"@, date_compact(e))]
            } else {
                seq![]
            }) + seq![("TIME_OFF"@, time_compact(e))],
            None => seq![],
        };
    assert(names_plain(x1));
    lemma_names_plain_concat(p0, x1);
    let p1 = p0 + x1;
    let x2: Seq<FieldV> = opt_field("BAND"@, match q.band { Some(b) => Some(band_adif(b)), None => None });
    lemma_opt_field_plain("BAND"@, match q.band { Some(b) => Some(band_adif(b)), None => None });
    lemma_names_plain_concat(p1, x2);
    let p2 = p1 + x2;
    let x3: Seq<FieldV> = opt_field("FREQ"@, match q.freq_hz { Some(hz) => Some(freq_mhz_text(hz as int)), None => None });
    lemma_opt_field_plain("FREQ"@, match q.freq_hz { Some(hz) => Some(freq_mhz_text(hz as int)), None => None });
    lemma_names_plain_concat(p2, x3);
    let p3 = p2 + x3;
    let x4: Seq<FieldV> = opt_field("MODE"@, match q.mode { Some(m) => Some(mode_adif(m@)), None => None });
    lemma_opt_field_plain("MODE"@, match q.mode { Some(m) => Some(mode_adif(m@)), None => None });
    lemma_names_plain_concat(p3, x4);
    let p4 = p3 + x4;
    let x5: Seq<FieldV> = opt_field("SUBMODE"@, opt_view(q.submode));
    lemma_opt_field_plain("SUBMODE"@, opt_view(q.submode));
    lemma_names_plain_concat(p4, x5);
    let p5 = p4 + x5;
    let x6: Seq<FieldV> = opt_field("RST_SENT"@, opt_view(q.rst_sent));
    lemma_opt_field_plain("RST_SENT"@, opt_view(q.rst_sent));
    lemma_names_plain_concat(p5, x6);
    let p6 = p5 + x6;
    let x7: Seq<FieldV> = opt_field("RST_RCVD"@, opt_view(q.rst_rcvd));
    lemma_opt_field_plain("RST_RCVD"@, opt_view(q.rst_rcvd));
    lemma_names_plain_concat(p6, x7);
    let p7 = p6 + x7;
    let x8: Seq<FieldV> = opt_field("STATION_CALLSIGN"@, match q.station_callsign { Some(c) => Some(c@), None => None });
    lemma_opt_field_plain("STATION_CALLSIGN"@, match q.station_callsign { Some(c) => Some(c@), None => None });
    lemma_names_plain_concat(p7, x8);
    let p8 = p7 + x8;
    let x9: Seq<FieldV> = opt_field("OPERATOR"@, match q.owner_callsign { Some(c) => Some(c@), None => None });
    lemma_opt_field_plain("OPERATOR"@, match q.owner_callsign { Some(c) => Some(c@), None => None });
    lemma_names_plain_concat(p8, x9);
    let p9 = p8 + x9;
    let x10: Seq<FieldV> = opt_field("DXCC"@, match q.dxcc_id { Some(d) => Some(dec(d as nat)), None => None });
    lemma_opt_field_plain("DXCC"@, match q.dxcc_id { Some(d) => Some(dec(d as nat)), None => None });
    lemma_names_plain_concat(p9, x10);
    let p10 = p9 + x10;
    let x11: Seq<FieldV> = opt_field("PFX"@, opt_view(q.dxcc_prefix));
    lemma_opt_field_plain("PFX"@, opt_view(q.dxcc_prefix));
    lemma_names_plain_concat(p10, x11);
    let p11 = p10 + x11;
    let x12: Seq<FieldV> = opt_field("CONT"@, opt_view(q.continent));
    lemma_opt_field_plain("CONT"@, opt_view(q.continent));
    lemma_names_plain_concat(p11, x12);
    let p12 = p11 + x12;
    let x13: Seq<FieldV> = opt_field("CQZ"@, match q.cq_zone { Some(z) => Some(dec(z as nat)), None => None });
    lemma_opt_field_plain("CQZ"@, match q.cq_zone { Some(z) => Some(dec(z as nat)), None => None });
    lemma_names_plain_concat(p12, x13);
    let p13 = p12 + x13;
    let x14: Seq<FieldV> = opt_field("ITUZ"@, match q.itu_zone { Some(z) => Some(dec(z as nat)), None => None });
    lemma_opt_field_plain("ITUZ"@, match q.itu_zone { Some(z) => Some(dec(z as nat)), None => None });
    lemma_names_plain_concat(p13, x14);
    let p14 = p13 + x14;
    let x15: Seq<FieldV> = opt_field("GRIDSQUARE"@, opt_view(q.grid));
    lemma_opt_field_plain("GRIDSQUARE"@, opt_view(q.grid));
    lemma_names_plain_concat(p14, x15);
    let p15 = p14 + x15;
    let x16: Seq<FieldV> = opt_field("STATE"@, opt_view(q.state));
    lemma_opt_field_plain("STATE"@, opt_view(q.state));
    lemma_names_plain_concat(p15, x16);
    let p16 = p15 + x16;
    let x17: Seq<FieldV> = opt_field("CNTY"@, opt_view(q.county));
    lemma_opt_field_plain("CNTY"@, opt_view(q.county));
    lemma_names_plain_concat(p16, x17);
    let p17 = p16 + x17;
    let x18: Seq<FieldV> = opt_field("VE_PROV"@, opt_view(q.province));
    lemma_opt_field_plain("VE_PROV"@, opt_view(q.province));
    lemma_names_plain_concat(p17, x18);
    let p18 = p17 + x18;
    let x19: Seq<FieldV> = opt_field("IOTA"@, opt_view(q.iota));
    lemma_opt_field_plain("IOTA"@, opt_view(q.iota));
    lemma_names_plain_concat(p18, x19);
    let p19 = p18 + x19;
    let x20: Seq<FieldV> = opt_field("TX_PWR"@, opt_view(q.tx_power_w));
    lemma_opt_field_plain("TX_PWR"@, opt_view(q.tx_power_w));
    lemma_names_plain_concat(p19, x20);
    let p20 = p19 + x20;
    let x21: Seq<FieldV> = opt_field("RX_PWR"@, opt_view(q.rx_power_w));
    lemma_opt_field_plain("RX_PWR"@, opt_view(q.rx_power_w));
    lemma_names_plain_concat(p20, x21);
    let p21 = p20 + x21;
    let x22: Seq<FieldV> = opt_field("PROP_MODE"@, match q.propagation_mode { Some(p) => Some(prop_mode_adif(p@)), None => None });
    lemma_opt_field_plain("PROP_MODE"@, match q.propagation_mode { Some(p) => Some(prop_mode_adif(p@)), None => None });
    lemma_names_plain_concat(p21, x22);
    let p22 = p21 + x22;
    let x23: Seq<FieldV> = opt_field("SAT_NAME"@, opt_view(q.sat_name));
    lemma_opt_field_plain("SAT_NAME"@, opt_view(q.sat_name));
    lemma_names_plain_concat(p22, x23);
    let p23 = p22 + x23;
    let x24: Seq<FieldV> = opt_field("SAT_MODE"@, opt_view(q.sat_mode));
    lemma_opt_field_plain("SAT_MODE"@, opt_view(q.sat_mode));
    lemma_names_plain_concat(p23, x24);
    let p24 = p23 + x24;
    assert(qso_record(q) == p24);
}

/// Reading back an exported log gives back the fields written for each
/// QSO, for QSOs whose values have machine-sized lengths.
pub proof fn law_exported_qsos_read_back(qsos: Seq<Qso>)
    requires
        forall|k: int| 0 <= k < qsos.len() ==> qso_values_fit(#[trigger] qsos[k]),
    ensures
        adi_records(
            encode_utf8(
                document_text(
                    "ADIF export by slogger"@,
                    "3.1.4"@,
                    "slogger"@,
                    "0.1.0"@,
                    qsos.map_values(|q: Qso| qso_record(q)),
                ),
            ),
        ) == qsos.map_values(|q: Qso| qso_record(q)),
{
    let rs = qsos.map_values(|q: Qso| qso_record(q));
    assert forall|k: int| 0 <= k < rs.len() implies readable_record(#[trigger] rs[k]) by {
        let q = qsos[k];
        assert(rs[k] == qso_record(q));
        assert(qso_values_fit(q));
        lemma_qso_record_plain(q);
        assert forall|i: int| 0 <= i < rs[k].len() implies readable_field(#[trigger] rs[k][i]) by {
            assert(plain_name(rs[k][i].0));
            assert(encode_utf8(qso_record(q)[i].1).len() <= usize::MAX);
        }
    }
    law_default_export_reads_back(rs);
}

proof fn lemma_lookup_concat(a: Seq<FieldV>, b: Seq<FieldV>, n: Seq<char>)
    ensures
        lookup(a + b, n) == (if lookup(a, n) is Some {
            lookup(a, n)
        } else {
            lookup(b, n)
        }),
    decreases a.len(),
{
    if a.len() > 0 {
        assert((a + b)[0] == a[0]);
        assert((a + b).drop_first() =~= a.drop_first() + b);
        lemma_lookup_concat(a.drop_first(), b, n);
    } else {
        assert(a + b =~= b);
    }
}

proof fn lemma_lookup_one(f: FieldV, n: Seq<char>)
    ensures
        lookup(seq![f], n) == (if f.0 == n {
            Some(f.1)
        } else {
            None
        }),
{
    assert(seq![f][0] == f);
    assert(seq![f].drop_first() =~= Seq::<FieldV>::empty());
    assert(lookup(Seq::<FieldV>::empty(), n) is None);
}

/// No field of `s` is named `n`.
pub open spec fn no_name(s: Seq<FieldV>, n: Seq<char>) -> bool {
    forall|i: int| 0 <= i < s.len() ==> (#[trigger] s[i]).0 != n
}

proof fn lemma_lookup_absent(s: Seq<FieldV>, n: Seq<char>)
    requires
        no_name(s, n),
    ensures
        lookup(s, n) is None,
    decreases s.len(),
{
    if s.len() > 0 {
        assert(s[0].0 != n);
        assert forall|i: int| 0 <= i < s.drop_first().len() implies (#[trigger] s.drop_first()[i]).0 != n by {
            assert(s.drop_first()[i] == s[i + 1]);
        }
        lemma_lookup_absent(s.drop_first(), n);
    }
}

proof fn lemma_lookup_skip(a: Seq<FieldV>, x: Seq<FieldV>, n: Seq<char>)
    requires
        no_name(x, n),
    ensures
        lookup(a + x, n) == lookup(a, n),
{
    lemma_lookup_concat(a, x, n);
    lemma_lookup_absent(x, n);
}

proof fn lemma_opt_no_name(name: Seq<char>, v: Option<Seq<char>>, n: Seq<char>)
    requires
        name != n,
    ensures
        no_name(opt_field(name, v), n),
{
    match v {
        Some(x) => {
            assert(opt_field(name, v)[0] == (name, x));
        },
        None => {},
    }
}

/// A name that none of the optional fields of an exported QSO carries is
/// found, if at all, among its date and time fields.
#[verifier::spinoff_prover]
#[verifier::rlimit(50)]
proof fn lemma_record_lookup_head(q: Qso, n: Seq<char>)
    requires
        n != "BAND"@,
        n != "FREQ"@,
        n != "MODE"@,
        n != "SUBMODE"@,
        n != "RST_SENT"@,
        n != "RST_RCVD"@,
        n != "STATION_CALLSIGN"@,
        n != "OPERATOR"@,
        n != "DXCC"@,
        n != "PFX"@,
        n != "CONT"@,
        n != "CQZ"@,
        n != "ITUZ"@,
        n != "GRIDSQUARE"@,
        n != "STATE"@,
        n != "CNTY"@,
        n != "VE_PROV"@,
        n != "IOTA"@,
        n != "TX_PWR"@,
        n != "RX_PWR"@,
        n != "PROP_MODE"@,
        n != "SAT_NAME"@,
        n != "SAT_MODE"@,
    ensures
        lookup(qso_record(q), n) == lookup(
            seq![("CALL"@, q.call@), ("QSO_DATE"@, date_compact(q.qso_begin)), ("TIME_ON"@, time_compact(q.qso_begin))]
                + match q.qso_end {
                Some(e) => (if e.year != q.qso_begin.year || e.month != q.qso_begin.month || e.day
                    != q.qso_begin.day {
                    seq![("QSO_DATE_OFF"@, date_compact(e))]
                } else {
                    seq![]
                }) + seq![("TIME_OFF"@, time_compact(e))],
                None => seq![],
            },
            n,
        ),
{
    reveal(qso_record);
    let p0: Seq<FieldV> = seq![("CALL"@, q.call@), ("QSO_DATE"@, date_compact(q.qso_begin)), ("TIME_ON"@, time_compact(q.qso_begin))];
    let x1: Seq<FieldV> = match q.qso_end {
            Some(e) => (if e.year != q.qso_begin.year || e.month != q.qso_begin.month || e.day
                != q.qso_begin.day {
                seq![("QSO_DATE_OFF"@, date_compact(e))]
            } else {
                seq![]
            }) + seq![("TIME_OFF"@, time_compact(e))],
            None => seq![],
        };
    let p1 = p0 + x1;
    let x2: Seq<FieldV> = opt_field("BAND"@, match q.band { Some(b) => Some(band_adif(b)), None => None });
    lemma_opt_no_name("BAND"@, match q.band { Some(b) => Some(band_adif(b)), None => None }, n);
    lemma_lookup_skip(p1, x2, n);
    let p2 = p1 + x2;
    let x3: Seq<FieldV> = opt_field("FREQ"@, match q.freq_hz { Some(hz) => Some(freq_mhz_text(hz as int)), None => None });
    lemma_opt_no_name("FREQ"@, match q.freq_hz { Some(hz) => Some(freq_mhz_text(hz as int)), None => None }, n);
    lemma_lookup_skip(p2, x3, n);
    let p3 = p2 + x3;
    let x4: Seq<FieldV> = opt_field("MODE"@, match q.mode { Some(m) => Some(mode_adif(m@)), None => None });
    lemma_opt_no_name("MODE"@, match q.mode { Some(m) => Some(mode_adif(m@)), None => None }, n);
    lemma_lookup_skip(p3, x4, n);
    let p4 = p3 + x4;
    let x5: Seq<FieldV> = opt_field("SUBMODE"@, opt_view(q.submode));
    lemma_opt_no_name("SUBMODE"@, opt_view(q.submode), n);
    lemma_lookup_skip(p4, x5, n);
    let p5 = p4 + x5;
    let x6: Seq<FieldV> = opt_field("RST_SENT"@, opt_view(q.rst_sent));
    lemma_opt_no_name("RST_SENT"@, opt_view(q.rst_sent), n);
    lemma_lookup_skip(p5, x6, n);
    let p6 = p5 + x6;
    let x7: Seq<FieldV> = opt_field("RST_RCVD"@, opt_view(q.rst_rcvd));
    lemma_opt_no_name("RST_RCVD"@, opt_view(q.rst_rcvd), n);
    lemma_lookup_skip(p6, x7, n);
    let p7 = p6 + x7;
    let x8: Seq<FieldV> = opt_field("STATION_CALLSIGN"@, match q.station_callsign { Some(c) => Some(c@), None => None });
    lemma_opt_no_name("STATION_CALLSIGN"@, match q.station_callsign { Some(c) => Some(c@), None => None }, n);
    lemma_lookup_skip(p7, x8, n);
    let p8 = p7 + x8;
    let x9: Seq<FieldV> = opt_field("OPERATOR"@, match q.owner_callsign { Some(c) => Some(c@), None => None });
    lemma_opt_no_name("OPERATOR"@, match q.owner_callsign { Some(c) => Some(c@), None => None }, n);
    lemma_lookup_skip(p8, x9, n);
    let p9 = p8 + x9;
    let x10: Seq<FieldV> = opt_field("DXCC"@, match q.dxcc_id { Some(d) => Some(dec(d as nat)), None => None });
    lemma_opt_no_name("DXCC"@, match q.dxcc_id { Some(d) => Some(dec(d as nat)), None => None }, n);
    lemma_lookup_skip(p9, x10, n);
    let p10 = p9 + x10;
    let x11: Seq<FieldV> = opt_field("PFX"@, opt_view(q.dxcc_prefix));
    lemma_opt_no_name("PFX"@, opt_view(q.dxcc_prefix), n);
    lemma_lookup_skip(p10, x11, n);
    let p11 = p10 + x11;
    let x12: Seq<FieldV> = opt_field("CONT"@, opt_view(q.continent));
    lemma_opt_no_name("CONT"@, opt_view(q.continent), n);
    lemma_lookup_skip(p11, x12, n);
    let p12 = p11 + x12;
    let x13: Seq<FieldV> = opt_field("CQZ"@, match q.cq_zone { Some(z) => Some(dec(z as nat)), None => None });
    lemma_opt_no_name("CQZ"@, match q.cq_zone { Some(z) => Some(dec(z as nat)), None => None }, n);
    lemma_lookup_skip(p12, x13, n);
    let p13 = p12 + x13;
    let x14: Seq<FieldV> = opt_field("ITUZ"@, match q.itu_zone { Some(z) => Some(dec(z as nat)), None => None });
    lemma_opt_no_name("ITUZ"@, match q.itu_zone { Some(z) => Some(dec(z as nat)), None => None }, n);
    lemma_lookup_skip(p13, x14, n);
    let p14 = p13 + x14;
    let x15: Seq<FieldV> = opt_field("GRIDSQUARE"@, opt_view(q.grid));
    lemma_opt_no_name("GRIDSQUARE"@, opt_view(q.grid), n);
    lemma_lookup_skip(p14, x15, n);
    let p15 = p14 + x15;
    let x16: Seq<FieldV> = opt_field("STATE"@, opt_view(q.state));
    lemma_opt_no_name("STATE"@, opt_view(q.state), n);
    lemma_lookup_skip(p15, x16, n);
    let p16 = p15 + x16;
    let x17: Seq<FieldV> = opt_field("CNTY"@, opt_view(q.county));
    lemma_opt_no_name("CNTY"@, opt_view(q.county), n);
    lemma_lookup_skip(p16, x17, n);
    let p17 = p16 + x17;
    let x18: Seq<FieldV> = opt_field("VE_PROV"@, opt_view(q.province));
    lemma_opt_no_name("VE_PROV"@, opt_view(q.province), n);
    lemma_lookup_skip(p17, x18, n);
    let p18 = p17 + x18;
    let x19: Seq<FieldV> = opt_field("IOTA"@, opt_view(q.iota));
    lemma_opt_no_name("IOTA"@, opt_view(q.iota), n);
    lemma_lookup_skip(p18, x19, n);
    let p19 = p18 + x19;
    let x20: Seq<FieldV> = opt_field("TX_PWR"@, opt_view(q.tx_power_w));
    lemma_opt_no_name("TX_PWR"@, opt_view(q.tx_power_w), n);
    lemma_lookup_skip(p19, x20, n);
    let p20 = p19 + x20;
    let x21: Seq<FieldV> = opt_field("RX_PWR"@, opt_view(q.rx_power_w));
    lemma_opt_no_name("RX_PWR"@, opt_view(q.rx_power_w), n);
    lemma_lookup_skip(p20, x21, n);
    let p21 = p20 + x21;
    let x22: Seq<FieldV> = opt_field("PROP_MODE"@, match q.propagation_mode { Some(p) => Some(prop_mode_adif(p@)), None => None });
    lemma_opt_no_name("PROP_MODE"@, match q.propagation_mode { Some(p) => Some(prop_mode_adif(p@)), None => None }, n);
    lemma_lookup_skip(p21, x22, n);
    let p22 = p21 + x22;
    let x23: Seq<FieldV> = opt_field("SAT_NAME"@, opt_view(q.sat_name));
    lemma_opt_no_name("SAT_NAME"@, opt_view(q.sat_name), n);
    lemma_lookup_skip(p22, x23, n);
    let p23 = p22 + x23;
    let x24: Seq<FieldV> = opt_field("SAT_MODE"@, opt_view(q.sat_mode));
    lemma_opt_no_name("SAT_MODE"@, opt_view(q.sat_mode), n);
    lemma_lookup_skip(p23, x24, n);
    let p24 = p23 + x24;
    assert(qso_record(q) == p24);
}

proof fn lemma_time_names()
    ensures
        "QSO_DATE"@ != "BAND"@,
        "QSO_DATE"@ != "FREQ"@,
        "QSO_DATE"@ != "MODE"@,
        "QSO_DATE"@ != "SUBMODE"@,
        "QSO_DATE"@ != "RST_SENT"@,
        "QSO_DATE"@ != "RST_RCVD"@,
        "QSO_DATE"@ != "STATION_CALLSIGN"@,
        "QSO_DATE"@ != "OPERATOR"@,
        "QSO_DATE"@ != "DXCC"@,
        "QSO_DATE"@ != "PFX"@,
        "QSO_DATE"@ != "CONT"@,
        "QSO_DATE"@ != "CQZ"@,
        "QSO_DATE"@ != "ITUZ"@,
        "QSO_DATE"@ != "GRIDSQUARE"@,
        "QSO_DATE"@ != "STATE"@,
        "QSO_DATE"@ != "CNTY"@,
        "QSO_DATE"@ != "VE_PROV"@,
        "QSO_DATE"@ != "IOTA"@,
        "QSO_DATE"@ != "TX_PWR"@,
        "QSO_DATE"@ != "RX_PWR"@,
        "QSO_DATE"@ != "PROP_MODE"@,
        "QSO_DATE"@ != "SAT_NAME"@,
        "QSO_DATE"@ != "SAT_MODE"@,
        "QSO_DATE"@ != "CALL"@,
        "QSO_DATE"@ != "TIME_ON"@,
        "QSO_DATE"@ != "TIME_OFF"@,
        "QSO_DATE"@ != "QSO_DATE_OFF"@,
        "TIME_ON"@ != "BAND"@,
        "TIME_ON"@ != "FREQ"@,
        "TIME_ON"@ != "MODE"@,
        "TIME_ON"@ != "SUBMODE"@,
        "TIME_ON"@ != "RST_SENT"@,
        "TIME_ON"@ != "RST_RCVD"@,
        "TIME_ON"@ != "STATION_CALLSIGN"@,
        "TIME_ON"@ != "OPERATOR"@,
        "TIME_ON"@ != "DXCC"@,
        "TIME_ON"@ != "PFX"@,
        "TIME_ON"@ != "CONT"@,
        "TIME_ON"@ != "CQZ"@,
        "TIME_ON"@ != "ITUZ"@,
        "TIME_ON"@ != "GRIDSQUARE"@,
        "TIME_ON"@ != "STATE"@,
        "TIME_ON"@ != "CNTY"@,
        "TIME_ON"@ != "VE_PROV"@,
        "TIME_ON"@ != "IOTA"@,
        "TIME_ON"@ != "TX_PWR"@,
        "TIME_ON"@ != "RX_PWR"@,
        "TIME_ON"@ != "PROP_MODE"@,
        "TIME_ON"@ != "SAT_NAME"@,
        "TIME_ON"@ != "SAT_MODE"@,
        "TIME_ON"@ != "CALL"@,
        "TIME_ON"@ != "QSO_DATE"@,
        "TIME_ON"@ != "TIME_OFF"@,
        "TIME_ON"@ != "QSO_DATE_OFF"@,
        "TIME_OFF"@ != "BAND"@,
        "TIME_OFF"@ != "FREQ"@,
        "TIME_OFF"@ != "MODE"@,
        "TIME_OFF"@ != "SUBMODE"@,
        "TIME_OFF"@ != "RST_SENT"@,
        "TIME_OFF"@ != "RST_RCVD"@,
        "TIME_OFF"@ != "STATION_CALLSIGN"@,
        "TIME_OFF"@ != "OPERATOR"@,
        "TIME_OFF"@ != "DXCC"@,
        "TIME_OFF"@ != "PFX"@,
        "TIME_OFF"@ != "CONT"@,
        "TIME_OFF"@ != "CQZ"@,
        "TIME_OFF"@ != "ITUZ"@,
        "TIME_OFF"@ != "GRIDSQUARE"@,
        "TIME_OFF"@ != "STATE"@,
        "TIME_OFF"@ != "CNTY"@,
        "TIME_OFF"@ != "VE_PROV"@,
        "TIME_OFF"@ != "IOTA"@,
        "TIME_OFF"@ != "TX_PWR"@,
        "TIME_OFF"@ != "RX_PWR"@,
        "TIME_OFF"@ != "PROP_MODE"@,
        "TIME_OFF"@ != "SAT_NAME"@,
        "TIME_OFF"@ != "SAT_MODE"@,
        "TIME_OFF"@ != "CALL"@,
        "TIME_OFF"@ != "QSO_DATE"@,
        "TIME_OFF"@ != "TIME_ON"@,
        "TIME_OFF"@ != "QSO_DATE_OFF"@,
        "QSO_DATE_OFF"@ != "BAND"@,
        "QSO_DATE_OFF"@ != "FREQ"@,
        "QSO_DATE_OFF"@ != "MODE"@,
        "QSO_DATE_OFF"@ != "SUBMODE"@,
        "QSO_DATE_OFF"@ != "RST_SENT"@,
        "QSO_DATE_OFF"@ != "RST_RCVD"@,
        "QSO_DATE_OFF"@ != "STATION_CALLSIGN"@,
        "QSO_DATE_OFF"@ != "OPERATOR"@,
        "QSO_DATE_OFF"@ != "DXCC"@,
        "QSO_DATE_OFF"@ != "PFX"@,
        "QSO_DATE_OFF"@ != "CONT"@,
        "QSO_DATE_OFF"@ != "CQZ"@,
        "QSO_DATE_OFF"@ != "ITUZ"@,
        "QSO_DATE_OFF"@ != "GRIDSQUARE"@,
        "QSO_DATE_OFF"@ != "STATE"@,
        "QSO_DATE_OFF"@ != "CNTY"@,
        "QSO_DATE_OFF"@ != "VE_PROV"@,
        "QSO_DATE_OFF"@ != "IOTA"@,
        "QSO_DATE_OFF"@ != "TX_PWR"@,
        "QSO_DATE_OFF"@ != "RX_PWR"@,
        "QSO_DATE_OFF"@ != "PROP_MODE"@,
        "QSO_DATE_OFF"@ != "SAT_NAME"@,
        "QSO_DATE_OFF"@ != "SAT_MODE"@,
        "QSO_DATE_OFF"@ != "CALL"@,
        "QSO_DATE_OFF"@ != "QSO_DATE"@,
        "QSO_DATE_OFF"@ != "TIME_ON"@,
        "QSO_DATE_OFF"@ != "TIME_OFF"@,
{
    reveal_strlit("CALL");
    assert("CALL"@.len() == 4 && "CALL"@[0] == 'C');
    reveal_strlit("QSO_DATE");
    assert("QSO_DATE"@.len() == 8 && "QSO_DATE"@[0] == 'Q');
    reveal_strlit("TIME_ON");
    assert("TIME_ON"@.len() == 7 && "TIME_ON"@[0] == 'T');
    reveal_strlit("QSO_DATE_OFF");
    assert("QSO_DATE_OFF"@.len() == 12 && "QSO_DATE_OFF"@[0] == 'Q');
    reveal_strlit("TIME_OFF");
    assert("TIME_OFF"@.len() == 8 && "TIME_OFF"@[0] == 'T');
    reveal_strlit("BAND");
    assert("BAND"@.len() == 4 && "BAND"@[0] == 'B');
    reveal_strlit("FREQ");
    assert("FREQ"@.len() == 4 && "FREQ"@[0] == 'F');
    reveal_strlit("MODE");
    assert("MODE"@.len() == 4 && "MODE"@[0] == 'M');
    reveal_strlit("SUBMODE");
    assert("SUBMODE"@.len() == 7 && "SUBMODE"@[0] == 'S');
    reveal_strlit("RST_SENT");
    assert("RST_SENT"@.len() == 8 && "RST_SENT"@[0] == 'R');
    reveal_strlit("RST_RCVD");
    assert("RST_RCVD"@.len() == 8 && "RST_RCVD"@[0] == 'R');
    reveal_strlit("STATION_CALLSIGN");
    assert("STATION_CALLSIGN"@.len() == 16 && "STATION_CALLSIGN"@[0] == 'S');
    reveal_strlit("OPERATOR");
    assert("OPERATOR"@.len() == 8 && "OPERATOR"@[0] == 'O');
    reveal_strlit("DXCC");
    assert("DXCC"@.len() == 4 && "DXCC"@[0] == 'D');
    reveal_strlit("PFX");
    assert("PFX"@.len() == 3 && "PFX"@[0] == 'P');
    reveal_strlit("CONT");
    assert("CONT"@.len() == 4 && "CONT"@[0] == 'C');
    reveal_strlit("CQZ");
    assert("CQZ"@.len() == 3 && "CQZ"@[0] == 'C');
    reveal_strlit("ITUZ");
    assert("ITUZ"@.len() == 4 && "ITUZ"@[0] == 'I');
    reveal_strlit("GRIDSQUARE");
    assert("GRIDSQUARE"@.len() == 10 && "GRIDSQUARE"@[0] == 'G');
    reveal_strlit("STATE");
    assert("STATE"@.len() == 5 && "STATE"@[0] == 'S');
    reveal_strlit("CNTY");
    assert("CNTY"@.len() == 4 && "CNTY"@[0] == 'C');
    reveal_strlit("VE_PROV");
    assert("VE_PROV"@.len() == 7 && "VE_PROV"@[0] == 'V');
    reveal_strlit("IOTA");
    assert("IOTA"@.len() == 4 && "IOTA"@[0] == 'I');
    reveal_strlit("TX_PWR");
    assert("TX_PWR"@.len() == 6 && "TX_PWR"@[0] == 'T');
    reveal_strlit("RX_PWR");
    assert("RX_PWR"@.len() == 6 && "RX_PWR"@[0] == 'R');
    reveal_strlit("PROP_MODE");
    assert("PROP_MODE"@.len() == 9 && "PROP_MODE"@[0] == 'P');
    reveal_strlit("SAT_NAME");
    assert("SAT_NAME"@.len() == 8 && "SAT_NAME"@[0] == 'S');
    reveal_strlit("SAT_MODE");
    assert("SAT_MODE"@.len() == 8 && "SAT_MODE"@[0] == 'S');
}

/// Where an exported QSO's times stand: `QSO_DATE` and `TIME_ON` hold its
/// start; `TIME_OFF` holds its end's time of day, and its end's date is
/// `QSO_DATE_OFF`, or the start's date when the record has none. A QSO
/// without an end is written without `TIME_OFF` and `QSO_DATE_OFF`.
pub proof fn law_export_times(q: Qso)
    ensures
        lookup(qso_record(q), "QSO_DATE"@) == Some(date_compact(q.qso_begin)),
        lookup(qso_record(q), "TIME_ON"@) == Some(time_compact(q.qso_begin)),
        match q.qso_end {
            Some(e) => {
                &&& lookup(qso_record(q), "TIME_OFF"@) == Some(time_compact(e))
                &&& date_compact(e) == match lookup(qso_record(q), "QSO_DATE_OFF"@) {
                    Some(d) => d,
                    None => date_compact(q.qso_begin),
                }
            },
            None => lookup(qso_record(q), "TIME_OFF"@) is None && lookup(
                qso_record(q),
                "QSO_DATE_OFF"@,
            ) is None,
        },
{
    lemma_time_names();
    lemma_record_lookup_head(q, "QSO_DATE"@);
    lemma_record_lookup_head(q, "TIME_ON"@);
    lemma_record_lookup_head(q, "TIME_OFF"@);
    lemma_record_lookup_head(q, "QSO_DATE_OFF"@);
    let b = q.qso_begin;
    let f0 = ("CALL"@, q.call@);
    let f1 = ("QSO_DATE"@, date_compact(b));
    let f2 = ("TIME_ON"@, time_compact(b));
    let p0: Seq<FieldV> = seq![f0, f1, f2];
    assert(p0 =~= seq![f0] + seq![f1] + seq![f2]);
    assert forall|f: FieldV, n: Seq<char>| #[trigger] lookup(seq![f], n) == (if f.0 == n {
        Some(f.1)
    } else {
        None
    }) by {
        lemma_lookup_one(f, n);
    }
    assert forall|a: Seq<FieldV>, c: Seq<FieldV>, n: Seq<char>| #[trigger] lookup(a + c, n) == (if lookup(
        a,
        n,
    ) is Some {
        lookup(a, n)
    } else {
        lookup(c, n)
    }) by {
        lemma_lookup_concat(a, c, n);
    }
    assert(lookup(Seq::<FieldV>::empty(), "TIME_OFF"@) is None);
    assert(lookup(Seq::<FieldV>::empty(), "QSO_DATE_OFF"@) is None);
}

/// Importing an exported QSO reads its times back as they were written:
/// the command starts at what the QSO's start date and time read as, and
/// ends at what its end date and time read as, or has no end when the QSO
/// had none.
pub proof fn law_exported_times_read_back(q: Qso, c: CreateQsoCommand)
    requires
        command_fits(c, qso_record(q)),
    ensures
        Some(c.qso_begin) == adif_datetime(date_compact(q.qso_begin), time_compact(q.qso_begin)),
        c.qso_end == match q.qso_end {
            Some(e) => adif_datetime(date_compact(e), time_compact(e)),
            None => None,
        },
{
    law_export_times(q);
}

} // verus!
