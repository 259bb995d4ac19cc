//! Writer for ADIF `.adi` text.
//!
//! The document is a preamble line, the header fields, `<EOH>`, then one
//! line per QSO ending in `<EOR>`. A field is written `<NAME:LEN>VALUE`,
//! LEN being the length of VALUE in bytes of UTF-8.
use vstd::prelude::*;
use vstd::string::StringSliceAdditionalSpecFns;
use vstd::utf8::encode_utf8;

use crate::adif::{record_view, AdifField, FieldV};
use crate::datetime::{date_compact, time_compact};
use crate::import::opt_view;
use crate::qso::Qso;
use crate::text::{dec, dec_chars, dec_chars_padded, dec_padded, dec_string, string_from_chars};
use crate::value::{band_adif, mode_adif, string_of, PropagationMode, PropagationModeV};

verus! {

/// What goes into the header of an export.
#[derive(Debug, Clone)]
pub struct ExportOptions {
    pub program_id: String,
    pub program_version: String,
    pub adif_version: String,
    pub preamble: Option<String>,
}

impl Default for ExportOptions {
    fn default() -> (r: ExportOptions)
        ensures
            r.program_id@ == "slogger"@,
            r.program_version@ == "0.1.0"@,
            r.adif_version@ == "3.1.4"@,
            r.preamble is None,
    {
        ExportOptions {
            program_id: string_of("slogger"),
            program_version: string_of("0.1.0"),
            adif_version: string_of("3.1.4"),
            preamble: None,
        }
    }
}

/// The length of a text in bytes of UTF-8, as `str::len` gives it.
pub open spec fn utf8_len(s: Seq<char>) -> nat {
    (encode_utf8(s).len() as usize) as nat
}

/// `<NAME:LEN>VALUE`.
pub open spec fn field_text(f: FieldV) -> Seq<char> {
    "<"@ + f.0 + ":"@ + dec(utf8_len(f.1)) + ">"@ + f.1
}

/// The fields of a record, each followed by a space, then `<EOR>` and a
/// line break.
pub open spec fn record_text(fs: Seq<FieldV>) -> Seq<char>
    decreases fs.len(),
{
    if fs.len() == 0 {
        "<EOR>\n"@
    } else {
        field_text(fs[0]) + " "@ + record_text(fs.drop_first())
    }
}

/// The records one after the other.
pub open spec fn records_text(rs: Seq<Seq<FieldV>>) -> Seq<char>
    decreases rs.len(),
{
    if rs.len() == 0 {
        seq![]
    } else {
        records_text(rs.drop_last()) + record_text(rs.last())
    }
}

/// The preamble: the one given, or `ADIF export by` and the program id.
pub open spec fn preamble_text(o: ExportOptions) -> Seq<char> {
    match o.preamble {
        Some(p) => p@,
        None => "ADIF export by "@ + o.program_id@,
    }
}

/// A document: the preamble, the header fields `ADIF_VER`, `PROGRAMID`,
/// `PROGRAMVERSION` on lines of their own, `<EOH>`, then the records.
pub open spec fn document_text(
    preamble: Seq<char>,
    adif_version: Seq<char>,
    program_id: Seq<char>,
    program_version: Seq<char>,
    rs: Seq<Seq<FieldV>>,
) -> Seq<char> {
    preamble + "\n"@ + field_text(("ADIF_VER"@, adif_version)) + "\n"@ + field_text(
        ("PROGRAMID"@, program_id),
    ) + "\n"@ + field_text(("PROGRAMVERSION"@, program_version)) + "\n"@ + "<EOH>\n"@
        + records_text(rs)
}

/// The document written under the options `o`.
pub open spec fn adi_document(o: ExportOptions, rs: Seq<Seq<FieldV>>) -> Seq<char> {
    document_text(preamble_text(o), o.adif_version@, o.program_id@, o.program_version@, rs)
}

/// `(name, value)` when a value is present.
pub open spec fn opt_field(name: Seq<char>, v: Option<Seq<char>>) -> Seq<FieldV> {
    match v {
        Some(x) => seq![(name, x)],
        None => seq![],
    }
}

/// A frequency in Hz as MHz with six decimals.
pub open spec fn freq_mhz_text(hz: int) -> Seq<char> {
    let n = if hz < 0 {
        -hz
    } else {
        hz
    };
    (if hz < 0 {
        "-"@
    } else {
        seq![]
    }) + dec((n / 1_000_000) as nat) + "."@ + dec_padded((n % 1_000_000) as nat, 6)
}

/// The ADIF `PROP_MODE` of a propagation mode (terrestrial has none, and
/// is written empty).
pub open spec fn prop_mode_adif(p: PropagationModeV) -> Seq<char> {
    match p {
        PropagationModeV::Terrestrial => seq![],
        PropagationModeV::Satellite => "SAT"@,
        PropagationModeV::Eme => "EME"@,
        PropagationModeV::MeteorScatter => "MS"@,
        PropagationModeV::Aurora => "AUR"@,
        PropagationModeV::AircraftScatter => "AS"@,
        PropagationModeV::Other(s) => s,
    }
}

/// The fields written for a QSO, in order. `QSO_DATE_OFF` appears only
/// when the QSO ended on another date than it began.
#[verifier::opaque]
pub open spec fn qso_record(q: Qso) -> Seq<FieldV> {
    seq![("CALL"@, q.call@), ("QSO_DATE"@, date_compact(q.qso_begin)), ("TIME_ON"@, time_compact(q.qso_begin))]
        + match q.qso_end {
        Some(e) => (if e.year != q.qso_begin.year || e.month != q.qso_begin.month || e.day
            != q.qso_begin.day {
            seq![("QSO_DATE_OFF"@, date_compact(e))]
        } else {
            seq![]
        }) + seq![("TIME_OFF"@, time_compact(e))],
        None => seq![],
    } + opt_field(
        "BAND"@,
        match q.band {
            Some(b) => Some(band_adif(b)),
            None => None,
        },
    ) + opt_field(
        "FREQ"@,
        match q.freq_hz {
            Some(hz) => Some(freq_mhz_text(hz as int)),
            None => None,
        },
    ) + opt_field(
        "MODE"@,
        match q.mode {
            Some(m) => Some(mode_adif(m@)),
            None => None,
        },
    ) + opt_field("SUBMODE"@, opt_view(q.submode)) + opt_field("RST_SENT"@, opt_view(q.rst_sent))
        + opt_field("RST_RCVD"@, opt_view(q.rst_rcvd)) + opt_field(
        "STATION_CALLSIGN"@,
        match q.station_callsign {
            Some(c) => Some(c@),
            None => None,
        },
    ) + opt_field(
        "OPERATOR"@,
        match q.owner_callsign {
            Some(c) => Some(c@),
            None => None,
        },
    ) + opt_field(
        "DXCC"@,
        match q.dxcc_id {
            Some(d) => Some(dec(d as nat)),
            None => None,
        },
    ) + opt_field("PFX"@, opt_view(q.dxcc_prefix)) + opt_field("CONT"@, opt_view(q.continent))
        + opt_field(
        "CQZ"@,
        match q.cq_zone {
            Some(z) => Some(dec(z as nat)),
            None => None,
        },
    ) + opt_field(
        "ITUZ"@,
        match q.itu_zone {
            Some(z) => Some(dec(z as nat)),
            None => None,
        },
    ) + opt_field("GRIDSQUARE"@, opt_view(q.grid)) + opt_field("STATE"@, opt_view(q.state))
        + opt_field("CNTY"@, opt_view(q.county)) + opt_field("VE_PROV"@, opt_view(q.province))
        + opt_field("IOTA"@, opt_view(q.iota)) + opt_field("TX_PWR"@, opt_view(q.tx_power_w))
        + opt_field("RX_PWR"@, opt_view(q.rx_power_w)) + opt_field(
        "PROP_MODE"@,
        match q.propagation_mode {
            Some(p) => Some(prop_mode_adif(p@)),
            None => None,
        },
    ) + opt_field("SAT_NAME"@, opt_view(q.sat_name)) + opt_field("SAT_MODE"@, opt_view(q.sat_mode))
}

fn field(name: &str, value: String) -> (r: AdifField)
    ensures
        r@ == (name@, value@),
{
    AdifField { name: string_of(name), value }
}

fn push_opt(rec: &mut Vec<AdifField>, name: &str, v: Option<String>)
    ensures
        record_view(final(rec)@) == record_view(old(rec)@) + opt_field(name@, opt_view(v)),
{
    let ghost before = rec@;
    match v {
        Some(x) => {
            rec.push(field(name, x));
            assert(record_view(rec@) =~= record_view(before) + opt_field(name@, opt_view(v)));
        },
        None => {
            assert(record_view(rec@) =~= record_view(before) + opt_field(name@, opt_view(v)));
        },
    }
}

fn opt_string(o: &Option<String>) -> (r: Option<String>)
    ensures
        opt_view(r) == opt_view(*o),
{
    match o {
        Some(s) => Some(string_of(s.as_str())),
        None => None,
    }
}

/// `freq_mhz_text` of a frequency.
pub fn freq_mhz_string(hz: i64) -> (r: String)
    ensures
        r@ == freq_mhz_text(hz as int),
{
    let n: u64 = if hz < 0 {
        if hz == i64::MIN {
            9_223_372_036_854_775_808u64
        } else {
            (-hz) as u64
        }
    } else {
        hz as u64
    };
    let mut v: Vec<char> = Vec::new();
    if hz < 0 {
        v.push('-');
    }
    let mut whole = dec_chars(n / 1_000_000);
    v.append(&mut whole);
    v.push('.');
    let mut frac = dec_chars_padded(n % 1_000_000, 6);
    v.append(&mut frac);
    proof {
        reveal_strlit("-");
        reveal_strlit(".");
    }
    let r = string_from_chars(v.as_slice());
    assert(r@ =~= freq_mhz_text(hz as int));
    r
}

fn prop_mode_string(p: &PropagationMode) -> (r: String)
    ensures
        r@ == prop_mode_adif(p@),
{
    match p {
        PropagationMode::Terrestrial => {
            let r = String::new();
            assert(r@ =~= seq![]);
            r
        },
        PropagationMode::Satellite => string_of("SAT"),
        PropagationMode::Eme => string_of("EME"),
        PropagationMode::MeteorScatter => string_of("MS"),
        PropagationMode::Aurora => string_of("AUR"),
        PropagationMode::AircraftScatter => string_of("AS"),
        PropagationMode::Other(s) => string_of(s.as_str()),
    }
}

/// The ADIF fields of a QSO.
pub fn qso_to_record(q: &Qso) -> (r: Vec<AdifField>)
    ensures
        record_view(r@) == qso_record(*q),
{
    let mut rec: Vec<AdifField> = Vec::new();
    rec.push(field("CALL", string_of(q.call.as_str())));
    rec.push(field("QSO_DATE", q.qso_begin.date_compact()));
    rec.push(field("TIME_ON", q.qso_begin.time_compact()));
    let ghost base = record_view(rec@);
    assert(base =~= seq![("CALL"@, q.call@), ("QSO_DATE"@, date_compact(q.qso_begin)), ("TIME_ON"@, time_compact(q.qso_begin))]);
    match &q.qso_end {
        Some(end) => {
            if !end.same_date(&q.qso_begin) {
                rec.push(field("QSO_DATE_OFF", end.date_compact()));
            }
            rec.push(field("TIME_OFF", end.time_compact()));
        },
        None => {},
    }
    assert(record_view(rec@) =~= base + match q.qso_end {
        Some(e) => (if e.year != q.qso_begin.year || e.month != q.qso_begin.month || e.day
            != q.qso_begin.day {
            seq![("QSO_DATE_OFF"@, date_compact(e))]
        } else {
            seq![]
        }) + seq![("TIME_OFF"@, time_compact(e))],
        None => seq![],
    });
    push_opt(&mut rec, "BAND", match q.band {
        Some(b) => Some(string_of(b.as_adif())),
        None => None,
    });
    push_opt(&mut rec, "FREQ", match q.freq_hz {
        Some(hz) => Some(freq_mhz_string(hz)),
        None => None,
    });
    push_opt(&mut rec, "MODE", match &q.mode {
        Some(m) => Some(string_of(m.as_adif())),
        None => None,
    });
    push_opt(&mut rec, "SUBMODE", opt_string(&q.submode));
    push_opt(&mut rec, "RST_SENT", opt_string(&q.rst_sent));
    push_opt(&mut rec, "RST_RCVD", opt_string(&q.rst_rcvd));
    push_opt(&mut rec, "STATION_CALLSIGN", match &q.station_callsign {
        Some(c) => Some(string_of(c.as_str())),
        None => None,
    });
    push_opt(&mut rec, "OPERATOR", match &q.owner_callsign {
        Some(c) => Some(string_of(c.as_str())),
        None => None,
    });
    push_opt(&mut rec, "DXCC", match q.dxcc_id {
        Some(d) => Some(dec_string(d as u64)),
        None => None,
    });
    push_opt(&mut rec, "PFX", opt_string(&q.dxcc_prefix));
    push_opt(&mut rec, "CONT", opt_string(&q.continent));
    push_opt(&mut rec, "CQZ", match q.cq_zone {
        Some(z) => Some(dec_string(z as u64)),
        None => None,
    });
    push_opt(&mut rec, "ITUZ", match q.itu_zone {
        Some(z) => Some(dec_string(z as u64)),
        None => None,
    });
    push_opt(&mut rec, "GRIDSQUARE", opt_string(&q.grid));
    push_opt(&mut rec, "STATE", opt_string(&q.state));
    push_opt(&mut rec, "CNTY", opt_string(&q.county));
    push_opt(&mut rec, "VE_PROV", opt_string(&q.province));
    push_opt(&mut rec, "IOTA", opt_string(&q.iota));
    push_opt(&mut rec, "TX_PWR", opt_string(&q.tx_power_w));
    push_opt(&mut rec, "RX_PWR", opt_string(&q.rx_power_w));
    push_opt(&mut rec, "PROP_MODE", match &q.propagation_mode {
        Some(p) => Some(prop_mode_string(p)),
        None => None,
    });
    push_opt(&mut rec, "SAT_NAME", opt_string(&q.sat_name));
    push_opt(&mut rec, "SAT_MODE", opt_string(&q.sat_mode));
    assert(record_view(rec@) =~= qso_record(*q)) by {
        reveal(qso_record);
    }
    rec
}

fn append_field(out: &mut String, name: &str, value: &str)
    ensures
        final(out)@ == old(out)@ + field_text((name@, value@)),
{
    let n = value.len();
    out.append("<");
    out.append(name);
    out.append(":");
    let d = dec_string(n as u64);
    out.append(d.as_str());
    out.append(">");
    out.append(value);
    assert(out@ =~= old(out)@ + field_text((name@, value@)));
}

fn append_record(out: &mut String, rec: &Vec<AdifField>)
    ensures
        final(out)@ == old(out)@ + record_text(record_view(rec@)),
{
    let ghost o0 = out@;
    let ghost fs = record_view(rec@);
    let mut k: usize = 0;
    assert(fs.skip(0) =~= fs);
    while k < rec.len()
        invariant
            k <= rec.len(),
            fs == record_view(rec@),
            o0 + record_text(fs) == out@ + record_text(fs.skip(k as int)),
        decreases rec.len() - k,
    {
        let ghost before = out@;
        assert(fs.skip(k as int) =~= seq![fs[k as int]] + fs.skip(k + 1));
        assert(fs.skip(k as int).drop_first() =~= fs.skip(k + 1));
        append_field(out, rec[k].name.as_str(), rec[k].value.as_str());
        out.append(" ");
        assert(out@ + record_text(fs.skip(k + 1)) =~= before + record_text(fs.skip(k as int)));
        k = k + 1;
    }
    assert(fs.skip(k as int).len() == 0);
    out.append("<EOR>\n");
}

/// The ADIF document of a list of QSOs, with the given header.
pub fn export_adif(qsos: &[Qso], opts: &ExportOptions) -> (r: String)
    ensures
        r@ == adi_document(*opts, qsos@.map_values(|q: Qso| qso_record(q))),
{
    let mut out = match &opts.preamble {
        Some(p) => string_of(p.as_str()),
        None => {
            let mut s = string_of("ADIF export by ");
            s.append(opts.program_id.as_str());
            s
        },
    };
    out.append("\n");
    append_field(&mut out, "ADIF_VER", opts.adif_version.as_str());
    out.append("\n");
    append_field(&mut out, "PROGRAMID", opts.program_id.as_str());
    out.append("\n");
    append_field(&mut out, "PROGRAMVERSION", opts.program_version.as_str());
    out.append("\n");
    out.append("<EOH>\n");
    let ghost head = out@;
    let ghost rs = qsos@.map_values(|q: Qso| qso_record(q));
    let mut i: usize = 0;
    assert(rs.take(0) =~= seq![]);
    while i < qsos.len()
        invariant
            i <= qsos.len(),
            rs == qsos@.map_values(|q: Qso| qso_record(q)),
            out@ == head + records_text(rs.take(i as int)),
        decreases qsos.len() - i,
    {
        let rec = qso_to_record(&qsos[i]);
        append_record(&mut out, &rec);
        assert(rs.take(i + 1).drop_last() =~= rs.take(i as int));
        i = i + 1;
    }
    assert(rs.take(qsos.len() as int) =~= rs);
    out
}

/// `export_adif` with the default header.
pub fn export_adif_default(qsos: &[Qso]) -> (r: String)
    ensures
        r@ == document_text(
            "ADIF export by slogger"@,
            "3.1.4"@,
            "slogger"@,
            "0.1.0"@,
            qsos@.map_values(|q: Qso| qso_record(q)),
        ),
{
    let o = ExportOptions::default();
    proof {
        reveal_strlit("ADIF export by ");
        reveal_strlit("slogger");
        reveal_strlit("ADIF export by slogger");
        assert("ADIF export by "@ + "slogger"@ =~= "ADIF export by slogger"@);
    }
    export_adif(qsos, &o)
}

/// `%Y%m%d %H%M%S` of an instant.
pub fn format_qso_timestamp(dt: &crate::datetime::UtcDateTime) -> (r: String)
    ensures
        r@ == date_compact(*dt) + " "@ + time_compact(*dt),
{
    let mut s = dt.date_compact();
    s.append(" ");
    let t = dt.time_compact();
    s.append(t.as_str());
    s
}

} // verus!
