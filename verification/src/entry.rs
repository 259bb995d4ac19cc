//! The decisions of the operating screen: which QSO the entry form logs,
//! what a clicked spot or the rig puts into the form, what may be sent to
//! the rig, how a new station location is checked, when a services
//! update may start, and the status lines that report the outcomes.
use vstd::prelude::*;

use crate::config::{Config, StationConfig};
use crate::datetime::{date_dashed, UtcDateTime};
use crate::freq::mhz_text_to_hz;
use crate::ids::StationLocationId;
use crate::import::{opt_view, CreateQsoCommand};
use crate::qso::or_else;
use crate::rig::RigSnapshot;
use crate::text::{dec, dec_chars_padded, dec_padded, dec_string, str_trim, string_from_chars, trim};
use crate::ui::{
    band_default_hz, default_freq_for_band, option_from_str, optional_text, parse_mhz_to_hz,
    station_call_from_config,
};
use crate::queries::{QsoSearch, SortOrder};
use crate::value::{
    band_adif, band_of_hz, callsign_error_text, mode_from_adif, parse_callsign, string_of, Band, Callsign,
    Mode, ModeV,
};

verus! {

/// What the entry form holds.
#[derive(Debug, Clone)]
pub struct EntryForm {
    pub call_input: String,
    pub band: Option<Band>,
    pub mode: Option<Mode>,
    pub freq_input: String,
    pub rst_sent: String,
    pub rst_rcvd: String,
}

impl Default for EntryForm {
    /// The form the operator starts from: no call or frequency, 20 m SSB,
    /// reports of 59 both ways.
    fn default() -> (r: EntryForm)
        ensures
            r.call_input@.len() == 0,
            r.band == Some(Band::M20),
            r.mode matches Some(Mode::SSB),
            r.freq_input@.len() == 0,
            r.rst_sent@ == "59"@,
            r.rst_rcvd@ == "59"@,
    {
        EntryForm {
            call_input: String::new(),
            band: Some(Band::M20),
            mode: Some(Mode::SSB),
            freq_input: String::new(),
            rst_sent: string_of("59"),
            rst_rcvd: string_of("59"),
        }
    }
}

/// The station location the operator works from: its id and callsign.
#[derive(Debug, Clone)]
pub struct ActiveStation {
    pub id: StationLocationId,
    pub station_callsign: Option<Callsign>,
}

/// The frequency the rig reports, as a signed number of Hz.
pub open spec fn rig_freq(rig: Option<RigSnapshot>) -> Option<i64> {
    match rig {
        Some(s) => match s.freq_hz {
            Some(f) => Some(f as i64),
            None => None,
        },
        None => None,
    }
}

/// The mode the rig reports, read as an ADIF mode.
pub open spec fn rig_mode(rig: Option<RigSnapshot>) -> Option<ModeV> {
    match rig {
        Some(s) => match s.mode {
            Some(m) => Some(mode_from_adif(m@)),
            None => None,
        },
        None => None,
    }
}

/// The frequency logged: what the operator typed, else what the rig
/// reports.
pub open spec fn logged_freq(form: EntryForm, rig: Option<RigSnapshot>) -> Option<i64> {
    or_else(mhz_text_to_hz(form.freq_input@), rig_freq(rig))
}

/// The band logged: the one chosen, else the band of the frequency.
pub open spec fn logged_band(form: EntryForm, rig: Option<RigSnapshot>) -> Option<Band> {
    match form.band {
        Some(b) => Some(b),
        None => match logged_freq(form, rig) {
            Some(hz) => band_of_hz(hz as int),
            None => None,
        },
    }
}

/// The station callsign logged: the active location's, else the
/// configured default when it parses.
pub open spec fn logged_station(active: Option<ActiveStation>, cfg: Option<StationConfig>) -> Option<
    Seq<char>,
> {
    match active {
        Some(a) if a.station_callsign is Some => Some(a.station_callsign.unwrap()@),
        _ => match cfg {
            Some(c) => match c.default_callsign {
                Some(d) => match parse_callsign(d@) {
                    Ok(v) => Some(v),
                    Err(_) => None,
                },
                None => None,
            },
            None => None,
        },
    }
}

/// `cmd` is what the form logs at `now`.
pub open spec fn submit_fits(
    cmd: CreateQsoCommand,
    form: EntryForm,
    rig: Option<RigSnapshot>,
    active: Option<ActiveStation>,
    cfg: Option<StationConfig>,
    now: UtcDateTime,
) -> bool {
    &&& parse_callsign(form.call_input@) matches Ok(c) && cmd.call@ == c
    &&& cmd.qso_begin == now
    &&& cmd.freq_hz == logged_freq(form, rig)
    &&& cmd.band == logged_band(form, rig)
    &&& match cmd.mode {
        Some(m) => match form.mode {
            Some(f) => m@ == f@,
            None => rig_mode(rig) == Some(m@),
        },
        None => form.mode is None && rig_mode(rig) is None,
    }
    &&& opt_view(cmd.rst_sent) == optional_text(form.rst_sent@)
    &&& opt_view(cmd.rst_rcvd) == optional_text(form.rst_rcvd@)
    &&& match cmd.station_callsign {
        Some(c) => logged_station(active, cfg) == Some(c@),
        None => logged_station(active, cfg) is None,
    }
    &&& cmd.station_location_id == match active {
        Some(a) => Some(a.id),
        None => None,
    }
    &&& cmd.qso_end is None && cmd.submode is None && cmd.operator_id is None
    &&& cmd.owner_callsign is None && cmd.dxcc_id is None && cmd.grid is None
    &&& cmd.exchange_fields@.len() == 0
}

/// The QSO the entry form logs, or the status line saying why not: a
/// callsign that does not parse. Frequency and mode the operator left
/// blank come from the rig; the band from the frequency; the station
/// callsign from the active location or the configuration.
pub fn submit_command(
    form: &EntryForm,
    rig: Option<&RigSnapshot>,
    active: Option<&ActiveStation>,
    cfg: Option<&StationConfig>,
    now: UtcDateTime,
) -> (r: Result<CreateQsoCommand, String>)
    ensures
        match r {
            Ok(cmd) => submit_fits(
                cmd,
                *form,
                match rig {
                    Some(s) => Some(*s),
                    None => None,
                },
                match active {
                    Some(a) => Some(*a),
                    None => None,
                },
                match cfg {
                    Some(c) => Some(*c),
                    None => None,
                },
                now,
            ),
            Err(msg) => parse_callsign(form.call_input@) matches Err(e) && msg@ == "invalid callsign: "@
                + callsign_error_text(e),
        },
{
    let call = match Callsign::parse(form.call_input.as_str()) {
        Ok(c) => c,
        Err(e) => {
            let mut msg = string_of("invalid callsign: ");
            msg.append(e.message().as_str());
            return Err(msg);
        },
    };
    let rig_freq_hz: Option<i64> = match rig {
        Some(s) => match s.freq_hz {
            Some(f) => Some(f as i64),
            None => None,
        },
        None => None,
    };
    let rig_mode_v: Option<Mode> = match rig {
        Some(s) => match &s.mode {
            Some(m) => Some(Mode::from_adif(m.as_str())),
            None => None,
        },
        None => None,
    };
    let freq_hz = match parse_mhz_to_hz(form.freq_input.as_str()) {
        Some(f) => Some(f),
        None => rig_freq_hz,
    };
    let band = match form.band {
        Some(b) => Some(b),
        None => match freq_hz {
            Some(hz) => Band::from_freq_hz(hz),
            None => None,
        },
    };
    let station_callsign = match active {
        Some(a) => match &a.station_callsign {
            Some(c) => Some(c.clone_call()),
            None => match cfg {
                Some(c) => station_call_from_config(c),
                None => None,
            },
        },
        None => match cfg {
            Some(c) => station_call_from_config(c),
            None => None,
        },
    };
    let mode = match &form.mode {
        Some(m) => Some(m.duplicate()),
        None => rig_mode_v,
    };
    let mut cmd = CreateQsoCommand::minimal(call, now);
    cmd.band = band;
    cmd.freq_hz = freq_hz;
    cmd.mode = mode;
    cmd.rst_sent = option_from_str(form.rst_sent.as_str());
    cmd.rst_rcvd = option_from_str(form.rst_rcvd.as_str());
    cmd.station_callsign = station_callsign;
    cmd.station_location_id = match active {
        Some(a) => Some(a.id),
        None => None,
    };
    Ok(cmd)
}

/// What a clicked spot does to the form, when no QSO is being edited:
/// its callsign, the band of its frequency when it has one, and its mode
/// when it names one. The frequency is read as a signed 64-bit number, so
/// one above `i64::MAX` wraps and has no band. The frequency text is the
/// caller's to write.
pub fn apply_spot_to_form(
    form: &mut EntryForm,
    editing: bool,
    call: &str,
    freq_hz: u64,
    mode: Option<&str>,
) -> (r: Result<(), String>)
    ensures
        editing ==> (r matches Err(msg) && msg@ == "spot "@ + call@
            + " ignored — finish or cancel the QSO edit first"@) && *final(form) == *old(form),
        !editing ==> {
            &&& r is Ok
            &&& final(form).call_input@ == call@
            &&& final(form).band == match band_of_hz((freq_hz as i64) as int) {
                Some(b) => Some(b),
                None => old(form).band,
            }
            &&& match mode {
                Some(m) => final(form).mode matches Some(fm) && fm@ == mode_from_adif(m@),
                None => final(form).mode == old(form).mode,
            }
            &&& final(form).freq_input == old(form).freq_input
            &&& final(form).rst_sent == old(form).rst_sent
            &&& final(form).rst_rcvd == old(form).rst_rcvd
        },
{
    if editing {
        let mut msg = string_of("spot ");
        msg.append(call);
        msg.append(" ignored — finish or cancel the QSO edit first");
        return Err(msg);
    }
    form.call_input = string_of(call);
    let hz: i64 = #[verifier::truncate] (freq_hz as i64);
    match Band::from_freq_hz(hz) {
        Some(b) => {
            form.band = Some(b);
        },
        None => {},
    }
    match mode {
        Some(m) => {
            form.mode = Some(Mode::from_adif(m));
        },
        None => {},
    }
    Ok(())
}

/// `hz` in MHz with four decimals (`{:.4}` of the MHz value), for a
/// whole number of hundreds of Hz.
pub open spec fn mhz4_text(hz: nat) -> Seq<char> {
    dec(hz / 1_000_000) + "."@ + dec_padded((hz % 1_000_000) / 100, 4)
}

/// Another band picked in the form: the band is set and, when the band
/// has a usual frequency, the frequency field shows it in MHz with four
/// decimals.
pub fn band_changed(form: &mut EntryForm, b: Band)
    ensures
        final(form).band == Some(b),
        match band_default_hz(b) {
            Some(hz) => final(form).freq_input@ == mhz4_text(hz as nat),
            None => final(form).freq_input == old(form).freq_input,
        },
        final(form).call_input == old(form).call_input,
        final(form).mode == old(form).mode,
        final(form).rst_sent == old(form).rst_sent,
        final(form).rst_rcvd == old(form).rst_rcvd,
{
    form.band = Some(b);
    match default_freq_for_band(b) {
        Some(hz) => {
            assert(hz > 0 && hz % 100 == 0);
            let u = hz as u64;
            let mut text = dec_string(u / 1_000_000);
            text.append(".");
            let frac = dec_chars_padded((u % 1_000_000) / 100, 4);
            text.append(string_from_chars(frac.as_slice()).as_str());
            form.freq_input = text;
        },
        None => {},
    }
}

/// What the rig's snapshot puts into the form: the band of its frequency
/// when it has one (read as a signed 64-bit number, as for a spot), and
/// its mode. The frequency text is the caller's to write.
pub fn apply_rig_to_form(form: &mut EntryForm, snap: &RigSnapshot)
    ensures
        final(form).band == match snap.freq_hz {
            Some(f) => match band_of_hz((f as i64) as int) {
                Some(b) => Some(b),
                None => old(form).band,
            },
            None => old(form).band,
        },
        match snap.mode {
            Some(m) => final(form).mode matches Some(fm) && fm@ == mode_from_adif(m@),
            None => final(form).mode == old(form).mode,
        },
        final(form).call_input == old(form).call_input,
        final(form).freq_input == old(form).freq_input,
{
    match snap.freq_hz {
        Some(f) => match Band::from_freq_hz(#[verifier::truncate] (f as i64)) {
            Some(b) => {
                form.band = Some(b);
            },
            None => {},
        },
        None => {},
    }
    match &snap.mode {
        Some(m) => {
            form.mode = Some(Mode::from_adif(m.as_str()));
        },
        None => {},
    }
}

/// What the form asks the rig to do: tune to its frequency and set its
/// mode, each when the form has it.
#[derive(Debug, Clone)]
pub struct RigRequest {
    pub freq_hz: Option<u64>,
    pub mode_adif: Option<String>,
}

/// The request to send to the rig, or the status line saying why not.
pub fn rig_request(form: &EntryForm, rig_connected: bool) -> (r: Result<RigRequest, String>)
    ensures
        !rig_connected ==> (r matches Err(m) && m@ == "active rig not connected"@),
        rig_connected && mhz_text_to_hz(form.freq_input@) is None && form.mode is None ==> (r matches Err(m)
            && m@ == "nothing to send (set freq or mode in the form)"@),
        rig_connected && (mhz_text_to_hz(form.freq_input@) is Some || form.mode is Some) ==> r is Ok,
        r matches Ok(q) ==> rig_connected && (q.freq_hz == match mhz_text_to_hz(form.freq_input@) {
            Some(f) => Some(f as u64),
            None => None::<u64>,
        }) && (match (q.mode_adif, form.mode) {
            (Some(a), Some(m)) => a@ == crate::value::mode_adif(m@),
            (None, None) => true,
            _ => false,
        }) && (q.freq_hz is Some || q.mode_adif is Some),
{
    if !rig_connected {
        return Err(string_of("active rig not connected"));
    }
    let freq_hz = match parse_mhz_to_hz(form.freq_input.as_str()) {
        Some(f) => Some(f as u64),
        None => None,
    };
    let mode_adif = match &form.mode {
        Some(m) => Some(string_of(m.as_adif())),
        None => None,
    };
    if freq_hz.is_none() && mode_adif.is_none() {
        return Err(string_of("nothing to send (set freq or mode in the form)"));
    }
    Ok(RigRequest { freq_hz, mode_adif })
}

/// A new station location as the form gives it.
#[derive(Debug, Clone)]
pub struct NewStation {
    pub name: String,
    pub callsign: Callsign,
    pub grid: Option<String>,
}

/// The station location the form describes, or the status line saying
/// what is missing: a name, and a callsign that parses.
pub fn new_station(name: &str, call: &str, grid: &str) -> (r: Result<NewStation, String>)
    ensures
        trim(name@).len() == 0 ==> (r matches Err(m) && m@ == "station name is required"@),
        trim(name@).len() > 0 ==> match parse_callsign(call@) {
            Err(e) => r matches Err(m) && m@ == "station callsign: "@ + callsign_error_text(e),
            Ok(c) => r matches Ok(s) && s.name@ == trim(name@) && s.callsign@ == c && opt_view(
                s.grid,
            ) == optional_text(grid@),
        },
{
    let n = str_trim(name);
    let nc = crate::text::chars_of(n);
    if nc.len() == 0 {
        return Err(string_of("station name is required"));
    }
    let callsign = match Callsign::parse(call) {
        Ok(c) => c,
        Err(e) => {
            let mut m = string_of("station callsign: ");
            m.append(e.message().as_str());
            return Err(m);
        },
    };
    Ok(NewStation { name: string_of(n), callsign, grid: option_from_str(grid) })
}

/// Whether a services update starts: not without a database or a
/// configuration, not while one runs, and not when no service is
/// configured.
#[derive(Debug, Clone)]
pub enum ServicesGate {
    Ignore,
    Refuse(String),
    Start,
}

/// Some service has what it needs.
pub open spec fn any_service_configured(c: Config) -> bool {
    ||| c.lotw.station_location is Some
    ||| (c.lotw.username is Some && c.lotw.password is Some)
    ||| (c.eqsl.username is Some && c.eqsl.password is Some)
    ||| (c.clublog.email is Some && c.clublog.password is Some && c.clublog.callsign is Some)
    ||| c.qrz.api_key is Some
    ||| (c.hrdlog.callsign is Some && c.hrdlog.code is Some)
}

pub fn services_gate(has_repo: bool, cfg: Option<&Config>, syncing: bool) -> (r: ServicesGate)
    ensures
        !has_repo ==> r is Ignore,
        has_repo && cfg is None ==> (r matches ServicesGate::Refuse(m) && m@ == "config not loaded"@),
        has_repo ==> match cfg {
            Some(c) => if !any_service_configured(*c) {
                r matches ServicesGate::Refuse(m) && m@
                    == "no service configured (need [lotw], [eqsl], [clublog], [qrz], or [hrdlog] in config.toml)"@
            } else if syncing {
                r is Ignore
            } else {
                r is Start
            },
            None => true,
        },
{
    if !has_repo {
        return ServicesGate::Ignore;
    }
    let c = match cfg {
        Some(c) => c,
        None => return ServicesGate::Refuse(string_of("config not loaded")),
    };
    let any = c.lotw.is_configured_for_upload() || c.lotw.is_configured_for_fetch()
        || c.eqsl.is_configured() || c.clublog.is_configured() || c.qrz.is_configured()
        || c.hrdlog.is_configured();
    if !any {
        return ServicesGate::Refuse(
            string_of(
                "no service configured (need [lotw], [eqsl], [clublog], [qrz], or [hrdlog] in config.toml)",
            ),
        );
    }
    if syncing {
        return ServicesGate::Ignore;
    }
    ServicesGate::Start
}

/// `deleted N / M QSOs`.
pub fn deleted_message(deleted: usize, attempted: usize) -> (r: String)
    ensures
        r@ == "deleted "@ + dec(deleted as nat) + " / "@ + dec(attempted as nat) + " QSOs"@,
{
    let mut r = string_of("deleted ");
    r.append(dec_string(deleted as u64).as_str());
    r.append(" / ");
    r.append(dec_string(attempted as u64).as_str());
    r.append(" QSOs");
    r
}

/// `marked N / M as uploaded to SERVICE`.
pub fn marked_message(marked: usize, attempted: usize, service: &str) -> (r: String)
    ensures
        r@ == "marked "@ + dec(marked as nat) + " / "@ + dec(attempted as nat)
            + " as uploaded to "@ + service@,
{
    let mut r = string_of("marked ");
    r.append(dec_string(marked as u64).as_str());
    r.append(" / ");
    r.append(dec_string(attempted as u64).as_str());
    r.append(" as uploaded to ");
    r.append(service);
    r
}

/// The WSJT-X import count after `count` more QSOs, and its status line.
pub fn wsjtx_imported(total: usize, count: usize) -> (r: (usize, String))
    requires
        total + count <= usize::MAX,
    ensures
        r.0 == total + count,
        r.1@ == "wsjtx: imported "@ + dec(count as nat) + " qso (total this run: "@ + dec(
            (total + count) as nat,
        ) + ")"@,
{
    let t = total + count;
    let mut r = string_of("wsjtx: imported ");
    r.append(dec_string(count as u64).as_str());
    r.append(" qso (total this run: ");
    r.append(dec_string(t as u64).as_str());
    r.append(")");
    (t, r)
}

/// `logged CALL` for the callsign as typed, trimmed and upper-cased.
pub fn logged_message(call_input: &str) -> (r: String)
    ensures
        r@ == "logged "@ + crate::text::upper_seq(trim(call_input@)),
{
    let c = crate::text::upper_chars(&crate::text::chars_of(str_trim(call_input)));
    let mut r = string_of("logged ");
    r.append(crate::text::string_from_chars(c.as_slice()).as_str());
    r
}

/// An import asked for with the path field's text: the trimmed path and
/// the status line `importing PATH…`, or `ADIF path is empty` when only
/// whitespace was typed.
pub fn import_start(path_input: &str) -> (r: Result<(String, String), String>)
    ensures
        trim(path_input@).len() == 0 ==> (r matches Err(m) && m@ == "ADIF path is empty"@),
        trim(path_input@).len() > 0 ==> (r matches Ok((p, status)) && p@ == trim(path_input@)
            && status@ == "importing "@ + trim(path_input@) + "…"@),
{
    let t = str_trim(path_input);
    if t.unicode_len() == 0 {
        Err(string_of("ADIF path is empty"))
    } else {
        let p = string_of(t);
        let mut status = string_of("importing ");
        status.append(t);
        status.append("…");
        Ok((p, status))
    }
}

/// The label of a station in the picker: its name, and its callsign in
/// parentheses when it has one.
pub fn station_option_label(name: &str, call: Option<&Callsign>) -> (r: String)
    ensures
        r@ == match call {
            Some(c) => name@ + " ("@ + c@ + ")"@,
            None => name@,
        },
{
    match call {
        Some(c) => {
            let mut r = string_of(name);
            r.append(" (");
            r.append(c.as_str());
            r.append(")");
            r
        },
        None => string_of(name),
    }
}

/// A QSO already in the log with the callsign being typed: when, and on
/// which band.
#[derive(Debug, Clone, Copy)]
pub struct DupeMatch {
    pub qso_begin: UtcDateTime,
    pub band: Option<Band>,
}

/// The duplicate check of the entry form: the number of the latest
/// check asked for, and the match it found.
#[derive(Debug, Clone, Copy)]
pub struct DupeCheck {
    pub generation: u64,
    pub found: Option<DupeMatch>,
}

/// The search of a duplicate check: the callsign on the band, one QSO.
pub open spec fn dupe_search_fits(q: QsoSearch, call: Seq<char>, band: Option<Band>) -> bool {
    &&& q.exact_call matches Some(c) && c@ == call
    &&& q.band == band
    &&& q.limit == Some(1u32)
    &&& q.call_prefix is None && q.mode is None && q.dxcc_id is None
    &&& q.station_location_id is None && q.from is None && q.to is None
    &&& q.state is None && q.iota is None && q.continent is None
    &&& q.lotw_confirmed is None && q.sort == SortOrder::QsoBeginDesc
}

/// A change of callsign or band starts a new check: the old match is
/// dropped and the check's number moves on (wrapping). The search runs
/// when a logbook is open and the typed callsign parses; its answer is
/// tagged with the new number.
pub fn start_dupe_check(
    check: &mut DupeCheck,
    has_logbook: bool,
    call_input: &str,
    band: Option<Band>,
) -> (r: Option<(u64, QsoSearch)>)
    ensures
        final(check).found is None,
        final(check).generation == (if old(check).generation == u64::MAX {
            0
        } else {
            (old(check).generation + 1) as u64
        }),
        r is Some <==> (has_logbook && parse_callsign(trim(call_input@)) is Ok),
        r matches Some((g, q)) ==> g == final(check).generation && (parse_callsign(
            trim(call_input@),
        ) matches Ok(c) && dupe_search_fits(q, c, band)),
{
    check.found = None;
    check.generation = if check.generation == u64::MAX {
        0
    } else {
        check.generation + 1
    };
    if !has_logbook {
        return None;
    }
    match Callsign::parse(str_trim(call_input)) {
        Ok(call) => {
            let d = QsoSearch::default();
            Some((check.generation, QsoSearch { exact_call: Some(call), band, limit: Some(1), ..d }))
        },
        Err(_) => None,
    }
}

/// The answer of a check is kept only when no newer check was asked
/// for since.
pub fn finish_dupe_check(check: &mut DupeCheck, generation: u64, found: Option<DupeMatch>)
    ensures
        final(check).generation == old(check).generation,
        generation == old(check).generation ==> final(check).found == found,
        generation != old(check).generation ==> final(check).found == old(check).found,
{
    if generation == check.generation {
        check.found = found;
    }
}

/// The badge of a duplicate: `DUP B4: <date> (<band>)`, with `?` for an
/// unknown band.
pub fn dupe_badge(d: &DupeMatch) -> (r: String)
    ensures
        r@ == "DUP B4: "@ + date_dashed(d.qso_begin) + " ("@ + match d.band {
            Some(b) => band_adif(b),
            None => "?"@,
        } + ")"@,
{
    let mut r = string_of("DUP B4: ");
    r.append(d.qso_begin.date_dashed().as_str());
    r.append(" (");
    match d.band {
        Some(b) => r.append(b.as_adif()),
        None => r.append("?"),
    }
    r.append(")");
    r
}

} // verus!
