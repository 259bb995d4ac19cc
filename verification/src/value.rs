//! Core value types of the log: callsigns, bands, modes, propagation
//! modes and the provenance tag of an exchange field.
use vstd::prelude::*;
use vstd::utf8::*;
use vstd::string::StringExecFns;

use crate::text::{
    debug_char, debug_char_text, dec, dec_string,
    chars_start_with_str, starts_with,
    is_ascii_lower,
    chars_eq_str, chars_of, is_ascii_alnum, str_trim, string_from_chars, trim, upper_chars, upper_seq,
};

verus! {

/// A validated, upper-cased amateur radio callsign.
#[derive(Debug, Clone, PartialEq, Eq, Hash)]
pub struct Callsign(String);

/// Why `Callsign::parse` refused its input.
#[derive(Debug, Clone, Copy, PartialEq, Eq, Structural)]
pub enum CallsignError {
    Empty,
    InvalidChar(char),
    TooLong(usize),
}

impl View for Callsign {
    type V = Seq<char>;

    closed spec fn view(&self) -> Seq<char> {
        self.0@
    }
}

/// The first character of `s` that may not appear in a callsign.
pub open spec fn first_invalid_call_char(s: Seq<char>) -> Option<char>
    decreases s.len(),
{
    if s.len() == 0 {
        None
    } else if !(is_ascii_alnum(s[0]) || s[0] == '/') {
        Some(s[0])
    } else {
        first_invalid_call_char(s.drop_first())
    }
}

/// What `Callsign::parse` gives for the text `s`: the trimmed text must be
/// non-empty, at most 16 bytes of UTF-8, and made of ASCII letters, digits
/// and `/`; the callsign is its upper-case form.
pub open spec fn parse_callsign(s: Seq<char>) -> Result<Seq<char>, CallsignError> {
    let t = trim(s);
    if t.len() == 0 {
        Err(CallsignError::Empty)
    } else if encode_utf8(t).len() as usize > 16 {
        Err(CallsignError::TooLong(encode_utf8(t).len() as usize))
    } else {
        match first_invalid_call_char(t) {
            Some(c) => Err(CallsignError::InvalidChar(c)),
            None => Ok(upper_seq(t)),
        }
    }
}

/// Whether `r` is the result that `parse_callsign` describes for `s`.
pub open spec fn callsign_result_matches(r: Result<Callsign, CallsignError>, s: Seq<char>) -> bool {
    match (r, parse_callsign(s)) {
        (Ok(c), Ok(v)) => c@ == v,
        (Err(e), Err(f)) => e == f,
        _ => false,
    }
}

proof fn lemma_first_invalid_prefix(s: Seq<char>, k: int)
    requires
        0 <= k <= s.len(),
        forall|m: int| 0 <= m < k ==> is_ascii_alnum(#[trigger] s[m]) || s[m] == '/',
    ensures
        first_invalid_call_char(s) == first_invalid_call_char(s.subrange(k, s.len() as int)),
    decreases k,
{
    if k > 0 {
        lemma_first_invalid_prefix(s.drop_first(), k - 1);
        assert(s.drop_first().subrange(k - 1, s.drop_first().len() as int) =~= s.subrange(
            k,
            s.len() as int,
        ));
    } else {
        assert(s.subrange(0, s.len() as int) =~= s);
    }
}

/// The message of a callsign error.
pub open spec fn callsign_error_text(e: CallsignError) -> Seq<char> {
    match e {
        CallsignError::Empty => "callsign is empty"@,
        CallsignError::InvalidChar(c) => "callsign contains invalid character: "@ + debug_char_text(c),
        CallsignError::TooLong(n) => "callsign too long: "@ + dec(n as nat) + " > 16"@,
    }
}

impl CallsignError {
    /// The error's message, as its `Display` would write it.
    pub fn message(&self) -> (r: String)
        ensures
            r@ == callsign_error_text(*self),
    {
        match self {
            CallsignError::Empty => string_of("callsign is empty"),
            CallsignError::InvalidChar(c) => {
                let mut r = string_of("callsign contains invalid character: ");
                r.append(debug_char(*c).as_str());
                r
            },
            CallsignError::TooLong(n) => {
                let mut r = string_of("callsign too long: ");
                r.append(dec_string(*n as u64).as_str());
                r.append(" > 16");
                r
            },
        }
    }
}

impl Callsign {
    pub fn parse(input: &str) -> (r: Result<Callsign, CallsignError>)
        ensures
            callsign_result_matches(r, input@),
    {
        let trimmed = str_trim(input);
        if trimmed.is_empty() {
            return Err(CallsignError::Empty);
        }
        if trimmed.len() > 16 {
            return Err(CallsignError::TooLong(trimmed.len()));
        }
        let chars = chars_of(trimmed);
        let mut k: usize = 0;
        while k < chars.len()
            invariant
                k <= chars.len(),
                chars@ == trim(input@),
                trim(input@).len() != 0,
                !(encode_utf8(trim(input@)).len() as usize > 16),
                forall|m: int| 0 <= m < k ==> is_ascii_alnum(#[trigger] chars@[m]) || chars@[m] == '/',
            decreases chars.len() - k,
        {
            let c = chars[k];
            if !(('a' <= c && c <= 'z') || ('A' <= c && c <= 'Z') || ('0' <= c && c <= '9') || c
                == '/') {
                proof {
                    lemma_first_invalid_prefix(chars@, k as int);
                    assert(chars@.subrange(k as int, chars@.len() as int)[0] == c);
                    assert(first_invalid_call_char(chars@) == Some(c));
                    assert(parse_callsign(input@) == Err::<Seq<char>, CallsignError>(CallsignError::InvalidChar(c)));
                }
                return Err(CallsignError::InvalidChar(c));
            }
            k = k + 1;
        }
        proof {
            lemma_first_invalid_prefix(chars@, k as int);
            assert(chars@.subrange(k as int, chars@.len() as int).len() == 0);
            assert(first_invalid_call_char(chars@) == None::<char>);
        }
        let up = upper_chars(&chars);
        Ok(Callsign(string_from_chars(up.as_slice())))
    }

    pub fn as_str(&self) -> (r: &str)
        ensures
            r@ == self@,
    {
        self.0.as_str()
    }

    /// A copy of the callsign.
    pub fn clone_call(&self) -> (r: Callsign)
        ensures
            r@ == self@,
    {
        Callsign(string_of(self.0.as_str()))
    }

    pub fn into_string(self) -> (r: String)
        ensures
            r@ == self@,
    {
        self.0
    }
}

/// Amateur radio bands, lowest frequency first.
#[derive(Debug, Clone, Copy, PartialEq, Eq, PartialOrd, Ord, Hash, Structural)]
pub enum Band {
    M2200,
    M630,
    M160,
    M80,
    M60,
    M40,
    M30,
    M20,
    M17,
    M15,
    M12,
    M10,
    M6,
    M4,
    M2,
    Cm125,
    Cm70,
    Cm33,
    Cm23,
    Cm13,
    Cm9,
    Cm6,
    Cm3,
    Mm1_25,
    Mm6,
}

/// The ADIF `BAND` enumeration value of each band.
pub open spec fn band_adif(b: Band) -> Seq<char> {
    match b {
        Band::M2200 => "2200M"@,
        Band::M630 => "630M"@,
        Band::M160 => "160M"@,
        Band::M80 => "80M"@,
        Band::M60 => "60M"@,
        Band::M40 => "40M"@,
        Band::M30 => "30M"@,
        Band::M20 => "20M"@,
        Band::M17 => "17M"@,
        Band::M15 => "15M"@,
        Band::M12 => "12M"@,
        Band::M10 => "10M"@,
        Band::M6 => "6M"@,
        Band::M4 => "4M"@,
        Band::M2 => "2M"@,
        Band::Cm125 => "1.25M"@,
        Band::Cm70 => "70CM"@,
        Band::Cm33 => "33CM"@,
        Band::Cm23 => "23CM"@,
        Band::Cm13 => "13CM"@,
        Band::Cm9 => "9CM"@,
        Band::Cm6 => "6CM"@,
        Band::Cm3 => "3CM"@,
        Band::Mm1_25 => "1.25CM"@,
        Band::Mm6 => "6MM"@,
    }
}

/// The band whose ADIF name is `s`, compared without regard to ASCII case.
pub open spec fn band_from_adif(s: Seq<char>) -> Option<Band> {
    let u = upper_seq(s);
    if u == "2200M"@ {
        Some(Band::M2200)
    } else if u == "630M"@ {
        Some(Band::M630)
    } else if u == "160M"@ {
        Some(Band::M160)
    } else if u == "80M"@ {
        Some(Band::M80)
    } else if u == "60M"@ {
        Some(Band::M60)
    } else if u == "40M"@ {
        Some(Band::M40)
    } else if u == "30M"@ {
        Some(Band::M30)
    } else if u == "20M"@ {
        Some(Band::M20)
    } else if u == "17M"@ {
        Some(Band::M17)
    } else if u == "15M"@ {
        Some(Band::M15)
    } else if u == "12M"@ {
        Some(Band::M12)
    } else if u == "10M"@ {
        Some(Band::M10)
    } else if u == "6M"@ {
        Some(Band::M6)
    } else if u == "4M"@ {
        Some(Band::M4)
    } else if u == "2M"@ {
        Some(Band::M2)
    } else if u == "1.25M"@ {
        Some(Band::Cm125)
    } else if u == "70CM"@ {
        Some(Band::Cm70)
    } else if u == "33CM"@ {
        Some(Band::Cm33)
    } else if u == "23CM"@ {
        Some(Band::Cm23)
    } else if u == "13CM"@ {
        Some(Band::Cm13)
    } else if u == "9CM"@ {
        Some(Band::Cm9)
    } else if u == "6CM"@ {
        Some(Band::Cm6)
    } else if u == "3CM"@ {
        Some(Band::Cm3)
    } else if u == "1.25CM"@ {
        Some(Band::Mm1_25)
    } else if u == "6MM"@ {
        Some(Band::Mm6)
    } else {
        None
    }
}

/// The band that a frequency in kHz falls in, by the amateur allocations.
pub open spec fn band_of_khz(khz: int) -> Option<Band> {
    if 135 <= khz <= 137 {
        Some(Band::M2200)
    } else if 472 <= khz <= 479 {
        Some(Band::M630)
    } else if 1_800 <= khz <= 2_000 {
        Some(Band::M160)
    } else if 3_500 <= khz <= 4_000 {
        Some(Band::M80)
    } else if 5_330 <= khz <= 5_410 {
        Some(Band::M60)
    } else if 7_000 <= khz <= 7_300 {
        Some(Band::M40)
    } else if 10_100 <= khz <= 10_150 {
        Some(Band::M30)
    } else if 14_000 <= khz <= 14_350 {
        Some(Band::M20)
    } else if 18_068 <= khz <= 18_168 {
        Some(Band::M17)
    } else if 21_000 <= khz <= 21_450 {
        Some(Band::M15)
    } else if 24_890 <= khz <= 24_990 {
        Some(Band::M12)
    } else if 28_000 <= khz <= 29_700 {
        Some(Band::M10)
    } else if 50_000 <= khz <= 54_000 {
        Some(Band::M6)
    } else if 70_000 <= khz <= 70_500 {
        Some(Band::M4)
    } else if 144_000 <= khz <= 148_000 {
        Some(Band::M2)
    } else if 222_000 <= khz <= 225_000 {
        Some(Band::Cm125)
    } else if 420_000 <= khz <= 450_000 {
        Some(Band::Cm70)
    } else if 902_000 <= khz <= 928_000 {
        Some(Band::Cm33)
    } else if 1_240_000 <= khz <= 1_300_000 {
        Some(Band::Cm23)
    } else {
        None
    }
}

/// The band of a frequency in Hz: the whole kHz (rounded toward zero) that
/// it falls in. Negative frequencies fall in no band.
pub open spec fn band_of_hz(hz: int) -> Option<Band> {
    if hz < 0 {
        None
    } else {
        band_of_khz(hz / 1000)
    }
}

impl Band {
    pub fn as_adif(&self) -> (r: &'static str)
        ensures
            r@ == band_adif(*self),
    {
        match self {
            Band::M2200 => "2200M",
            Band::M630 => "630M",
            Band::M160 => "160M",
            Band::M80 => "80M",
            Band::M60 => "60M",
            Band::M40 => "40M",
            Band::M30 => "30M",
            Band::M20 => "20M",
            Band::M17 => "17M",
            Band::M15 => "15M",
            Band::M12 => "12M",
            Band::M10 => "10M",
            Band::M6 => "6M",
            Band::M4 => "4M",
            Band::M2 => "2M",
            Band::Cm125 => "1.25M",
            Band::Cm70 => "70CM",
            Band::Cm33 => "33CM",
            Band::Cm23 => "23CM",
            Band::Cm13 => "13CM",
            Band::Cm9 => "9CM",
            Band::Cm6 => "6CM",
            Band::Cm3 => "3CM",
            Band::Mm1_25 => "1.25CM",
            Band::Mm6 => "6MM",
        }
    }

    pub fn from_adif(s: &str) -> (r: Option<Band>)
        ensures
            r == band_from_adif(s@),
    {
        let u = upper_chars(&chars_of(s));
        let u = u.as_slice();
        if chars_eq_str(u, "2200M") {
            Some(Band::M2200)
        } else if chars_eq_str(u, "630M") {
            Some(Band::M630)
        } else if chars_eq_str(u, "160M") {
            Some(Band::M160)
        } else if chars_eq_str(u, "80M") {
            Some(Band::M80)
        } else if chars_eq_str(u, "60M") {
            Some(Band::M60)
        } else if chars_eq_str(u, "40M") {
            Some(Band::M40)
        } else if chars_eq_str(u, "30M") {
            Some(Band::M30)
        } else if chars_eq_str(u, "20M") {
            Some(Band::M20)
        } else if chars_eq_str(u, "17M") {
            Some(Band::M17)
        } else if chars_eq_str(u, "15M") {
            Some(Band::M15)
        } else if chars_eq_str(u, "12M") {
            Some(Band::M12)
        } else if chars_eq_str(u, "10M") {
            Some(Band::M10)
        } else if chars_eq_str(u, "6M") {
            Some(Band::M6)
        } else if chars_eq_str(u, "4M") {
            Some(Band::M4)
        } else if chars_eq_str(u, "2M") {
            Some(Band::M2)
        } else if chars_eq_str(u, "1.25M") {
            Some(Band::Cm125)
        } else if chars_eq_str(u, "70CM") {
            Some(Band::Cm70)
        } else if chars_eq_str(u, "33CM") {
            Some(Band::Cm33)
        } else if chars_eq_str(u, "23CM") {
            Some(Band::Cm23)
        } else if chars_eq_str(u, "13CM") {
            Some(Band::Cm13)
        } else if chars_eq_str(u, "9CM") {
            Some(Band::Cm9)
        } else if chars_eq_str(u, "6CM") {
            Some(Band::Cm6)
        } else if chars_eq_str(u, "3CM") {
            Some(Band::Cm3)
        } else if chars_eq_str(u, "1.25CM") {
            Some(Band::Mm1_25)
        } else if chars_eq_str(u, "6MM") {
            Some(Band::Mm6)
        } else {
            None
        }
    }

    pub fn from_freq_hz(hz: i64) -> (r: Option<Band>)
        ensures
            r == band_of_hz(hz as int),
    {
        if hz < 0 {
            return None;
        }
        let khz: i64 = hz / 1_000;
        if 135 <= khz && khz <= 137 {
            Some(Band::M2200)
        } else if 472 <= khz && khz <= 479 {
            Some(Band::M630)
        } else if 1_800 <= khz && khz <= 2_000 {
            Some(Band::M160)
        } else if 3_500 <= khz && khz <= 4_000 {
            Some(Band::M80)
        } else if 5_330 <= khz && khz <= 5_410 {
            Some(Band::M60)
        } else if 7_000 <= khz && khz <= 7_300 {
            Some(Band::M40)
        } else if 10_100 <= khz && khz <= 10_150 {
            Some(Band::M30)
        } else if 14_000 <= khz && khz <= 14_350 {
            Some(Band::M20)
        } else if 18_068 <= khz && khz <= 18_168 {
            Some(Band::M17)
        } else if 21_000 <= khz && khz <= 21_450 {
            Some(Band::M15)
        } else if 24_890 <= khz && khz <= 24_990 {
            Some(Band::M12)
        } else if 28_000 <= khz && khz <= 29_700 {
            Some(Band::M10)
        } else if 50_000 <= khz && khz <= 54_000 {
            Some(Band::M6)
        } else if 70_000 <= khz && khz <= 70_500 {
            Some(Band::M4)
        } else if 144_000 <= khz && khz <= 148_000 {
            Some(Band::M2)
        } else if 222_000 <= khz && khz <= 225_000 {
            Some(Band::Cm125)
        } else if 420_000 <= khz && khz <= 450_000 {
            Some(Band::Cm70)
        } else if 902_000 <= khz && khz <= 928_000 {
            Some(Band::Cm33)
        } else if 1_240_000 <= khz && khz <= 1_300_000 {
            Some(Band::Cm23)
        } else {
            None
        }
    }
}

proof fn lemma_upper_fixed(s: Seq<char>)
    requires
        forall|k: int| 0 <= k < s.len() ==> !is_ascii_lower(#[trigger] s[k]),
    ensures
        upper_seq(s) == s,
{
    assert(upper_seq(s) =~= s);
}

proof fn lemma_band_names()
    ensures
        "2200M"@ == seq!['2', '2', '0', '0', 'M'],
        "630M"@ == seq!['6', '3', '0', 'M'],
        "160M"@ == seq!['1', '6', '0', 'M'],
        "80M"@ == seq!['8', '0', 'M'],
        "60M"@ == seq!['6', '0', 'M'],
        "40M"@ == seq!['4', '0', 'M'],
        "30M"@ == seq!['3', '0', 'M'],
        "20M"@ == seq!['2', '0', 'M'],
        "17M"@ == seq!['1', '7', 'M'],
        "15M"@ == seq!['1', '5', 'M'],
        "12M"@ == seq!['1', '2', 'M'],
        "10M"@ == seq!['1', '0', 'M'],
        "6M"@ == seq!['6', 'M'],
        "4M"@ == seq!['4', 'M'],
        "2M"@ == seq!['2', 'M'],
        "1.25M"@ == seq!['1', '.', '2', '5', 'M'],
        "70CM"@ == seq!['7', '0', 'C', 'M'],
        "33CM"@ == seq!['3', '3', 'C', 'M'],
        "23CM"@ == seq!['2', '3', 'C', 'M'],
        "13CM"@ == seq!['1', '3', 'C', 'M'],
        "9CM"@ == seq!['9', 'C', 'M'],
        "6CM"@ == seq!['6', 'C', 'M'],
        "3CM"@ == seq!['3', 'C', 'M'],
        "1.25CM"@ == seq!['1', '.', '2', '5', 'C', 'M'],
        "6MM"@ == seq!['6', 'M', 'M'],
{
    broadcast use vstd::string::group_string_axioms;

    reveal_strlit("2200M");
    assert("2200M"@ =~= seq!['2', '2', '0', '0', 'M']);
    reveal_strlit("630M");
    assert("630M"@ =~= seq!['6', '3', '0', 'M']);
    reveal_strlit("160M");
    assert("160M"@ =~= seq!['1', '6', '0', 'M']);
    reveal_strlit("80M");
    assert("80M"@ =~= seq!['8', '0', 'M']);
    reveal_strlit("60M");
    assert("60M"@ =~= seq!['6', '0', 'M']);
    reveal_strlit("40M");
    assert("40M"@ =~= seq!['4', '0', 'M']);
    reveal_strlit("30M");
    assert("30M"@ =~= seq!['3', '0', 'M']);
    reveal_strlit("20M");
    assert("20M"@ =~= seq!['2', '0', 'M']);
    reveal_strlit("17M");
    assert("17M"@ =~= seq!['1', '7', 'M']);
    reveal_strlit("15M");
    assert("15M"@ =~= seq!['1', '5', 'M']);
    reveal_strlit("12M");
    assert("12M"@ =~= seq!['1', '2', 'M']);
    reveal_strlit("10M");
    assert("10M"@ =~= seq!['1', '0', 'M']);
    reveal_strlit("6M");
    assert("6M"@ =~= seq!['6', 'M']);
    reveal_strlit("4M");
    assert("4M"@ =~= seq!['4', 'M']);
    reveal_strlit("2M");
    assert("2M"@ =~= seq!['2', 'M']);
    reveal_strlit("1.25M");
    assert("1.25M"@ =~= seq!['1', '.', '2', '5', 'M']);
    reveal_strlit("70CM");
    assert("70CM"@ =~= seq!['7', '0', 'C', 'M']);
    reveal_strlit("33CM");
    assert("33CM"@ =~= seq!['3', '3', 'C', 'M']);
    reveal_strlit("23CM");
    assert("23CM"@ =~= seq!['2', '3', 'C', 'M']);
    reveal_strlit("13CM");
    assert("13CM"@ =~= seq!['1', '3', 'C', 'M']);
    reveal_strlit("9CM");
    assert("9CM"@ =~= seq!['9', 'C', 'M']);
    reveal_strlit("6CM");
    assert("6CM"@ =~= seq!['6', 'C', 'M']);
    reveal_strlit("3CM");
    assert("3CM"@ =~= seq!['3', 'C', 'M']);
    reveal_strlit("1.25CM");
    assert("1.25CM"@ =~= seq!['1', '.', '2', '5', 'C', 'M']);
    reveal_strlit("6MM");
    assert("6MM"@ =~= seq!['6', 'M', 'M']);
}

/// Every band's ADIF name reads back as that band.
pub proof fn law_band_adif_round_trip(b: Band)
    ensures
        band_from_adif(band_adif(b)) == Some(b),
{
    lemma_band_names();
    lemma_upper_fixed(band_adif(b));
}

/// Operating modes; anything outside the fixed list is carried verbatim.
#[derive(Debug, Clone, PartialEq, Eq, Hash)]
pub enum Mode {
    CW,
    SSB,
    AM,
    FM,
    RTTY,
    PSK,
    FT8,
    FT4,
    JT65,
    JT9,
    JS8,
    MFSK,
    OLIVIA,
    DIGITALVOICE,
    Other(String),
}

/// The mathematical value of a `Mode`.
pub enum ModeV {
    CW,
    SSB,
    AM,
    FM,
    RTTY,
    PSK,
    FT8,
    FT4,
    JT65,
    JT9,
    JS8,
    MFSK,
    OLIVIA,
    DIGITALVOICE,
    Other(Seq<char>),
}

impl View for Mode {
    type V = ModeV;

    open spec fn view(&self) -> ModeV {
        match self {
            Mode::CW => ModeV::CW,
            Mode::SSB => ModeV::SSB,
            Mode::AM => ModeV::AM,
            Mode::FM => ModeV::FM,
            Mode::RTTY => ModeV::RTTY,
            Mode::PSK => ModeV::PSK,
            Mode::FT8 => ModeV::FT8,
            Mode::FT4 => ModeV::FT4,
            Mode::JT65 => ModeV::JT65,
            Mode::JT9 => ModeV::JT9,
            Mode::JS8 => ModeV::JS8,
            Mode::MFSK => ModeV::MFSK,
            Mode::OLIVIA => ModeV::OLIVIA,
            Mode::DIGITALVOICE => ModeV::DIGITALVOICE,
            Mode::Other(s) => ModeV::Other(s@),
        }
    }
}

impl Mode {
    /// A copy of the mode.
    pub fn duplicate(&self) -> (r: Mode)
        ensures
            r@ == self@,
    {
        match self {
            Mode::CW => Mode::CW,
            Mode::SSB => Mode::SSB,
            Mode::AM => Mode::AM,
            Mode::FM => Mode::FM,
            Mode::RTTY => Mode::RTTY,
            Mode::PSK => Mode::PSK,
            Mode::FT8 => Mode::FT8,
            Mode::FT4 => Mode::FT4,
            Mode::JT65 => Mode::JT65,
            Mode::JT9 => Mode::JT9,
            Mode::JS8 => Mode::JS8,
            Mode::MFSK => Mode::MFSK,
            Mode::OLIVIA => Mode::OLIVIA,
            Mode::DIGITALVOICE => Mode::DIGITALVOICE,
            Mode::Other(s) => Mode::Other(string_of(s.as_str())),
        }
    }
}

/// The ADIF `MODE` text of a mode.
pub open spec fn mode_adif(m: ModeV) -> Seq<char> {
    match m {
        ModeV::CW => "CW"@,
        ModeV::SSB => "SSB"@,
        ModeV::AM => "AM"@,
        ModeV::FM => "FM"@,
        ModeV::RTTY => "RTTY"@,
        ModeV::PSK => "PSK"@,
        ModeV::FT8 => "FT8"@,
        ModeV::FT4 => "FT4"@,
        ModeV::JT65 => "JT65"@,
        ModeV::JT9 => "JT9"@,
        ModeV::JS8 => "JS8"@,
        ModeV::MFSK => "MFSK"@,
        ModeV::OLIVIA => "OLIVIA"@,
        ModeV::DIGITALVOICE => "DIGITALVOICE"@,
        ModeV::Other(s) => s,
    }
}

/// The mode that ADIF text `s` names, compared without regard to ASCII
/// case; `USB`/`LSB` count as SSB and `PSK31`/`PSK63`/`PSK125` as PSK.
/// Unknown text is kept, upper-cased.
pub open spec fn mode_from_adif(s: Seq<char>) -> ModeV {
    let u = upper_seq(s);
    if u == "CW"@ {
        ModeV::CW
    } else if u == "SSB"@ || u == "USB"@ || u == "LSB"@ {
        ModeV::SSB
    } else if u == "AM"@ {
        ModeV::AM
    } else if u == "FM"@ {
        ModeV::FM
    } else if u == "RTTY"@ {
        ModeV::RTTY
    } else if u == "PSK"@ || u == "PSK31"@ || u == "PSK63"@ || u == "PSK125"@ {
        ModeV::PSK
    } else if u == "FT8"@ {
        ModeV::FT8
    } else if u == "FT4"@ {
        ModeV::FT4
    } else if u == "JT65"@ {
        ModeV::JT65
    } else if u == "JT9"@ {
        ModeV::JT9
    } else if u == "JS8"@ {
        ModeV::JS8
    } else if u == "MFSK"@ {
        ModeV::MFSK
    } else if u == "OLIVIA"@ {
        ModeV::OLIVIA
    } else if u == "DIGITALVOICE"@ {
        ModeV::DIGITALVOICE
    } else {
        ModeV::Other(u)
    }
}

/// Whether `u` is one of the names that `mode_from_adif` recognises.
pub open spec fn known_mode_name(u: Seq<char>) -> bool {
    u == "CW"@ || u == "SSB"@ || u == "USB"@ || u == "LSB"@ || u == "AM"@ || u == "FM"@ || u == "RTTY"@ || u == "PSK"@ || u == "PSK31"@ || u == "PSK63"@ || u == "PSK125"@ || u == "FT8"@ || u == "FT4"@ || u == "JT65"@ || u == "JT9"@ || u == "JS8"@ || u == "MFSK"@ || u == "OLIVIA"@ || u == "DIGITALVOICE"@
}

impl Mode {
    pub fn as_adif(&self) -> (r: &str)
        ensures
            r@ == mode_adif(self@),
    {
        match self {
            Mode::CW => "CW",
            Mode::SSB => "SSB",
            Mode::AM => "AM",
            Mode::FM => "FM",
            Mode::RTTY => "RTTY",
            Mode::PSK => "PSK",
            Mode::FT8 => "FT8",
            Mode::FT4 => "FT4",
            Mode::JT65 => "JT65",
            Mode::JT9 => "JT9",
            Mode::JS8 => "JS8",
            Mode::MFSK => "MFSK",
            Mode::OLIVIA => "OLIVIA",
            Mode::DIGITALVOICE => "DIGITALVOICE",
            Mode::Other(s) => s.as_str(),
        }
    }

    pub fn from_adif(s: &str) -> (r: Mode)
        ensures
            r@ == mode_from_adif(s@),
    {
        let uv = upper_chars(&chars_of(s));
        let u = uv.as_slice();
        if chars_eq_str(u, "CW") {
            Mode::CW
        } else if chars_eq_str(u, "SSB") || chars_eq_str(u, "USB") || chars_eq_str(u, "LSB") {
            Mode::SSB
        } else if chars_eq_str(u, "AM") {
            Mode::AM
        } else if chars_eq_str(u, "FM") {
            Mode::FM
        } else if chars_eq_str(u, "RTTY") {
            Mode::RTTY
        } else if chars_eq_str(u, "PSK") || chars_eq_str(u, "PSK31") || chars_eq_str(u, "PSK63") || chars_eq_str(u, "PSK125") {
            Mode::PSK
        } else if chars_eq_str(u, "FT8") {
            Mode::FT8
        } else if chars_eq_str(u, "FT4") {
            Mode::FT4
        } else if chars_eq_str(u, "JT65") {
            Mode::JT65
        } else if chars_eq_str(u, "JT9") {
            Mode::JT9
        } else if chars_eq_str(u, "JS8") {
            Mode::JS8
        } else if chars_eq_str(u, "MFSK") {
            Mode::MFSK
        } else if chars_eq_str(u, "OLIVIA") {
            Mode::OLIVIA
        } else if chars_eq_str(u, "DIGITALVOICE") {
            Mode::DIGITALVOICE
        } else {
            Mode::Other(string_from_chars(u))
        }
    }
}

proof fn lemma_mode_names()
    ensures
        "AM"@ == seq!['A', 'M'],
        "CW"@ == seq!['C', 'W'],
        "DIGITALVOICE"@ == seq!['D', 'I', 'G', 'I', 'T', 'A', 'L', 'V', 'O', 'I', 'C', 'E'],
        "FM"@ == seq!['F', 'M'],
        "FT4"@ == seq!['F', 'T', '4'],
        "FT8"@ == seq!['F', 'T', '8'],
        "JS8"@ == seq!['J', 'S', '8'],
        "JT65"@ == seq!['J', 'T', '6', '5'],
        "JT9"@ == seq!['J', 'T', '9'],
        "LSB"@ == seq!['L', 'S', 'B'],
        "MFSK"@ == seq!['M', 'F', 'S', 'K'],
        "OLIVIA"@ == seq!['O', 'L', 'I', 'V', 'I', 'A'],
        "PSK"@ == seq!['P', 'S', 'K'],
        "PSK125"@ == seq!['P', 'S', 'K', '1', '2', '5'],
        "PSK31"@ == seq!['P', 'S', 'K', '3', '1'],
        "PSK63"@ == seq!['P', 'S', 'K', '6', '3'],
        "RTTY"@ == seq!['R', 'T', 'T', 'Y'],
        "SSB"@ == seq!['S', 'S', 'B'],
        "USB"@ == seq!['U', 'S', 'B'],
{
    broadcast use vstd::string::group_string_axioms;

    reveal_strlit("AM");
    assert("AM"@ =~= seq!['A', 'M']);
    reveal_strlit("CW");
    assert("CW"@ =~= seq!['C', 'W']);
    reveal_strlit("DIGITALVOICE");
    assert("DIGITALVOICE"@ =~= seq!['D', 'I', 'G', 'I', 'T', 'A', 'L', 'V', 'O', 'I', 'C', 'E']);
    reveal_strlit("FM");
    assert("FM"@ =~= seq!['F', 'M']);
    reveal_strlit("FT4");
    assert("FT4"@ =~= seq!['F', 'T', '4']);
    reveal_strlit("FT8");
    assert("FT8"@ =~= seq!['F', 'T', '8']);
    reveal_strlit("JS8");
    assert("JS8"@ =~= seq!['J', 'S', '8']);
    reveal_strlit("JT65");
    assert("JT65"@ =~= seq!['J', 'T', '6', '5']);
    reveal_strlit("JT9");
    assert("JT9"@ =~= seq!['J', 'T', '9']);
    reveal_strlit("LSB");
    assert("LSB"@ =~= seq!['L', 'S', 'B']);
    reveal_strlit("MFSK");
    assert("MFSK"@ =~= seq!['M', 'F', 'S', 'K']);
    reveal_strlit("OLIVIA");
    assert("OLIVIA"@ =~= seq!['O', 'L', 'I', 'V', 'I', 'A']);
    reveal_strlit("PSK");
    assert("PSK"@ =~= seq!['P', 'S', 'K']);
    reveal_strlit("PSK125");
    assert("PSK125"@ =~= seq!['P', 'S', 'K', '1', '2', '5']);
    reveal_strlit("PSK31");
    assert("PSK31"@ =~= seq!['P', 'S', 'K', '3', '1']);
    reveal_strlit("PSK63");
    assert("PSK63"@ =~= seq!['P', 'S', 'K', '6', '3']);
    reveal_strlit("RTTY");
    assert("RTTY"@ =~= seq!['R', 'T', 'T', 'Y']);
    reveal_strlit("SSB");
    assert("SSB"@ =~= seq!['S', 'S', 'B']);
    reveal_strlit("USB");
    assert("USB"@ =~= seq!['U', 'S', 'B']);
}

/// Reading back the ADIF text of a mode gives the mode again, for every
/// mode whose text is not itself a name with another meaning: a free-form
/// mode must be upper-case and must not be one of the recognised names.
pub proof fn law_mode_adif_round_trip(m: ModeV)
    requires
        m matches ModeV::Other(s) ==> upper_seq(s) == s && !known_mode_name(s),
    ensures
        mode_from_adif(mode_adif(m)) == m,
{
    lemma_mode_names();
    if !(m is Other) {
        lemma_upper_fixed(mode_adif(m));
    }
}

/// How the signal travelled.
#[derive(Debug, Clone, PartialEq, Eq)]
pub enum PropagationMode {
    Terrestrial,
    Satellite,
    Eme,
    MeteorScatter,
    Aurora,
    AircraftScatter,
    Other(String),
}

/// The mathematical value of a `PropagationMode`.
pub enum PropagationModeV {
    Terrestrial,
    Satellite,
    Eme,
    MeteorScatter,
    Aurora,
    AircraftScatter,
    Other(Seq<char>),
}

impl View for PropagationMode {
    type V = PropagationModeV;

    open spec fn view(&self) -> PropagationModeV {
        match self {
            PropagationMode::Terrestrial => PropagationModeV::Terrestrial,
            PropagationMode::Satellite => PropagationModeV::Satellite,
            PropagationMode::Eme => PropagationModeV::Eme,
            PropagationMode::MeteorScatter => PropagationModeV::MeteorScatter,
            PropagationMode::Aurora => PropagationModeV::Aurora,
            PropagationMode::AircraftScatter => PropagationModeV::AircraftScatter,
            PropagationMode::Other(s) => PropagationModeV::Other(s@),
        }
    }
}

/// The text under which a propagation mode is stored.
pub open spec fn propagation_storage(p: PropagationModeV) -> Seq<char> {
    match p {
        PropagationModeV::Terrestrial => "terrestrial"@,
        PropagationModeV::Satellite => "satellite"@,
        PropagationModeV::Eme => "eme"@,
        PropagationModeV::MeteorScatter => "meteor_scatter"@,
        PropagationModeV::Aurora => "aurora"@,
        PropagationModeV::AircraftScatter => "aircraft_scatter"@,
        PropagationModeV::Other(s) => "other:"@ + s,
    }
}

/// The propagation mode that stored text `s` stands for: `other:` followed
/// by free text, one of the fixed names, or else the text itself as a
/// free-form mode.
pub open spec fn propagation_from_storage(s: Seq<char>) -> PropagationModeV {
    if starts_with(s, "other:"@) {
        PropagationModeV::Other(s.subrange(6, s.len() as int))
    } else if s == "terrestrial"@ {
        PropagationModeV::Terrestrial
    } else if s == "satellite"@ {
        PropagationModeV::Satellite
    } else if s == "eme"@ {
        PropagationModeV::Eme
    } else if s == "meteor_scatter"@ {
        PropagationModeV::MeteorScatter
    } else if s == "aurora"@ {
        PropagationModeV::Aurora
    } else if s == "aircraft_scatter"@ {
        PropagationModeV::AircraftScatter
    } else {
        PropagationModeV::Other(s)
    }
}

/// A string holding the literal `s`.
pub fn string_of(s: &str) -> (r: String)
    ensures
        r@ == s@,
{
    String::from_str(s)
}

/// `s` without its first `n` characters.
pub fn chars_skip(s: &[char], n: usize) -> (r: Vec<char>)
    requires
        n <= s.len(),
    ensures
        r@ == s@.subrange(n as int, s.len() as int),
{
    let mut r: Vec<char> = Vec::new();
    let mut k: usize = n;
    while k < s.len()
        invariant
            n <= k <= s.len(),
            r@ == s@.subrange(n as int, k as int),
        decreases s.len() - k,
    {
        r.push(s[k]);
        k = k + 1;
        assert(r@ =~= s@.subrange(n as int, k as int));
    }
    r
}

/// Stored text of a propagation mode.
pub fn propagation_to_str(p: &PropagationMode) -> (r: String)
    ensures
        r@ == propagation_storage(p@),
{
    match p {
        PropagationMode::Terrestrial => string_of("terrestrial"),
        PropagationMode::Satellite => string_of("satellite"),
        PropagationMode::Eme => string_of("eme"),
        PropagationMode::MeteorScatter => string_of("meteor_scatter"),
        PropagationMode::Aurora => string_of("aurora"),
        PropagationMode::AircraftScatter => string_of("aircraft_scatter"),
        PropagationMode::Other(s) => {
            let mut r = string_of("other:");
            r.append(s.as_str());
            r
        },
    }
}

/// Propagation mode read back from its stored text.
pub fn propagation_from_str(s: &str) -> (r: PropagationMode)
    ensures
        r@ == propagation_from_storage(s@),
{
    let c = chars_of(s);
    let c = c.as_slice();
    proof {
        lemma_storage_names();
    }
    if chars_start_with_str(c, "other:") {
        return PropagationMode::Other(string_from_chars(chars_skip(c, 6).as_slice()));
    }
    if chars_eq_str(c, "terrestrial") {
        PropagationMode::Terrestrial
    } else if chars_eq_str(c, "satellite") {
        PropagationMode::Satellite
    } else if chars_eq_str(c, "eme") {
        PropagationMode::Eme
    } else if chars_eq_str(c, "meteor_scatter") {
        PropagationMode::MeteorScatter
    } else if chars_eq_str(c, "aurora") {
        PropagationMode::Aurora
    } else if chars_eq_str(c, "aircraft_scatter") {
        PropagationMode::AircraftScatter
    } else {
        PropagationMode::Other(string_from_chars(c))
    }
}

/// Where the value of an exchange field came from.
#[derive(Debug, Clone, PartialEq, Eq)]
pub enum FieldSource {
    OperatorEntered,
    RigDerived,
    ImportedAdif,
    StationDataResolved,
    ServiceSync(String),
    ManualOverride,
}

/// The mathematical value of a `FieldSource`.
pub enum FieldSourceV {
    OperatorEntered,
    RigDerived,
    ImportedAdif,
    StationDataResolved,
    ServiceSync(Seq<char>),
    ManualOverride,
}

impl View for FieldSource {
    type V = FieldSourceV;

    open spec fn view(&self) -> FieldSourceV {
        match self {
            FieldSource::OperatorEntered => FieldSourceV::OperatorEntered,
            FieldSource::RigDerived => FieldSourceV::RigDerived,
            FieldSource::ImportedAdif => FieldSourceV::ImportedAdif,
            FieldSource::StationDataResolved => FieldSourceV::StationDataResolved,
            FieldSource::ServiceSync(s) => FieldSourceV::ServiceSync(s@),
            FieldSource::ManualOverride => FieldSourceV::ManualOverride,
        }
    }
}

/// The stored text of a field source.
pub open spec fn field_source_storage(f: FieldSourceV) -> Seq<char> {
    match f {
        FieldSourceV::OperatorEntered => "operator_entered"@,
        FieldSourceV::RigDerived => "rig_derived"@,
        FieldSourceV::ImportedAdif => "imported_adif"@,
        FieldSourceV::StationDataResolved => "station_data_resolved"@,
        FieldSourceV::ServiceSync(s) => "service_sync:"@ + s,
        FieldSourceV::ManualOverride => "manual_override"@,
    }
}

/// The field source that stored text `s` stands for; unknown text counts as
/// operator-entered.
pub open spec fn field_source_from_storage(s: Seq<char>) -> FieldSourceV {
    if starts_with(s, "service_sync:"@) {
        FieldSourceV::ServiceSync(s.subrange(13, s.len() as int))
    } else if s == "operator_entered"@ {
        FieldSourceV::OperatorEntered
    } else if s == "rig_derived"@ {
        FieldSourceV::RigDerived
    } else if s == "imported_adif"@ {
        FieldSourceV::ImportedAdif
    } else if s == "station_data_resolved"@ {
        FieldSourceV::StationDataResolved
    } else if s == "manual_override"@ {
        FieldSourceV::ManualOverride
    } else {
        FieldSourceV::OperatorEntered
    }
}

impl FieldSource {
    pub fn as_storage_str(&self) -> (r: String)
        ensures
            r@ == field_source_storage(self@),
    {
        match self {
            FieldSource::OperatorEntered => string_of("operator_entered"),
            FieldSource::RigDerived => string_of("rig_derived"),
            FieldSource::ImportedAdif => string_of("imported_adif"),
            FieldSource::StationDataResolved => string_of("station_data_resolved"),
            FieldSource::ServiceSync(svc) => {
                let mut r = string_of("service_sync:");
                r.append(svc.as_str());
                r
            },
            FieldSource::ManualOverride => string_of("manual_override"),
        }
    }

    pub fn parse_storage(s: &str) -> (r: FieldSource)
        ensures
            r@ == field_source_from_storage(s@),
    {
        let c = chars_of(s);
        let c = c.as_slice();
        proof {
            lemma_storage_names();
        }
        if chars_start_with_str(c, "service_sync:") {
            return FieldSource::ServiceSync(string_from_chars(chars_skip(c, 13).as_slice()));
        }
        if chars_eq_str(c, "operator_entered") {
            FieldSource::OperatorEntered
        } else if chars_eq_str(c, "rig_derived") {
            FieldSource::RigDerived
        } else if chars_eq_str(c, "imported_adif") {
            FieldSource::ImportedAdif
        } else if chars_eq_str(c, "station_data_resolved") {
            FieldSource::StationDataResolved
        } else if chars_eq_str(c, "manual_override") {
            FieldSource::ManualOverride
        } else {
            FieldSource::OperatorEntered
        }
    }
}

proof fn lemma_storage_names()
    ensures
        "terrestrial"@ == seq!['t', 'e', 'r', 'r', 'e', 's', 't', 'r', 'i', 'a', 'l'],
        "satellite"@ == seq!['s', 'a', 't', 'e', 'l', 'l', 'i', 't', 'e'],
        "eme"@ == seq!['e', 'm', 'e'],
        "meteor_scatter"@ == seq!['m', 'e', 't', 'e', 'o', 'r', '_', 's', 'c', 'a', 't', 't', 'e', 'r'],
        "aurora"@ == seq!['a', 'u', 'r', 'o', 'r', 'a'],
        "aircraft_scatter"@ == seq!['a', 'i', 'r', 'c', 'r', 'a', 'f', 't', '_', 's', 'c', 'a', 't', 't', 'e', 'r'],
        "other:"@ == seq!['o', 't', 'h', 'e', 'r', ':'],
        "operator_entered"@ == seq!['o', 'p', 'e', 'r', 'a', 't', 'o', 'r', '_', 'e', 'n', 't', 'e', 'r', 'e', 'd'],
        "rig_derived"@ == seq!['r', 'i', 'g', '_', 'd', 'e', 'r', 'i', 'v', 'e', 'd'],
        "imported_adif"@ == seq!['i', 'm', 'p', 'o', 'r', 't', 'e', 'd', '_', 'a', 'd', 'i', 'f'],
        "station_data_resolved"@ == seq!['s', 't', 'a', 't', 'i', 'o', 'n', '_', 'd', 'a', 't', 'a', '_', 'r', 'e', 's', 'o', 'l', 'v', 'e', 'd'],
        "manual_override"@ == seq!['m', 'a', 'n', 'u', 'a', 'l', '_', 'o', 'v', 'e', 'r', 'r', 'i', 'd', 'e'],
        "service_sync:"@ == seq!['s', 'e', 'r', 'v', 'i', 'c', 'e', '_', 's', 'y', 'n', 'c', ':'],
{
    broadcast use vstd::string::group_string_axioms;

    reveal_strlit("terrestrial");
    assert("terrestrial"@ =~= seq!['t', 'e', 'r', 'r', 'e', 's', 't', 'r', 'i', 'a', 'l']);
    reveal_strlit("satellite");
    assert("satellite"@ =~= seq!['s', 'a', 't', 'e', 'l', 'l', 'i', 't', 'e']);
    reveal_strlit("eme");
    assert("eme"@ =~= seq!['e', 'm', 'e']);
    reveal_strlit("meteor_scatter");
    assert("meteor_scatter"@ =~= seq!['m', 'e', 't', 'e', 'o', 'r', '_', 's', 'c', 'a', 't', 't', 'e', 'r']);
    reveal_strlit("aurora");
    assert("aurora"@ =~= seq!['a', 'u', 'r', 'o', 'r', 'a']);
    reveal_strlit("aircraft_scatter");
    assert("aircraft_scatter"@ =~= seq!['a', 'i', 'r', 'c', 'r', 'a', 'f', 't', '_', 's', 'c', 'a', 't', 't', 'e', 'r']);
    reveal_strlit("other:");
    assert("other:"@ =~= seq!['o', 't', 'h', 'e', 'r', ':']);
    reveal_strlit("operator_entered");
    assert("operator_entered"@ =~= seq!['o', 'p', 'e', 'r', 'a', 't', 'o', 'r', '_', 'e', 'n', 't', 'e', 'r', 'e', 'd']);
    reveal_strlit("rig_derived");
    assert("rig_derived"@ =~= seq!['r', 'i', 'g', '_', 'd', 'e', 'r', 'i', 'v', 'e', 'd']);
    reveal_strlit("imported_adif");
    assert("imported_adif"@ =~= seq!['i', 'm', 'p', 'o', 'r', 't', 'e', 'd', '_', 'a', 'd', 'i', 'f']);
    reveal_strlit("station_data_resolved");
    assert("station_data_resolved"@ =~= seq!['s', 't', 'a', 't', 'i', 'o', 'n', '_', 'd', 'a', 't', 'a', '_', 'r', 'e', 's', 'o', 'l', 'v', 'e', 'd']);
    reveal_strlit("manual_override");
    assert("manual_override"@ =~= seq!['m', 'a', 'n', 'u', 'a', 'l', '_', 'o', 'v', 'e', 'r', 'r', 'i', 'd', 'e']);
    reveal_strlit("service_sync:");
    assert("service_sync:"@ =~= seq!['s', 'e', 'r', 'v', 'i', 'c', 'e', '_', 's', 'y', 'n', 'c', ':']);
}

/// A stored propagation mode reads back as the same mode.
pub proof fn law_propagation_storage_round_trip(p: PropagationModeV)
    ensures
        propagation_from_storage(propagation_storage(p)) == p,
{
    lemma_storage_names();
    let t = propagation_storage(p);
    if let PropagationModeV::Other(s) = p {
        assert(t.subrange(0, 6) =~= "other:"@);
        assert(t.subrange(6, t.len() as int) =~= s);
    } else {
        assert(t.len() < 6 || t[1] != 't');
        assert(!starts_with(t, "other:"@)) by {
            if t.len() >= 6 {
                assert(t.subrange(0, 6)[1] != "other:"@[1]);
            }
        }
    }
}

/// A stored field source reads back as the same source.
pub proof fn law_field_source_storage_round_trip(f: FieldSourceV)
    ensures
        field_source_from_storage(field_source_storage(f)) == f,
{
    lemma_storage_names();
    let t = field_source_storage(f);
    if let FieldSourceV::ServiceSync(s) = f {
        assert(t.subrange(0, 13) =~= "service_sync:"@);
        assert(t.subrange(13, t.len() as int) =~= s);
    } else {
        assert(!starts_with(t, "service_sync:"@)) by {
            if t.len() >= 13 {
                assert(t.subrange(0, 13)[0] != "service_sync:"@[0] || t.subrange(0, 13)[1]
                    != "service_sync:"@[1]);
            }
        }
    }
}

/// The edges, in whole kHz, of each band's allocation that frequencies are
/// sorted into: lowest and highest kHz, both included. The microwave
/// bands from 13 cm up are not sorted into by frequency.
pub open spec fn band_edges_khz(b: Band) -> Option<(int, int)> {
    match b {
        Band::M2200 => Some((135, 137)),
        Band::M630 => Some((472, 479)),
        Band::M160 => Some((1_800, 2_000)),
        Band::M80 => Some((3_500, 4_000)),
        Band::M60 => Some((5_330, 5_410)),
        Band::M40 => Some((7_000, 7_300)),
        Band::M30 => Some((10_100, 10_150)),
        Band::M20 => Some((14_000, 14_350)),
        Band::M17 => Some((18_068, 18_168)),
        Band::M15 => Some((21_000, 21_450)),
        Band::M12 => Some((24_890, 24_990)),
        Band::M10 => Some((28_000, 29_700)),
        Band::M6 => Some((50_000, 54_000)),
        Band::M4 => Some((70_000, 70_500)),
        Band::M2 => Some((144_000, 148_000)),
        Band::Cm125 => Some((222_000, 225_000)),
        Band::Cm70 => Some((420_000, 450_000)),
        Band::Cm33 => Some((902_000, 928_000)),
        Band::Cm23 => Some((1_240_000, 1_300_000)),
        _ => None,
    }
}

/// A frequency is sorted into a band exactly when its whole kHz lie within
/// that band's edges: every frequency of an allocation maps to its band,
/// and none maps to a band whose allocation it is not in.
pub proof fn law_band_is_its_allocation(hz: int, b: Band)
    ensures
        (band_of_hz(hz) == Some(b)) <==> (hz >= 0 && (band_edges_khz(b) matches Some((lo, hi)) && lo
            <= hz / 1000 <= hi)),
{
}

} // verus!
