//! Resolution of a callsign from a cty.dat lookup: what the country file
//! matched is turned into the entity fields of a QSO.
use vstd::prelude::*;

use crate::dxcc_table::{dxcc_id_for_prefix, dxcc_id_of};
use crate::text::{chars_of, string_from_chars};
use crate::value::string_of;
use crate::qso::Resolution;

verus! {

/// Why the country file could not be loaded.
#[derive(Debug, Clone)]
pub enum CtyLoadError {
    Load(String),
}

impl CtyLoadError {
    /// The error's message, as its `Display` would write it.
    pub fn message(&self) -> (r: String)
        ensures
            r@ == match *self {
                CtyLoadError::Load(s) => "cty.dat load error: "@ + s@,
            },
    {
        match self {
            CtyLoadError::Load(s) => {
                let mut r = string_of("cty.dat load error: ");
                r.append(s.as_str());
                r
            },
        }
    }
}

/// What a cty.dat lookup matched for a callsign: the entity's prefix,
/// its continent and its zones.
#[derive(Debug, Clone)]
pub struct CtyMatch {
    pub dxcc: String,
    pub continent: String,
    pub cq_zone: Option<u8>,
    pub itu_zone: Option<u8>,
}

/// The first `-` of `s`, if any.
pub open spec fn first_dash(s: Seq<char>) -> Option<int> {
    if exists|i: int| 0 <= i < s.len() && s[i] == '-' && forall|j: int| 0 <= j < i ==> s[j] != '-' {
        Some(choose|i: int| 0 <= i < s.len() && s[i] == '-' && forall|j: int| 0 <= j < i ==> s[j] != '-')
    } else {
        None
    }
}

/// `call` up to its first `-`.
pub open spec fn strip_ssid_spec(s: Seq<char>) -> Seq<char> {
    match first_dash(s) {
        Some(i) => s.take(i),
        None => s,
    }
}

/// The callsign without its SSID suffix.
pub fn strip_ssid(call: &str) -> (r: String)
    ensures
        r@ == strip_ssid_spec(call@),
{
    let c = chars_of(call);
    let mut head: Vec<char> = Vec::new();
    let mut i: usize = 0;
    while i < c.len()
        invariant
            i <= c.len(),
            c@ == call@,
            head@ == c@.take(i as int),
            forall|j: int| 0 <= j < i ==> c@[j] != '-',
        decreases c.len() - i,
    {
        if c[i] == '-' {
            let r = string_from_chars(head.as_slice());
            assert(first_dash(call@) == Some(i as int)) by {
                let w = choose|k: int| 0 <= k < call@.len() && call@[k] == '-' && forall|j: int| 0 <= j < k ==> call@[j] != '-';
                if w < i {
                    assert(c@[w] != '-');
                } else if w > i {
                    assert(call@[i as int] == '-');
                }
            }
            assert(r@ =~= call@.take(i as int));
            return r;
        }
        head.push(c[i]);
        i = i + 1;
        assert(head@ =~= c@.take(i as int));
    }
    assert(first_dash(call@) is None);
    string_from_chars(c.as_slice())
}

/// A zone of 0 means the country file does not know it.
pub open spec fn known_zone(z: Option<u8>) -> Option<u8> {
    match z {
        Some(v) => if v == 0 {
            None
        } else {
            Some(v)
        },
        None => None,
    }
}

pub fn keep_zone(z: u8) -> (r: Option<u8>)
    ensures
        r == known_zone(Some(z)),
{
    if z == 0 {
        None
    } else {
        Some(z)
    }
}

fn keep_opt_zone(z: Option<u8>) -> (r: Option<u8>)
    ensures
        r == known_zone(z),
{
    match z {
        Some(v) => keep_zone(v),
        None => None,
    }
}

/// The resolution of what cty.dat matched: the DXCC number of its
/// prefix, the prefix, the continent and the zones it knows.
pub fn resolution_from_match(m: Option<CtyMatch>) -> (r: Option<Resolution>)
    ensures
        match m {
            None => r is None,
            Some(x) => r matches Some(res) && {
                &&& res.dxcc_id == dxcc_id_of(x.dxcc@)
                &&& res.dxcc_prefix == Some(x.dxcc)
                &&& res.country is None
                &&& res.continent == Some(x.continent)
                &&& res.cq_zone == known_zone(x.cq_zone)
                &&& res.itu_zone == known_zone(x.itu_zone)
            },
        },
{
    match m {
        None => None,
        Some(x) => {
            let dxcc_id = dxcc_id_for_prefix(x.dxcc.as_str());
            Some(
                Resolution {
                    dxcc_id,
                    dxcc_prefix: Some(x.dxcc),
                    country: None,
                    continent: Some(x.continent),
                    cq_zone: keep_opt_zone(x.cq_zone),
                    itu_zone: keep_opt_zone(x.itu_zone),
                },
            )
        },
    }
}

} // verus!
