//! Identifiers of log entities: random 128-bit (UUID v4) values, stored
//! as their hyphenated text.
use vstd::arithmetic::power::pow;
use vstd::prelude::*;

verus! {

/// Whether a 128-bit value carries the marks of a random UUID: version 4
/// in the version nibble and the RFC 4122 variant (binary `10`) in the
/// variant bits.
pub open spec fn is_v4_uuid(x: u128) -> bool {
    x & 0xF000_C000_0000_0000_0000u128 == 0x4000_8000_0000_0000_0000u128
}

/// `uuid::Uuid::new_v4()`, as its 128-bit value. `new_v4` masks random
/// bits and sets the version and variant bits, so every outcome is a
/// v4 UUID; which one it is rests on chance and is not stated, nor that
/// two calls give different values.
#[verifier::external_body]
fn new_uuid_v4() -> (r: u128)
    ensures
        is_v4_uuid(r),
{
    uuid::Uuid::new_v4().as_u128()
}

/// Identifier of a QSO.
#[derive(Debug, Clone, Copy, PartialEq, Eq, Hash, Structural)]
pub struct QsoId(pub u128);

/// Identifier of an operator.
#[derive(Debug, Clone, Copy, PartialEq, Eq, Hash, Structural)]
pub struct OperatorId(pub u128);

/// Identifier of a station location.
#[derive(Debug, Clone, Copy, PartialEq, Eq, Hash, Structural)]
pub struct StationLocationId(pub u128);

/// Identifier of an operating session.
#[derive(Debug, Clone, Copy, PartialEq, Eq, Hash, Structural)]
pub struct OperatingSessionId(pub u128);

impl QsoId {
    /// A fresh random identifier: a v4 UUID.
    pub fn new() -> (r: QsoId)
        ensures
            is_v4_uuid(r.0),
    {
        QsoId(new_uuid_v4())
    }

    pub fn from_uuid(uuid: u128) -> (r: QsoId)
        ensures
            r.0 == uuid,
    {
        QsoId(uuid)
    }

    pub fn as_uuid(&self) -> (r: u128)
        ensures
            r == self.0,
    {
        self.0
    }
}

impl OperatorId {
    /// A fresh random identifier: a v4 UUID.
    pub fn new() -> (r: OperatorId)
        ensures
            is_v4_uuid(r.0),
    {
        OperatorId(new_uuid_v4())
    }

    pub fn from_uuid(uuid: u128) -> (r: OperatorId)
        ensures
            r.0 == uuid,
    {
        OperatorId(uuid)
    }

    pub fn as_uuid(&self) -> (r: u128)
        ensures
            r == self.0,
    {
        self.0
    }
}

impl StationLocationId {
    /// A fresh random identifier: a v4 UUID.
    pub fn new() -> (r: StationLocationId)
        ensures
            is_v4_uuid(r.0),
    {
        StationLocationId(new_uuid_v4())
    }

    pub fn from_uuid(uuid: u128) -> (r: StationLocationId)
        ensures
            r.0 == uuid,
    {
        StationLocationId(uuid)
    }

    pub fn as_uuid(&self) -> (r: u128)
        ensures
            r == self.0,
    {
        self.0
    }
}

impl OperatingSessionId {
    /// A fresh random identifier: a v4 UUID.
    pub fn new() -> (r: OperatingSessionId)
        ensures
            is_v4_uuid(r.0),
    {
        OperatingSessionId(new_uuid_v4())
    }

    pub fn from_uuid(uuid: u128) -> (r: OperatingSessionId)
        ensures
            r.0 == uuid,
    {
        OperatingSessionId(uuid)
    }

    pub fn as_uuid(&self) -> (r: u128)
        ensures
            r == self.0,
    {
        self.0
    }
}

/// A hexadecimal digit in lower case.
pub open spec fn hex_lower(d: int) -> char {
    if d < 10 {
        (48 + d) as char
    } else {
        (87 + d) as char
    }
}

/// The `k`-th hex digit of a UUID, most significant first.
pub open spec fn uuid_nibble(u: u128, k: int) -> int {
    ((u as int) / pow(16, (31 - k) as nat)) % 16
}

/// How many hyphens come before position `i` of the hyphenated text.
pub open spec fn hyphens_before(i: int) -> int {
    if i < 8 {
        0
    } else if i < 13 {
        1
    } else if i < 18 {
        2
    } else if i < 23 {
        3
    } else {
        4
    }
}

/// The hyphenated lower-case text of a UUID: its 32 hex digits, most
/// significant first, with `-` after the 8th, 12th, 16th and 20th.
pub open spec fn uuid_text(u: u128) -> Seq<char> {
    Seq::new(
        36,
        |i: int|
            if i == 8 || i == 13 || i == 18 || i == 23 {
                '-'
            } else {
                hex_lower(uuid_nibble(u, i - hyphens_before(i)))
            },
    )
}

/// What `uuid::Uuid::parse_str` reads from a text, as a 128-bit value.
pub uninterp spec fn uuid_from_text(s: Seq<char>) -> Option<u128>;

/// `uuid::Uuid::from_u128(u).to_string()`: the hyphenated lower-case
/// form, as uuid's `Display` writes it.
#[verifier::external_body]
pub(crate) fn format_uuid(u: u128) -> (r: String)
    ensures
        r@ == uuid_text(u),
{
    uuid::Uuid::from_u128(u).to_string()
}

/// `uuid::Uuid::parse_str`, as a 128-bit value. The parser reads every
/// format the crate writes, the hyphenated one among them, so the text of
/// a UUID reads back as that UUID. The text of the error is uuid's own
/// and is not described.
#[verifier::external_body]
pub(crate) fn parse_uuid(s: &str) -> (r: Result<u128, String>)
    ensures
        r matches Ok(u) ==> uuid_from_text(s@) == Some(u),
        r is Err ==> uuid_from_text(s@) is None,
        r is Ok || forall|u: u128| s@ != #[trigger] uuid_text(u),
        r matches Ok(x) ==> forall|u: u128| s@ == #[trigger] uuid_text(u) ==> x == u,
{
    match uuid::Uuid::parse_str(s) {
        Ok(u) => Ok(u.as_u128()),
        Err(e) => Err(e.to_string()),
    }
}

} // verus!
