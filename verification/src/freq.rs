//! Frequencies typed or logged in MHz, read as whole Hz.
use vstd::prelude::*;

use crate::text::{
    all_digits, chars_eq_str, chars_of, digits_value_chars, is_ascii_digit, lower_chars, lower_seq,
    str_trim, trim,
};

verus! {

pub open spec fn pow10(n: nat) -> nat
    decreases n,
{
    if n == 0 {
        1
    } else {
        10 * pow10((n - 1) as nat)
    }
}

/// Index of the first `.` in `p`, or `p.len()`.
pub open spec fn first_dot(p: Seq<char>) -> int
    decreases p.len(),
{
    if p.len() == 0 {
        0
    } else if p[0] == '.' {
        0
    } else {
        1 + first_dot(p.drop_first())
    }
}

/// The unsigned part of a decimal number: digits, then optionally `.` and
/// more digits, with at least one digit in all.
pub open spec fn split_decimal(p: Seq<char>) -> Option<(Seq<char>, Seq<char>)> {
    let dot = first_dot(p);
    let ip = p.subrange(0, dot);
    let fp = if dot < p.len() {
        p.subrange(dot + 1, p.len() as int)
    } else {
        seq![]
    };
    if all_digits(ip) && all_digits(fp) && ip.len() + fp.len() > 0 {
        Some((ip, fp))
    } else {
        None
    }
}

/// Index of the first `e` or `E` in `p`, or `p.len()`.
pub open spec fn first_exp(p: Seq<char>) -> int
    decreases p.len(),
{
    if p.len() == 0 {
        0
    } else if p[0] == 'e' || p[0] == 'E' {
        0
    } else {
        1 + first_exp(p.drop_first())
    }
}

/// The value of an exponent text: an optional sign, then one or more
/// digits.
pub open spec fn exponent_value(x: Seq<char>) -> Option<int> {
    let d = if x.len() > 0 && (x[0] == '+' || x[0] == '-') {
        x.drop_first()
    } else {
        x
    };
    if d.len() > 0 && all_digits(d) {
        if x[0] == '-' {
            Some(-(digits_value_chars(d) as int))
        } else {
            Some(digits_value_chars(d) as int)
        }
    } else {
        None
    }
}

/// An unsigned number as `f64::from_str` reads it: a decimal number, then
/// optionally `e` or `E` and an exponent; as its integer digits, its
/// fraction digits and the exponent.
pub open spec fn split_number(p: Seq<char>) -> Option<(Seq<char>, Seq<char>, int)> {
    let x = first_exp(p);
    let e = if x < p.len() {
        exponent_value(p.subrange(x + 1, p.len() as int))
    } else {
        Some(0int)
    };
    match split_decimal(p.subrange(0, x)) {
        Some((ip, fp)) => match e {
            Some(v) => Some((ip, fp, v)),
            None => None,
        },
        None => None,
    }
}

/// The number written by the digits `d` with the decimal point after
/// position `q` (before the start when `q` is negative, with zeros added
/// when it is past the end), rounded half up to a whole number.
pub open spec fn rounded_at(d: Seq<char>, q: int) -> nat {
    let k = if q < 0 {
        0
    } else if q > d.len() {
        d.len() as int
    } else {
        q
    };
    let pad: nat = if q > d.len() {
        (q - d.len()) as nat
    } else {
        0
    };
    let up: nat = if 0 <= q < d.len() && d[q] >= '5' {
        1
    } else {
        0
    };
    digits_value_chars(d.subrange(0, k)) * pow10(pad) + up
}

/// Whether `x` is a spelling of infinity or NaN that `f64::from_str`
/// accepts, without its sign.
pub open spec fn is_inf_text(x: Seq<char>) -> bool {
    lower_seq(x) == "inf"@ || lower_seq(x) == "infinity"@
}

pub open spec fn is_nan_text(x: Seq<char>) -> bool {
    lower_seq(x) == "nan"@
}

/// Hz of a frequency text in MHz, read as `f64::from_str` reads a number
/// and then multiplied by a million and rounded: surrounding whitespace
/// is ignored; a leading `-`, zero and text that is no number give
/// `None`; infinity saturates and NaN gives 0; a number, with or without
/// an exponent, gives its exact value in Hz rounded half away from zero,
/// saturated at `i64::MAX`. Computed in decimal, this is the value that
/// floating point gives except where its own rounding shows: a value
/// within a binary rounding step of half a Hz, a value below the
/// smallest positive `f64` (which reads as zero there), and digits past
/// the precision of an `f64`.
pub open spec fn mhz_text_to_hz(s: Seq<char>) -> Option<i64> {
    let t = trim(s);
    let neg = t.len() > 0 && t[0] == '-';
    let p = if t.len() > 0 && (t[0] == '+' || t[0] == '-') {
        t.drop_first()
    } else {
        t
    };
    if is_inf_text(p) {
        if neg {
            None
        } else {
            Some(i64::MAX)
        }
    } else if is_nan_text(p) {
        Some(0)
    } else {
        match split_number(p) {
            None => None,
            Some((ip, fp, e)) => {
                let d = ip + fp;
                let hz = rounded_at(d, ip.len() + e + 6);
                if neg || digits_value_chars(d) == 0 {
                    None
                } else if hz > i64::MAX {
                    Some(i64::MAX)
                } else {
                    Some(hz as i64)
                }
            },
        }
    }
}

proof fn lemma_digits_zero(d: Seq<char>)
    requires
        all_digits(d),
    ensures
        digits_value_chars(d) == 0 <==> forall|i: int| 0 <= i < d.len() ==> #[trigger] d[i] == '0',
    decreases d.len(),
{
    if d.len() > 0 {
        lemma_digits_zero(d.drop_last());
        assert(all_digits(d.drop_last()));
        if digits_value_chars(d) == 0 {
            assert(digits_value_chars(d.drop_last()) == 0);
            assert forall|i: int| 0 <= i < d.len() implies #[trigger] d[i] == '0' by {
                if i < d.len() - 1 {
                    assert(d.drop_last()[i] == '0');
                }
            }
        } else {
            if forall|i: int| 0 <= i < d.len() ==> #[trigger] d[i] == '0' {
                assert(forall|i: int| 0 <= i < d.drop_last().len() ==> #[trigger] d.drop_last()[i] == '0');
                assert(d.last() == '0');
            }
        }
    }
}

proof fn lemma_pow10_pos(n: nat)
    ensures
        pow10(n) >= 1,
    decreases n,
{
    if n > 0 {
        lemma_pow10_pos((n - 1) as nat);
    }
}

proof fn lemma_first_dot_bounds(p: Seq<char>)
    ensures
        0 <= first_dot(p) <= p.len(),
        first_dot(p) < p.len() ==> p[first_dot(p)] == '.',
        forall|j: int| 0 <= j < first_dot(p) ==> p[j] != '.',
    decreases p.len(),
{
    if p.len() > 0 && p[0] != '.' {
        lemma_first_dot_bounds(p.drop_first());
        assert forall|j: int| 0 <= j < first_dot(p) implies p[j] != '.' by {
            if j > 0 {
                assert(p[j] == p.drop_first()[j - 1]);
            }
        }
    }
}

/// Index of the first `.`, or the length.
fn find_dot(p: &[char]) -> (r: usize)
    ensures
        r as int == first_dot(p@),
{
    let mut i: usize = 0;
    assert(p@.subrange(0, p@.len() as int) =~= p@);
    while i < p.len() && p[i] != '.'
        invariant
            i <= p.len(),
            first_dot(p@) == i + first_dot(p@.subrange(i as int, p@.len() as int)),
        decreases p.len() - i,
    {
        assert(p@.subrange(i as int, p@.len() as int).drop_first() =~= p@.subrange(i + 1, p@.len() as int));
        i = i + 1;
    }
    proof {
        assert(p@.subrange(0, p@.len() as int) =~= p@);
    }
    i
}

/// `p[a..b]`.
fn char_range(p: &[char], a: usize, b: usize) -> (r: Vec<char>)
    requires
        a <= b <= p.len(),
    ensures
        r@ == p@.subrange(a as int, b as int),
{
    let mut v: Vec<char> = Vec::new();
    let mut k = a;
    while k < b
        invariant
            a <= k <= b <= p.len(),
            v@ == p@.subrange(a as int, k as int),
        decreases b - k,
    {
        v.push(p[k]);
        k = k + 1;
        assert(v@ =~= p@.subrange(a as int, k as int));
    }
    v
}

proof fn lemma_first_exp_bounds(p: Seq<char>)
    ensures
        0 <= first_exp(p) <= p.len(),
        forall|j: int| 0 <= j < first_exp(p) ==> p[j] != 'e' && p[j] != 'E',
    decreases p.len(),
{
    if p.len() > 0 && p[0] != 'e' && p[0] != 'E' {
        lemma_first_exp_bounds(p.drop_first());
        assert forall|j: int| 0 <= j < first_exp(p) implies p[j] != 'e' && p[j] != 'E' by {
            if j > 0 {
                assert(p[j] == p.drop_first()[j - 1]);
            }
        }
    }
}

/// Index of the first `e` or `E`, or the length.
fn find_exp(p: &[char]) -> (r: usize)
    ensures
        r as int == first_exp(p@),
{
    let mut i: usize = 0;
    assert(p@.subrange(0, p@.len() as int) =~= p@);
    while i < p.len() && p[i] != 'e' && p[i] != 'E'
        invariant
            i <= p.len(),
            first_exp(p@) == i + first_exp(p@.subrange(i as int, p@.len() as int)),
        decreases p.len() - i,
    {
        assert(p@.subrange(i as int, p@.len() as int).drop_first() =~= p@.subrange(i + 1, p@.len() as int));
        i = i + 1;
    }
    i
}

/// The bound at which an exponent is held: far beyond any position in a
/// text, so that a larger one gives the same number of Hz.
pub const EXPONENT_CAP: i128 = 1_180_591_620_717_411_303_424;

/// `c` is `v` held within `EXPONENT_CAP` either way.
pub open spec fn held_exponent(v: int, c: i128) -> bool {
    if v >= EXPONENT_CAP {
        c == EXPONENT_CAP
    } else if v <= -EXPONENT_CAP {
        c == -EXPONENT_CAP
    } else {
        c == v
    }
}

/// The exponent of `x` (see `exponent_value`), held within
/// `EXPONENT_CAP` either way; none when `x` is no exponent.
fn parse_exponent(x: &[char]) -> (r: Option<i128>)
    ensures
        match exponent_value(x@) {
            None => r is None,
            Some(v) => r matches Some(c) && held_exponent(v, c),
        },
{
    let signed = x.len() > 0 && (x[0] == '+' || x[0] == '-');
    let start: usize = if signed {
        1
    } else {
        0
    };
    let d = char_range(x, start, x.len());
    assert(d@ =~= (if x@.len() > 0 && (x@[0] == '+' || x@[0] == '-') {
        x@.drop_first()
    } else {
        x@
    }));
    if d.len() == 0 || !all_digits_exec(d.as_slice()) {
        return None;
    }
    let cap: u128 = 1_180_591_620_717_411_303_424;
    let mut v: u128 = 0;
    let mut i: usize = 0;
    while i < d.len()
        invariant
            i <= d.len(),
            all_digits(d@),
            cap == EXPONENT_CAP,
            v as int == (if digits_value_chars(d@.subrange(0, i as int)) >= cap {
                cap as int
            } else {
                digits_value_chars(d@.subrange(0, i as int)) as int
            }),
        decreases d.len() - i,
    {
        let ghost pre = d@.subrange(0, i as int);
        let ghost next = d@.subrange(0, i + 1);
        assert(next.drop_last() =~= pre);
        assert(is_ascii_digit(d@[i as int]));
        let dg: u128 = ((d[i] as u32) - 48) as u128;
        assert(digits_value_chars(next) == digits_value_chars(pre) * 10 + dg);
        if v < cap {
            let nv = v * 10 + dg;
            v = if nv >= cap {
                cap
            } else {
                nv
            };
        }
        i = i + 1;
    }
    assert(d@.subrange(0, d@.len() as int) =~= d@);
    let mag = v as i128;
    if x[0] == '-' {
        Some(-mag)
    } else {
        Some(mag)
    }
}

proof fn lemma_pow10_add(a: nat, b: nat)
    ensures
        pow10(a + b) == pow10(a) * pow10(b),
    decreases a,
{
    if a > 0 {
        lemma_pow10_add((a - 1) as nat, b);
        assert((a + b - 1) as nat == ((a - 1) as nat + b));
        assert(pow10(a + b) == 10 * pow10((a - 1) as nat + b));
        assert(pow10(a) == 10 * pow10((a - 1) as nat));
        assert(10 * (pow10((a - 1) as nat) * pow10(b)) == (10 * pow10((a - 1) as nat)) * pow10(b))
            by (nonlinear_arith);
    } else {
        assert(pow10(0) == 1);
        assert(a + b == b);
    }
}

proof fn lemma_pow10_big(n: nat)
    requires
        n >= 19,
    ensures
        pow10(n) >= 10_000_000_000_000_000_000,
    decreases n,
{
    if n == 19 {
        reveal_with_fuel(pow10, 20);
        assert(pow10(0) == 1);
        assert(pow10(1) == 10);
        assert(pow10(4) == 10_000);
        assert(pow10(8) == 100_000_000);
        assert(pow10(12) == 1_000_000_000_000);
        assert(pow10(16) == 10_000_000_000_000_000);
        assert(pow10(19) == 10_000_000_000_000_000_000);
    } else {
        lemma_pow10_big((n - 1) as nat);
    }
}

/// The value of the first `k` digits when it is at most `i64::MAX`, or
/// `None` when it exceeds it.
fn prefix_value(d: &[char], k: usize) -> (r: Option<u64>)
    requires
        all_digits(d@),
        k <= d.len(),
    ensures
        match r {
            Some(v) => v as nat == digits_value_chars(d@.subrange(0, k as int)) && v <= i64::MAX,
            None => digits_value_chars(d@.subrange(0, k as int)) > i64::MAX,
        },
{
    let ghost dk = d@.subrange(0, k as int);
    assert(all_digits(dk));
    let mut v: u64 = 0;
    let mut i: usize = 0;
    while i < k
        invariant
            i <= k <= d.len(),
            dk == d@.subrange(0, k as int),
            all_digits(dk),
            v as nat == digits_value_chars(dk.subrange(0, i as int)),
            v <= i64::MAX,
        decreases k - i,
    {
        let ghost pre = dk.subrange(0, i as int);
        let ghost next = dk.subrange(0, i + 1);
        assert(next.drop_last() =~= pre);
        assert(is_ascii_digit(dk[i as int]));
        let dg: u64 = ((d[i] as u32) - 48) as u64;
        assert(digits_value_chars(next) == v * 10 + dg);
        if v > 922_337_203_685_477_580 {
            proof {
                crate::text::lemma_digits_value_prefix_le(dk, i + 1);
            }
            return None;
        }
        let nv = v * 10 + dg;
        if nv > 9_223_372_036_854_775_807 {
            proof {
                crate::text::lemma_digits_value_prefix_le(dk, i + 1);
            }
            return None;
        }
        v = nv;
        i = i + 1;
    }
    assert(dk.subrange(0, k as int) =~= dk);
    Some(v)
}

/// `rounded_at(d, q)`, saturated at `i64::MAX`.
fn rounded_capped(d: &[char], q: i128) -> (r: i64)
    requires
        all_digits(d@),
        -4 * EXPONENT_CAP <= q <= 4 * EXPONENT_CAP,
    ensures
        r as int == (if rounded_at(d@, q as int) > i64::MAX {
            i64::MAX as int
        } else {
            rounded_at(d@, q as int) as int
        }),
{
    let n = d.len();
    let k: usize = if q < 0 {
        0
    } else if q > n as i128 {
        n
    } else {
        q as usize
    };
    let up: u64 = if 0 <= q && q < n as i128 && d[q as usize] >= '5' {
        1
    } else {
        0
    };
    let ghost pad: nat = if q > n {
        (q - n) as nat
    } else {
        0
    };
    let ghost val = digits_value_chars(d@.subrange(0, k as int));
    assert(rounded_at(d@, q as int) == val * pow10(pad) + up);
    proof {
        lemma_pow10_pos(pad);
    }
    match prefix_value(d, k) {
        None => {
            assert(val * pow10(pad) >= val) by (nonlinear_arith)
                requires
                    pow10(pad) >= 1,
            ;
            i64::MAX
        },
        Some(v) => {
            let mut w: u64 = v;
            if q > n as i128 && v > 0 {
                let padx: i128 = q - n as i128;
                let mut j: i128 = 0;
                assert(pow10(0) == 1);
                assert(v * pow10(0) == v);
                while j < padx
                    invariant
                        0 <= j <= padx,
                        padx == pad,
                        val == v,
                        up == 0,
                        rounded_at(d@, q as int) == val * pow10(pad) + up,
                        w as nat == v * pow10(j as nat),
                        w <= i64::MAX,
                        w >= 1,
                    decreases padx - j,
                {
                    if w > 922_337_203_685_477_580 {
                        proof {
                            let rest = (pad - j) as nat;
                            lemma_pow10_add(j as nat, rest);
                            assert(j as nat + rest == pad);
                            assert(pow10(rest) == 10 * pow10((rest - 1) as nat));
                            lemma_pow10_pos((rest - 1) as nat);
                            assert(v * pow10(pad) == (w as nat) * pow10(rest)) by (nonlinear_arith)
                                requires
                                    w as nat == v * pow10(j as nat),
                                    pow10(pad) == pow10(j as nat) * pow10(rest),
                            ;
                            assert((w as nat) * pow10(rest) >= (w as nat) * 10) by (nonlinear_arith)
                                requires
                                    pow10(rest) == 10 * pow10((rest - 1) as nat),
                                    pow10((rest - 1) as nat) >= 1,
                            ;
                            assert(val == v);
                            assert(up == 0);
                            assert(rounded_at(d@, q as int) > i64::MAX);
                        }
                        return i64::MAX;
                    }
                    proof {
                        assert(pow10((j + 1) as nat) == 10 * pow10(j as nat));
                        assert(v * (10 * pow10(j as nat)) == (v * pow10(j as nat)) * 10) by (nonlinear_arith);
                    }
                    w = w * 10;
                    j = j + 1;
                }
                assert(w as nat == v * pow10(pad));
            } else {
                if q > n as i128 {
                    assert(v == 0);
                    assert(val * pow10(pad) == 0) by (nonlinear_arith)
                        requires
                            val == 0,
                    ;
                } else {
                    assert(pad == 0);
                    assert(pow10(0) == 1);
                    assert(val * pow10(pad) == val) by (nonlinear_arith)
                        requires
                            pow10(pad) == 1,
                    ;
                }
            }
            if w > 9_223_372_036_854_775_806 && up == 1 {
                i64::MAX
            } else {
                (w + up) as i64
            }
        },
    }
}

/// Whether some digit is not `0`.
fn any_nonzero(d: &[char]) -> (r: bool)
    requires
        all_digits(d@),
    ensures
        r == (digits_value_chars(d@) != 0),
{
    let mut nonzero = false;
    let mut j: usize = 0;
    while j < d.len()
        invariant
            j <= d.len(),
            nonzero == exists|m: int| 0 <= m < j && d@[m] != '0',
        decreases d.len() - j,
    {
        if d[j] != '0' {
            nonzero = true;
        }
        j = j + 1;
    }
    proof {
        lemma_digits_zero(d@);
        if nonzero {
            let m = choose|m: int| 0 <= m < d@.len() && d@[m] != '0';
        }
    }
    nonzero
}

/// Hz of a frequency text in MHz; see `mhz_text_to_hz`.
pub fn parse_freq_mhz(s: &str) -> (r: Option<i64>)
    ensures
        r == mhz_text_to_hz(s@),
{
    let t = chars_of(str_trim(s));
    let neg = t.len() > 0 && t[0] == '-';
    let start: usize = if t.len() > 0 && (t[0] == '+' || t[0] == '-') {
        1
    } else {
        0
    };
    let pv = char_range(t.as_slice(), start, t.len());
    let ghost p = pv@;
    assert(p =~= (if t@.len() > 0 && (t@[0] == '+' || t@[0] == '-') {
        t@.drop_first()
    } else {
        t@
    }));
    let low = lower_chars(&pv);
    let low = low.as_slice();
    if chars_eq_str(low, "inf") || chars_eq_str(low, "infinity") {
        return if neg {
            None
        } else {
            Some(i64::MAX)
        };
    }
    if chars_eq_str(low, "nan") {
        return Some(0);
    }
    match number_parts(pv.as_slice()) {
        None => None,
        Some((d, il, e)) => {
            if neg || !any_nonzero(d.as_slice()) {
                return None;
            }
            let q: i128 = il as i128 + e + 6;
            let hz = rounded_capped(d.as_slice(), q);
            proof {
                let (ip, fp, ev) = split_number(p).unwrap();
                let qt: int = ip.len() + ev + 6;
                if qt != q {
                    lemma_far_positions(d@, qt, q as int);
                }
            }
            Some(hz)
        },
    }
}

/// The digits of a number (integer digits, then fraction digits), the
/// count of integer digits and its exponent held within `EXPONENT_CAP`.
fn number_parts(p: &[char]) -> (r: Option<(Vec<char>, usize, i128)>)
    ensures
        match split_number(p@) {
            None => r is None,
            Some((ip, fp, e)) => r matches Some((d, il, c)) && d@ == ip + fp && il == ip.len()
                && all_digits(d@) && held_exponent(e, c),
        },
{
    let x = find_exp(p);
    proof {
        lemma_first_exp_bounds(p@);
    }
    let e: i128 = if x < p.len() {
        let xs = char_range(p, x + 1, p.len());
        match parse_exponent(xs.as_slice()) {
            None => {
                return None;
            },
            Some(c) => c,
        }
    } else {
        0
    };
    let m = char_range(p, 0, x);
    let m_s = m.as_slice();
    let dot = find_dot(m_s);
    proof {
        lemma_first_dot_bounds(m@);
    }
    let ipv = char_range(m_s, 0, dot);
    let fpv = if dot < m.len() {
        char_range(m_s, dot + 1, m.len())
    } else {
        Vec::new()
    };
    assert(fpv@ =~= (if dot < m@.len() {
        m@.subrange(dot + 1, m@.len() as int)
    } else {
        seq![]
    }));
    if !all_digits_exec(ipv.as_slice()) || !all_digits_exec(fpv.as_slice()) || ipv.len()
        + fpv.len() == 0 {
        return None;
    }
    let mut d = ipv.clone();
    let mut i: usize = 0;
    while i < fpv.len()
        invariant
            i <= fpv.len(),
            d@ == ipv@ + fpv@.subrange(0, i as int),
        decreases fpv.len() - i,
    {
        d.push(fpv[i]);
        i = i + 1;
        assert(d@ =~= ipv@ + fpv@.subrange(0, i as int));
    }
    assert(fpv@.subrange(0, fpv@.len() as int) =~= fpv@);
    let ghost ds = ipv@ + fpv@;
    assert(d@ == ds);
    assert(all_digits(ds)) by {
        assert forall|j: int| 0 <= j < ds.len() implies is_ascii_digit(#[trigger] ds[j]) by {
            if j < ipv@.len() {
                assert(ds[j] == ipv@[j]);
            } else {
                assert(ds[j] == fpv@[j - ipv@.len()]);
            }
        }
    }
    Some((d, ipv.len(), e))
}

/// Two decimal points both far past the end of non-zero digits give more
/// than `i64::MAX`; two both before the start give zero.
proof fn lemma_far_positions(d: Seq<char>, a: int, b: int)
    requires
        all_digits(d),
        digits_value_chars(d) > 0,
        (a > d.len() + 19 && b > d.len() + 19) || (a < 0 && b < 0),
    ensures
        (rounded_at(d, a) > i64::MAX) == (rounded_at(d, b) > i64::MAX),
        rounded_at(d, a) <= i64::MAX ==> rounded_at(d, a) == rounded_at(d, b),
{
    if a < 0 {
        assert(d.subrange(0, 0) =~= Seq::<char>::empty());
        assert(pow10(0) == 1);
    } else {
        assert(d.subrange(0, d.len() as int) =~= d);
        lemma_pow10_big((a - d.len()) as nat);
        lemma_pow10_big((b - d.len()) as nat);
        let v = digits_value_chars(d);
        assert(v * pow10((a - d.len()) as nat) >= 10_000_000_000_000_000_000) by (nonlinear_arith)
            requires
                v >= 1,
                pow10((a - d.len()) as nat) >= 10_000_000_000_000_000_000,
        ;
        assert(v * pow10((b - d.len()) as nat) >= 10_000_000_000_000_000_000) by (nonlinear_arith)
            requires
                v >= 1,
                pow10((b - d.len()) as nat) >= 10_000_000_000_000_000_000,
        ;
    }
}

/// Whether every character is an ASCII digit.
pub fn all_digits_exec(d: &[char]) -> (r: bool)
    ensures
        r == all_digits(d@),
{
    let mut i: usize = 0;
    while i < d.len()
        invariant
            i <= d.len(),
            forall|m: int| 0 <= m < i ==> is_ascii_digit(#[trigger] d@[m]),
        decreases d.len() - i,
    {
        if !('0' <= d[i] && d[i] <= '9') {
            assert(!is_ascii_digit(d@[i as int]));
            return false;
        }
        i = i + 1;
    }
    true
}

} // verus!
