//! CQ WPX prefix derivation.
//!
//! The prefix is the letter-and-digit lead-in of a callsign (W1AW gives W1,
//! VE3XYZ gives VE3, 9V1A gives 9V1). A `/` modifier reshapes it: operator
//! qualifiers (`/M`, `/MM`, `/AM`, `/P`, `/QRP`, `/QRPP`, `/BCN`) are
//! ignored, a single-digit part replaces the call-area digit (W1AW/3 gives
//! W3), and otherwise the shorter part is the operating prefix (W1AW/VE3
//! gives VE3, M0/W1AW gives M0).
use vstd::prelude::*;

use crate::text::{
    chars_eq_str, chars_of, is_ascii_alnum, is_ascii_alpha, is_ascii_digit, is_ascii_lower,
    is_ascii_upper, is_ws, lower, lower_seq, str_trim, string_from_chars, trim, trim_end, trim_start,
    upper, upper_chars, upper_seq,
};

verus! {

/// The non-empty pieces of `s` between `/` separators, continuing a piece
/// `cur` that has already been read.
pub open spec fn split_slash_from(s: Seq<char>, cur: Seq<char>) -> Seq<Seq<char>>
    decreases s.len(),
{
    if s.len() == 0 {
        if cur.len() > 0 {
            seq![cur]
        } else {
            seq![]
        }
    } else if s[0] == '/' {
        (if cur.len() > 0 {
            seq![cur]
        } else {
            seq![]
        }) + split_slash_from(s.drop_first(), seq![])
    } else {
        split_slash_from(s.drop_first(), cur.push(s[0]))
    }
}

/// `s.split('/').filter(|p| !p.is_empty())`.
pub open spec fn split_slash(s: Seq<char>) -> Seq<Seq<char>> {
    split_slash_from(s, seq![])
}

/// Operator qualifiers that say nothing about location.
pub open spec fn is_qualifier(p: Seq<char>) -> bool {
    ||| p == "M"@
    ||| p == "MM"@
    ||| p == "AM"@
    ||| p == "P"@
    ||| p == "QRP"@
    ||| p == "QRPP"@
    ||| p == "BCN"@
}

/// The parts that are not qualifiers, in order.
pub open spec fn without_qualifiers(ps: Seq<Seq<char>>) -> Seq<Seq<char>>
    decreases ps.len(),
{
    if ps.len() == 0 {
        seq![]
    } else {
        let r = without_qualifiers(ps.drop_last());
        if is_qualifier(ps.last()) {
            r
        } else {
            r.push(ps.last())
        }
    }
}

/// Index of the first shortest part (`Iterator::min_by_key`).
pub open spec fn shortest_index(ps: Seq<Seq<char>>) -> int
    decreases ps.len(),
{
    if ps.len() <= 1 {
        0
    } else {
        let j = shortest_index(ps.drop_last());
        if ps.last().len() < ps[j].len() {
            ps.len() - 1
        } else {
            j
        }
    }
}

/// Index of the last longest part (`Iterator::max_by_key`).
pub open spec fn longest_index(ps: Seq<Seq<char>>) -> int
    decreases ps.len(),
{
    if ps.len() <= 1 {
        0
    } else {
        let j = longest_index(ps.drop_last());
        if ps.last().len() >= ps[j].len() {
            ps.len() - 1
        } else {
            j
        }
    }
}

/// Number of trailing ASCII letters of `s`.
pub open spec fn trailing_letters(s: Seq<char>) -> nat
    decreases s.len(),
{
    if s.len() > 0 && is_ascii_alpha(s.last()) {
        1 + trailing_letters(s.drop_last())
    } else {
        0
    }
}

/// Number of leading ASCII letters of `s`.
pub open spec fn leading_letters(s: Seq<char>) -> nat
    decreases s.len(),
{
    if s.len() > 0 && is_ascii_alpha(s[0]) {
        1 + leading_letters(s.drop_first())
    } else {
        0
    }
}

/// Prefix of a plain call: drop the trailing letters; a call with no digit
/// at all gets `0` appended.
pub open spec fn base_wpx(call: Seq<char>) -> Option<Seq<char>> {
    if call.len() == 0 {
        None
    } else {
        let split = call.len() - trailing_letters(call);
        if split == 0 {
            Some(call.push('0'))
        } else {
            Some(call.subrange(0, split))
        }
    }
}

/// The call's leading letters followed by `digit`.
pub open spec fn override_call_digit(call: Seq<char>, digit: char) -> Option<Seq<char>> {
    let n = leading_letters(call);
    if n == 0 {
        None
    } else {
        Some(call.subrange(0, n as int).push(digit))
    }
}

/// The WPX prefix of `call`, per the rules in the module documentation.
pub open spec fn wpx(call: Seq<char>) -> Option<Seq<char>> {
    let s = upper_seq(trim(call));
    let parts = split_slash(s);
    if s.len() == 0 || parts.len() == 0 {
        None
    } else if parts.len() == 1 {
        base_wpx(parts[0])
    } else {
        let kept = without_qualifiers(parts);
        if kept.len() == 0 {
            None
        } else if kept.len() == 1 {
            base_wpx(kept[0])
        } else {
            let shortest = kept[shortest_index(kept)];
            let longest = kept[longest_index(kept)];
            if shortest.len() == 1 && is_ascii_digit(shortest[0]) {
                override_call_digit(longest, shortest[0])
            } else {
                base_wpx(shortest)
            }
        }
    }
}

proof fn lemma_split_step(s: Seq<char>, i: int, cur: Seq<char>)
    requires
        0 <= i < s.len(),
    ensures
        split_slash_from(s.subrange(i, s.len() as int), cur) == (if s[i] == '/' {
            (if cur.len() > 0 {
                seq![cur]
            } else {
                seq![]
            }) + split_slash_from(s.subrange(i + 1, s.len() as int), seq![])
        } else {
            split_slash_from(s.subrange(i + 1, s.len() as int), cur.push(s[i]))
        }),
{
    let t = s.subrange(i, s.len() as int);
    assert(t.drop_first() =~= s.subrange(i + 1, s.len() as int));
}

fn split_slash_exec(s: &Vec<char>) -> (r: Vec<Vec<char>>)
    ensures
        r@.map_values(|p: Vec<char>| p@) == split_slash(s@),
{
    let mut out: Vec<Vec<char>> = Vec::new();
    let mut cur: Vec<char> = Vec::new();
    let mut i: usize = 0;
    assert(s@.subrange(0, s@.len() as int) =~= s@);
    while i < s.len()
        invariant
            i <= s.len(),
            out@.map_values(|p: Vec<char>| p@) + split_slash_from(
                s@.subrange(i as int, s@.len() as int),
                cur@,
            ) == split_slash(s@),
        decreases s.len() - i,
    {
        proof {
            lemma_split_step(s@, i as int, cur@);
        }
        let ghost old_out = out@.map_values(|p: Vec<char>| p@);
        let ghost tail = split_slash_from(s@.subrange(i + 1, s@.len() as int), seq![]);
        if s[i] == '/' {
            if cur.len() > 0 {
                let ghost c = cur@;
                out.push(cur);
                cur = Vec::new();
                assert(out@.map_values(|p: Vec<char>| p@) =~= old_out + seq![c]);
                assert((old_out + seq![c]) + tail =~= old_out + (seq![c] + tail));
            } else {
                assert(seq![] + tail =~= tail);
            }
            assert(cur@ =~= seq![]);
        } else {
            cur.push(s[i]);
        }
        i = i + 1;
    }
    let ghost old_out = out@.map_values(|p: Vec<char>| p@);
    assert(s@.subrange(i as int, s@.len() as int).len() == 0);
    if cur.len() > 0 {
        let ghost c = cur@;
        out.push(cur);
        assert(out@.map_values(|p: Vec<char>| p@) =~= old_out + seq![c]);
    } else {
        assert(old_out + seq![] =~= old_out);
    }
    out
}

fn is_qualifier_exec(p: &Vec<char>) -> (r: bool)
    ensures
        r == is_qualifier(p@),
{
    let p = p.as_slice();
    chars_eq_str(p, "M") || chars_eq_str(p, "MM") || chars_eq_str(p, "AM") || chars_eq_str(p, "P")
        || chars_eq_str(p, "QRP") || chars_eq_str(p, "QRPP") || chars_eq_str(p, "BCN")
}

fn base_wpx_exec(call: &Vec<char>) -> (r: Option<String>)
    ensures
        match (r, base_wpx(call@)) {
            (Some(a), Some(b)) => a@ == b,
            (None, None) => true,
            _ => false,
        },
{
    if call.len() == 0 {
        return None;
    }
    let mut split: usize = call.len();
    assert(call@.subrange(0, split as int) =~= call@);
    while split > 0 && (('a' <= call[split - 1] && call[split - 1] <= 'z') || ('A' <= call[split
        - 1] && call[split - 1] <= 'Z'))
        invariant
            split <= call.len(),
            trailing_letters(call@) == (call.len() - split) + trailing_letters(
                call@.subrange(0, split as int),
            ),
        decreases split,
    {
        assert(call@.subrange(0, split as int).drop_last() =~= call@.subrange(0, split - 1));
        split = split - 1;
    }
    assert(trailing_letters(call@.subrange(0, split as int)) == 0);
    if split == 0 {
        let mut v = call.clone();
        v.push('0');
        return Some(string_from_chars(v.as_slice()));
    }
    let mut v: Vec<char> = Vec::new();
    let mut k: usize = 0;
    while k < split
        invariant
            k <= split <= call.len(),
            v@ == call@.subrange(0, k as int),
        decreases split - k,
    {
        v.push(call[k]);
        k = k + 1;
        assert(v@ =~= call@.subrange(0, k as int));
    }
    Some(string_from_chars(v.as_slice()))
}

fn override_call_digit_exec(call: &Vec<char>, digit: char) -> (r: Option<String>)
    ensures
        match (r, override_call_digit(call@, digit)) {
            (Some(a), Some(b)) => a@ == b,
            (None, None) => true,
            _ => false,
        },
{
    let mut v: Vec<char> = Vec::new();
    let mut k: usize = 0;
    assert(call@.subrange(0, call.len() as int) =~= call@);
    while k < call.len() && (('a' <= call[k] && call[k] <= 'z') || ('A' <= call[k] && call[k]
        <= 'Z'))
        invariant
            k <= call.len(),
            v@ == call@.subrange(0, k as int),
            leading_letters(call@) == k + leading_letters(call@.subrange(k as int, call.len() as int)),
        decreases call.len() - k,
    {
        assert(call@.subrange(k as int, call.len() as int).drop_first() =~= call@.subrange(
            k + 1,
            call.len() as int,
        ));
        v.push(call[k]);
        k = k + 1;
        assert(v@ =~= call@.subrange(0, k as int));
    }
    assert(leading_letters(call@.subrange(k as int, call.len() as int)) == 0);
    if k == 0 {
        return None;
    }
    v.push(digit);
    Some(string_from_chars(v.as_slice()))
}

/// The CQ WPX prefix of a callsign, or `None` where it has none.
pub fn wpx_prefix(call: &str) -> (r: Option<String>)
    ensures
        match (r, wpx(call@)) {
            (Some(a), Some(b)) => a@ == b,
            (None, None) => true,
            _ => false,
        },
{
    let s = upper_chars(&chars_of(str_trim(call)));
    if s.len() == 0 {
        return None;
    }
    let parts = split_slash_exec(&s);
    let ghost pv = parts@.map_values(|p: Vec<char>| p@);
    assert(pv.len() == parts@.len());
    if parts.len() == 0 {
        return None;
    }
    if parts.len() == 1 {
        assert(pv[0] == parts@[0]@);
        return base_wpx_exec(&parts[0]);
    }
    let mut kept: Vec<Vec<char>> = Vec::new();
    let mut i: usize = 0;
    while i < parts.len()
        invariant
            i <= parts.len(),
            pv == parts@.map_values(|p: Vec<char>| p@),
            kept@.map_values(|p: Vec<char>| p@) == without_qualifiers(pv.subrange(0, i as int)),
        decreases parts.len() - i,
    {
        let ghost old_real = kept@.map_values(|p: Vec<char>| p@);
        assert(pv.subrange(0, i + 1).drop_last() =~= pv.subrange(0, i as int));
        assert(pv[i as int] == parts@[i as int]@);
        if !is_qualifier_exec(&parts[i]) {
            kept.push(parts[i].clone());
            assert(kept@.map_values(|p: Vec<char>| p@) =~= old_real.push(pv[i as int]));
        }
        i = i + 1;
    }
    assert(pv.subrange(0, parts.len() as int) =~= pv);
    let ghost rv = kept@.map_values(|p: Vec<char>| p@);
    assert(rv.len() == kept@.len());
    if kept.len() == 0 {
        return None;
    }
    if kept.len() == 1 {
        assert(rv[0] == kept@[0]@);
        return base_wpx_exec(&kept[0]);
    }
    // First shortest and last longest part.
    let mut si: usize = 0;
    let mut li: usize = 0;
    let mut k: usize = 1;
    assert(rv.subrange(0, 1).len() == 1);
    while k < kept.len()
        invariant
            1 <= k <= kept.len(),
            rv == kept@.map_values(|p: Vec<char>| p@),
            si as int == shortest_index(rv.subrange(0, k as int)),
            li as int == longest_index(rv.subrange(0, k as int)),
            si < k,
            li < k,
        decreases kept.len() - k,
    {
        let ghost sub = rv.subrange(0, k + 1);
        assert(sub.drop_last() =~= rv.subrange(0, k as int));
        assert(sub.last() == kept@[k as int]@);
        assert(sub[si as int] == kept@[si as int]@);
        assert(sub[li as int] == kept@[li as int]@);
        if kept[k].len() < kept[si].len() {
            si = k;
        }
        if kept[k].len() >= kept[li].len() {
            li = k;
        }
        k = k + 1;
    }
    assert(rv.subrange(0, kept.len() as int) =~= rv);
    assert(rv[si as int] == kept@[si as int]@);
    assert(rv[li as int] == kept@[li as int]@);
    let shortest = &kept[si];
    if shortest.len() == 1 && '0' <= shortest[0] && shortest[0] <= '9' {
        return override_call_digit_exec(&kept[li], shortest[0]);
    }
    base_wpx_exec(shortest)
}

proof fn lemma_lower_char(c: char)
    ensures
        is_ws(lower(c)) == is_ws(c),
        upper(lower(c)) == upper(c),
{
    if is_ascii_upper(c) {
        let u = c as u32;
        assert(65 <= u <= 90);
        let l = (u + 32) as char;
        vstd::utf8::char_u32_cast(l, (u + 32) as u32);
        assert(l as u32 == u + 32);
        assert(is_ascii_lower(l));
        let back = ((l as u32) - 32) as char;
        vstd::utf8::char_u32_cast(c, u);
        assert(back == c);
    }
}

proof fn lemma_trim_start_lower(s: Seq<char>)
    ensures
        trim_start(lower_seq(s)) == lower_seq(trim_start(s)),
    decreases s.len(),
{
    if s.len() > 0 {
        lemma_lower_char(s[0]);
        assert(lower_seq(s).drop_first() =~= lower_seq(s.drop_first()));
        lemma_trim_start_lower(s.drop_first());
    }
}

proof fn lemma_trim_end_lower(s: Seq<char>)
    ensures
        trim_end(lower_seq(s)) == lower_seq(trim_end(s)),
    decreases s.len(),
{
    if s.len() > 0 {
        lemma_lower_char(s.last());
        assert(lower_seq(s).drop_last() =~= lower_seq(s.drop_last()));
        lemma_trim_end_lower(s.drop_last());
    }
}

/// Case does not matter: a callsign in lower case has the prefix of the
/// same callsign in upper case.
pub proof fn law_wpx_ignores_case(call: Seq<char>)
    ensures
        wpx(lower_seq(call)) == wpx(call),
{
    lemma_trim_start_lower(call);
    lemma_trim_end_lower(trim_start(call));
    let t = trim(call);
    assert(trim(lower_seq(call)) == lower_seq(t));
    assert forall|i: int| 0 <= i < t.len() implies upper(lower(t[i])) == upper(t[i]) by {
        lemma_lower_char(t[i]);
    }
    assert(upper_seq(lower_seq(t)) =~= upper_seq(t));
}

/// A character of a prefix: an upper-case ASCII letter or a digit.
pub open spec fn prefix_char(c: char) -> bool {
    is_ascii_upper(c) || is_ascii_digit(c)
}

/// The shape of a WPX prefix: not empty, upper-case letters and digits,
/// ending in a digit.
pub open spec fn prefix_shaped(p: Seq<char>) -> bool {
    &&& p.len() > 0
    &&& forall|i: int| 0 <= i < p.len() ==> prefix_char(#[trigger] p[i])
    &&& is_ascii_digit(p.last())
}

/// All characters of `s` are upper-case letters or digits.
pub open spec fn all_prefix_chars(s: Seq<char>) -> bool {
    forall|i: int| 0 <= i < s.len() ==> prefix_char(#[trigger] s[i])
}

proof fn lemma_split_parts(s: Seq<char>, cur: Seq<char>)
    requires
        forall|i: int| 0 <= i < s.len() ==> s[i] == '/' || prefix_char(#[trigger] s[i]),
        all_prefix_chars(cur),
    ensures
        forall|k: int|
            0 <= k < split_slash_from(s, cur).len() ==> all_prefix_chars(
                #[trigger] split_slash_from(s, cur)[k],
            ) && split_slash_from(s, cur)[k].len() > 0,
    decreases s.len(),
{
    if s.len() > 0 {
        assert(s[0] == '/' || prefix_char(s[0]));
        assert forall|i: int| 0 <= i < s.drop_first().len() implies s.drop_first()[i] == '/'
            || prefix_char(#[trigger] s.drop_first()[i]) by {
            assert(s.drop_first()[i] == s[i + 1]);
        }
        if s[0] == '/' {
            assert(all_prefix_chars(seq![]));
            lemma_split_parts(s.drop_first(), seq![]);
            let head: Seq<Seq<char>> = if cur.len() > 0 {
                seq![cur]
            } else {
                seq![]
            };
            let rest = split_slash_from(s.drop_first(), seq![]);
            assert(split_slash_from(s, cur) == head + rest);
            assert forall|k: int| 0 <= k < (head + rest).len() implies all_prefix_chars(
                #[trigger] (head + rest)[k],
            ) && (head + rest)[k].len() > 0 by {
                if k < head.len() {
                    assert((head + rest)[k] == cur);
                } else {
                    assert((head + rest)[k] == rest[k - head.len()]);
                }
            }
        } else {
            assert(all_prefix_chars(cur.push(s[0]))) by {
                assert forall|i: int| 0 <= i < cur.push(s[0]).len() implies prefix_char(
                    #[trigger] cur.push(s[0])[i],
                ) by {
                    if i < cur.len() {
                        assert(cur.push(s[0])[i] == cur[i]);
                    }
                }
            }
            lemma_split_parts(s.drop_first(), cur.push(s[0]));
            assert(split_slash_from(s, cur) == split_slash_from(s.drop_first(), cur.push(s[0])));
        }
    } else {
        if cur.len() > 0 {
            assert(split_slash_from(s, cur) == seq![cur]);
            assert(seq![cur][0] == cur);
        } else {
            assert(split_slash_from(s, cur).len() == 0);
        }
    }
}

proof fn lemma_without_qualifiers_from(ps: Seq<Seq<char>>)
    ensures
        forall|k: int|
            0 <= k < without_qualifiers(ps).len() ==> exists|j: int|
                0 <= j < ps.len() && #[trigger] without_qualifiers(ps)[k] == ps[j],
    decreases ps.len(),
{
    if ps.len() > 0 {
        lemma_without_qualifiers_from(ps.drop_last());
        let r = without_qualifiers(ps.drop_last());
        assert forall|k: int| 0 <= k < without_qualifiers(ps).len() implies exists|j: int|
            0 <= j < ps.len() && #[trigger] without_qualifiers(ps)[k] == ps[j] by {
            if k < r.len() {
                let j = choose|j: int| 0 <= j < ps.drop_last().len() && r[k] == ps.drop_last()[j];
                assert(ps.drop_last()[j] == ps[j]);
                assert(without_qualifiers(ps)[k] == r[k]);
            } else {
                assert(without_qualifiers(ps)[k] == ps[ps.len() - 1]);
            }
        }
    }
}

proof fn lemma_shortest_index(ps: Seq<Seq<char>>)
    requires
        ps.len() > 0,
    ensures
        0 <= shortest_index(ps) < ps.len(),
        0 <= longest_index(ps) < ps.len(),
    decreases ps.len(),
{
    if ps.len() > 1 {
        lemma_shortest_index(ps.drop_last());
    }
}

proof fn lemma_trailing_letters(s: Seq<char>)
    ensures
        trailing_letters(s) <= s.len(),
        trailing_letters(s) < s.len() ==> !is_ascii_alpha(s[s.len() - trailing_letters(s) - 1]),
    decreases s.len(),
{
    if s.len() > 0 && is_ascii_alpha(s.last()) {
        lemma_trailing_letters(s.drop_last());
        if trailing_letters(s) < s.len() {
            let d = s.drop_last();
            assert(s[s.len() - trailing_letters(s) - 1] == d[d.len() - trailing_letters(d) - 1]);
        }
    }
}

proof fn lemma_leading_letters(s: Seq<char>)
    ensures
        leading_letters(s) <= s.len(),
        forall|i: int| 0 <= i < leading_letters(s) ==> is_ascii_alpha(#[trigger] s[i]),
    decreases s.len(),
{
    if s.len() > 0 && is_ascii_alpha(s[0]) {
        lemma_leading_letters(s.drop_first());
        assert forall|i: int| 0 <= i < leading_letters(s) implies is_ascii_alpha(#[trigger] s[i]) by {
            if i > 0 {
                assert(s[i] == s.drop_first()[i - 1]);
            }
        }
    }
}

proof fn lemma_base_wpx_shape(p: Seq<char>)
    requires
        p.len() > 0,
        all_prefix_chars(p),
    ensures
        base_wpx(p) matches Some(x) && prefix_shaped(x),
{
    lemma_trailing_letters(p);
    let split = p.len() - trailing_letters(p);
    if split == 0 {
        let x = p.push('0');
        assert forall|i: int| 0 <= i < x.len() implies prefix_char(#[trigger] x[i]) by {
            if i < p.len() {
                assert(x[i] == p[i]);
            }
        }
    } else {
        let x = p.subrange(0, split);
        assert(prefix_char(p[split - 1]));
        assert(x.last() == p[split - 1]);
        assert forall|i: int| 0 <= i < x.len() implies prefix_char(#[trigger] x[i]) by {
            assert(x[i] == p[i]);
        }
    }
}

/// The shape of a WPX prefix: for a callsign of ASCII letters, digits and
/// `/` (surrounding whitespace aside), a prefix, when there is one, is not
/// empty, holds only upper-case letters and digits, and ends in a digit.
pub proof fn law_wpx_prefix_shape(call: Seq<char>)
    requires
        forall|i: int| 0 <= i < trim(call).len() ==> is_ascii_alnum(#[trigger] trim(call)[i]) || trim(call)[i] == '/',
    ensures
        wpx(call) matches Some(p) ==> prefix_shaped(p),
{
    let t = trim(call);
    let s = upper_seq(t);
    assert forall|i: int| 0 <= i < s.len() implies s[i] == '/' || prefix_char(#[trigger] s[i]) by {
        assert(is_ascii_alnum(t[i]) || t[i] == '/');
        if is_ascii_lower(t[i]) {
            let u = t[i] as u32;
            vstd::utf8::char_u32_cast(((u - 32) as u32) as char, (u - 32) as u32);
        }
    }
    assert(all_prefix_chars(seq![]));
    lemma_split_parts(s, seq![]);
    let parts = split_slash(s);
    if s.len() == 0 || parts.len() == 0 {
    } else if parts.len() == 1 {
        lemma_base_wpx_shape(parts[0]);
    } else {
        let kept = without_qualifiers(parts);
        lemma_without_qualifiers_from(parts);
        assert forall|k: int| 0 <= k < kept.len() implies all_prefix_chars(#[trigger] kept[k])
            && kept[k].len() > 0 by {
            let j = choose|j: int| 0 <= j < parts.len() && kept[k] == parts[j];
            assert(all_prefix_chars(parts[j]) && parts[j].len() > 0);
        }
        if kept.len() == 1 {
            lemma_base_wpx_shape(kept[0]);
        } else if kept.len() > 1 {
            lemma_shortest_index(kept);
            let shortest = kept[shortest_index(kept)];
            let longest = kept[longest_index(kept)];
            assert(all_prefix_chars(shortest) && shortest.len() > 0);
            if shortest.len() == 1 && is_ascii_digit(shortest[0]) {
                lemma_leading_letters(longest);
                let n = leading_letters(longest);
                if n > 0 {
                    let x = longest.subrange(0, n as int).push(shortest[0]);
                    assert forall|i: int| 0 <= i < x.len() implies prefix_char(#[trigger] x[i]) by {
                        if i < n {
                            assert(x[i] == longest[i]);
                            assert(all_prefix_chars(longest));
                            assert(prefix_char(longest[i]));
                        }
                    }
                }
            } else {
                lemma_base_wpx_shape(shortest);
            }
        }
    }
}

proof fn lemma_split_no_slash(a: Seq<char>, rest: Seq<char>, cur: Seq<char>)
    requires
        forall|i: int| 0 <= i < a.len() ==> #[trigger] a[i] != '/',
    ensures
        split_slash_from(a + rest, cur) == split_slash_from(rest, cur + a),
    decreases a.len(),
{
    if a.len() == 0 {
        assert(a + rest =~= rest);
        assert(cur + a =~= cur);
    } else {
        assert((a + rest)[0] == a[0]);
        assert((a + rest).drop_first() =~= a.drop_first() + rest);
        assert forall|i: int| 0 <= i < a.drop_first().len() implies #[trigger] a.drop_first()[i] != '/' by {
            assert(a.drop_first()[i] == a[i + 1]);
        }
        lemma_split_no_slash(a.drop_first(), rest, cur.push(a[0]));
        assert(cur.push(a[0]) + a.drop_first() =~= cur + a);
    }
}

proof fn lemma_trailing_all(s: Seq<char>)
    ensures
        trailing_letters(s) <= s.len(),
        forall|i: int| s.len() - trailing_letters(s) <= i < s.len() ==> is_ascii_alpha(#[trigger] s[i]),
        (forall|i: int| 0 <= i < s.len() ==> is_ascii_alpha(#[trigger] s[i])) ==> trailing_letters(s)
            == s.len(),
    decreases s.len(),
{
    if s.len() > 0 {
        let d = s.drop_last();
        lemma_trailing_all(d);
        assert forall|i: int| s.len() - trailing_letters(s) <= i < s.len() implies is_ascii_alpha(
            #[trigger] s[i],
        ) by {
            if i < s.len() - 1 {
                assert(s[i] == d[i]);
            }
        }
        if forall|i: int| 0 <= i < s.len() ==> is_ascii_alpha(#[trigger] s[i]) {
            assert(is_ascii_alpha(s[s.len() - 1]));
            assert forall|i: int| 0 <= i < d.len() implies is_ascii_alpha(#[trigger] d[i]) by {
                assert(d[i] == s[i]);
                assert(is_ascii_alpha(s[i]));
            }
        }
    }
}

/// A part of a callsign that is not a qualifier: not empty, upper-case
/// letters and digits.
pub open spec fn location_part(p: Seq<char>) -> bool {
    &&& p.len() > 0
    &&& all_prefix_chars(p)
    &&& !is_qualifier(p)
}

/// `x` is the prefix that a part `p` of letters and digits stands for:
/// `p` up to and including its last digit, or `p` followed by `0` when `p`
/// has no digit.
pub open spec fn stands_for(p: Seq<char>, x: Seq<char>) -> bool {
    &&& (forall|i: int| 0 <= i < p.len() ==> is_ascii_alpha(#[trigger] p[i])) ==> x == p.push('0')
    &&& (exists|i: int| 0 <= i < p.len() && is_ascii_digit(#[trigger] p[i])) ==> {
        &&& 0 < x.len() <= p.len()
        &&& x == p.subrange(0, x.len() as int)
        &&& is_ascii_digit(x.last())
        &&& forall|i: int| x.len() <= i < p.len() ==> is_ascii_alpha(#[trigger] p[i])
    }
}

proof fn lemma_base_stands_for(p: Seq<char>)
    requires
        p.len() > 0,
        all_prefix_chars(p),
    ensures
        base_wpx(p) matches Some(x) && stands_for(p, x),
{
    lemma_trailing_all(p);
    lemma_trailing_letters(p);
    let t = trailing_letters(p);
    if forall|i: int| 0 <= i < p.len() ==> is_ascii_alpha(#[trigger] p[i]) {
        assert(t == p.len());
    }
    if exists|i: int| 0 <= i < p.len() && is_ascii_digit(#[trigger] p[i]) {
        let j = choose|i: int| 0 <= i < p.len() && is_ascii_digit(#[trigger] p[i]);
        if t == p.len() {
            assert(is_ascii_alpha(p[j]));
        }
        let x = p.subrange(0, p.len() - t);
        assert(prefix_char(p[p.len() - t - 1]));
        assert(x.last() == p[p.len() - t - 1]);
    }
}

proof fn lemma_one_part(p: Seq<char>)
    requires
        p.len() > 0,
        all_prefix_chars(p),
    ensures
        upper_seq(trim(p)) == p,
        split_slash(p) == seq![p],
{
    assert(prefix_char(p[0]));
    assert(!is_ws(p[0]));
    assert(trim_start(p) == p);
    assert(prefix_char(p[p.len() - 1]));
    assert(!is_ws(p.last()));
    assert(trim_end(p) == p);
    assert forall|i: int| 0 <= i < p.len() implies !is_ascii_lower(#[trigger] p[i]) by {
        assert(prefix_char(p[i]));
    }
    assert(upper_seq(p) =~= p);
    assert forall|i: int| 0 <= i < p.len() implies #[trigger] p[i] != '/' by {
        assert(prefix_char(p[i]));
    }
    lemma_split_no_slash(p, seq![], seq![]);
    assert(p + Seq::<char>::empty() =~= p);
    assert(Seq::<char>::empty() + p =~= p);
    assert(split_slash_from(Seq::<char>::empty(), p) == seq![p]);
}

/// A plain call, of upper-case letters and digits with no `/`, has the
/// prefix it stands for: W1AW gives W1, 9V1A gives 9V1, ABCD gives ABCD0.
pub proof fn law_plain_call_prefix(c: Seq<char>)
    requires
        c.len() > 0,
        all_prefix_chars(c),
    ensures
        wpx(c) matches Some(x) && stands_for(c, x),
{
    lemma_one_part(c);
    assert(seq![c][0] == c);
    lemma_base_stands_for(c);
}

/// An operator qualifier after a call changes nothing: W1AW/P has the
/// prefix of W1AW.
pub proof fn law_qualifier_ignored(c: Seq<char>, q: Seq<char>)
    requires
        location_part(c),
        is_qualifier(q),
    ensures
        wpx(c + seq!['/'] + q) == wpx(c),
{
    reveal_strlit("M");
    reveal_strlit("MM");
    reveal_strlit("AM");
    reveal_strlit("P");
    reveal_strlit("QRP");
    reveal_strlit("QRPP");
    reveal_strlit("BCN");
    assert(q.len() > 0);
    assert(all_prefix_chars(q));
    lemma_two_parts(c, q);
    lemma_one_part(c);
    assert(seq![c][0] == c);
    assert(seq![c, q].drop_last() =~= seq![c]);
    assert(seq![c].drop_last() =~= Seq::<Seq<char>>::empty());
    assert(without_qualifiers(Seq::<Seq<char>>::empty()) == Seq::<Seq<char>>::empty());
    assert(seq![c].last() == c);
    assert(seq![c, q].last() == q);
    assert(without_qualifiers(seq![c]) =~= seq![c]);
    assert(without_qualifiers(seq![c, q]) =~= seq![c]);
}

/// A single digit after a call moves it to that call area: the call's
/// leading letters followed by the digit (W1AW/3 gives W3, WA6XYZ/4 gives
/// WA4); a call that does not begin with a letter gives none.
pub proof fn law_call_area_digit(c: Seq<char>, d: char)
    requires
        location_part(c),
        c.len() > 1,
        is_ascii_digit(d),
    ensures
        is_ascii_alpha(c[0]) ==> (wpx(c + seq!['/'] + seq![d]) matches Some(x) && {
            &&& 1 < x.len() <= c.len() + 1
            &&& x == c.subrange(0, x.len() - 1).push(d)
            &&& forall|i: int| 0 <= i < x.len() - 1 ==> is_ascii_alpha(#[trigger] c[i])
            &&& x.len() - 1 < c.len() ==> !is_ascii_alpha(c[x.len() - 1])
        }),
        !is_ascii_alpha(c[0]) ==> wpx(c + seq!['/'] + seq![d]) is None,
{
    let e = seq![d];
    assert(e[0] == d);
    assert(all_prefix_chars(e));
    assert(!is_qualifier(e)) by {
        reveal_strlit("M");
        reveal_strlit("MM");
        reveal_strlit("AM");
        reveal_strlit("P");
        reveal_strlit("QRP");
        reveal_strlit("QRPP");
        reveal_strlit("BCN");
        assert("M"@[0] == 'M');
        assert("P"@[0] == 'P');
    }
    lemma_two_parts(c, e);
    assert(seq![c, e].drop_last() =~= seq![c]);
    assert(seq![c].drop_last() =~= Seq::<Seq<char>>::empty());
    assert(without_qualifiers(Seq::<Seq<char>>::empty()) == Seq::<Seq<char>>::empty());
    assert(seq![c].last() == c);
    assert(seq![c, e].last() == e);
    assert(seq![c, e][0] == c);
    assert(without_qualifiers(seq![c]) =~= seq![c]);
    assert(without_qualifiers(seq![c, e]) =~= seq![c, e]);
    assert(shortest_index(seq![c]) == 0);
    assert(longest_index(seq![c]) == 0);
    assert(shortest_index(seq![c, e]) == 1);
    assert(longest_index(seq![c, e]) == 0);
    lemma_leading_letters(c);
    lemma_leading_stop(c);
    if is_ascii_alpha(c[0]) {
        let n = leading_letters(c);
        let x = c.subrange(0, n as int).push(d);
        assert(wpx(c + seq!['/'] + e) == override_call_digit(c, d));
        assert(wpx(c + seq!['/'] + e) == Some(x));
        assert(x.len() - 1 == n);
        assert(x.subrange(0, 0) =~= x.subrange(0, 0));
    }
}

proof fn lemma_leading_stop(s: Seq<char>)
    ensures
        leading_letters(s) < s.len() ==> !is_ascii_alpha(s[leading_letters(s) as int]),
        s.len() > 0 && is_ascii_alpha(s[0]) ==> leading_letters(s) > 0,
        s.len() > 0 && !is_ascii_alpha(s[0]) ==> leading_letters(s) == 0,
    decreases s.len(),
{
    if s.len() > 0 && is_ascii_alpha(s[0]) {
        lemma_leading_stop(s.drop_first());
        if leading_letters(s) < s.len() {
            assert(s[leading_letters(s) as int] == s.drop_first()[leading_letters(s.drop_first()) as int]);
        }
    }
}

/// The operating prefix wins: in a call of two parts, neither a qualifier,
/// whose shorter part `p` is not a single call-area digit, the prefix is
/// the one `p` stands for, on either side of the `/` (PA/DL1ABC gives PA0,
/// W1AW/VE3 gives VE3).
pub proof fn law_shorter_part_gives_prefix(p: Seq<char>, c: Seq<char>)
    requires
        location_part(p),
        location_part(c),
        p.len() < c.len(),
        !(p.len() == 1 && is_ascii_digit(p[0])),
    ensures
        wpx(p + seq!['/'] + c) == wpx(c + seq!['/'] + p),
        wpx(p + seq!['/'] + c) matches Some(x) && stands_for(p, x),
{
    lemma_two_parts(p, c);
    lemma_two_parts(c, p);
    assert(without_qualifiers(Seq::<Seq<char>>::empty()) == Seq::<Seq<char>>::empty());
    assert(seq![p].last() == p);
    assert(seq![c].last() == c);
    assert(seq![p, c].last() == c);
    assert(seq![c, p].last() == p);
    assert(seq![p, c][0] == p);
    assert(seq![c, p][0] == c);
    assert(shortest_index(seq![p]) == 0);
    assert(shortest_index(seq![c]) == 0);
    assert(seq![p, c].drop_last() =~= seq![p]);
    assert(seq![c, p].drop_last() =~= seq![c]);
    assert(seq![p].drop_last() =~= Seq::<Seq<char>>::empty());
    assert(seq![c].drop_last() =~= Seq::<Seq<char>>::empty());
    assert(without_qualifiers(seq![p]) =~= seq![p]);
    assert(without_qualifiers(seq![c]) =~= seq![c]);
    assert(without_qualifiers(seq![p, c]) =~= seq![p, c]);
    assert(without_qualifiers(seq![c, p]) =~= seq![c, p]);
    assert(shortest_index(seq![p, c]) == 0);
    assert(shortest_index(seq![c, p]) == 1);
    lemma_base_stands_for(p);
}

/// `p/c`, for two parts of upper-case letters and digits, reads as those two
/// parts.
proof fn lemma_two_parts(p: Seq<char>, c: Seq<char>)
    requires
        p.len() > 0,
        c.len() > 0,
        all_prefix_chars(p),
        all_prefix_chars(c),
    ensures
        upper_seq(trim(p + seq!['/'] + c)) == p + seq!['/'] + c,
        split_slash(p + seq!['/'] + c) == seq![p, c],
{
    let s = p + seq!['/'] + c;
    assert(s[0] == p[0]);
    assert(prefix_char(p[0]));
    assert(!is_ws(s[0]));
    assert(trim_start(s) == s);
    assert(s.last() == c.last());
    assert(prefix_char(c[c.len() - 1]));
    assert(!is_ws(s.last()));
    assert(trim_end(s) == s);
    assert forall|i: int| 0 <= i < s.len() implies !is_ascii_lower(#[trigger] s[i]) by {
        if i < p.len() {
            assert(s[i] == p[i]);
            assert(prefix_char(p[i]));
        } else if i > p.len() {
            assert(s[i] == c[i - p.len() - 1]);
            assert(prefix_char(c[i - p.len() - 1]));
        }
    }
    assert(upper_seq(s) =~= s);
    assert forall|i: int| 0 <= i < p.len() implies #[trigger] p[i] != '/' by {
        assert(prefix_char(p[i]));
    }
    assert forall|i: int| 0 <= i < c.len() implies #[trigger] c[i] != '/' by {
        assert(prefix_char(c[i]));
    }
    assert(s =~= p + (seq!['/'] + c));
    lemma_split_no_slash(p, seq!['/'] + c, seq![]);
    assert(Seq::<char>::empty() + p =~= p);
    let r = seq!['/'] + c;
    assert(r[0] == '/');
    assert(r.drop_first() =~= c);
    assert(split_slash_from(r, p) == seq![p] + split_slash_from(c, seq![]));
    lemma_split_no_slash(c, seq![], seq![]);
    assert(c + Seq::<char>::empty() =~= c);
    assert(Seq::<char>::empty() + c =~= c);
    assert(split_slash_from(Seq::<char>::empty(), c) == seq![c]);
    assert(seq![p] + seq![c] =~= seq![p, c]);
}

} // verus!
