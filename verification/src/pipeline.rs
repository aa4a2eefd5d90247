//! The normalization stage: enriching an event with extracted indicators
//! and parsed metadata, plus the shared processed-event counter.
//!
//! Indicator extraction scans the raw line for dotted-quad substrings the
//! way a leftmost-first regex engine does: at each position the candidate
//! is up to three digits and a dot, three times over, then up to three
//! digits; a matched candidate is consumed whole whether or not its
//! components are in range, and scanning resumes after it.
//!
//! Digits, word characters and word boundaries are ASCII throughout: a
//! non-ASCII digit is never part of a candidate, and a non-ASCII letter
//! counts as a boundary.
use crate::clock::{rfc3339_utc_of, spec_from_raw, parse_rfc3339_utc, UtcInstant};
use crate::event::{EventView, IocKind, IocMatch, IocView, LogEvent, MetadataView, ParsedMetadata};
use crate::text::chars_vec;
use std::sync::atomic::{AtomicU64, Ordering};
use std::sync::Arc;
use vstd::prelude::*;

verus! {

pub open spec fn is_digit_char(c: char) -> bool {
    '0' <= c && c <= '9'
}

pub open spec fn digit_val(c: char) -> nat
    recommends
        is_digit_char(c),
{
    ((c as u32) - 48) as nat
}

/// The length of the run of decimal digits starting at `i`.
pub open spec fn digit_run(s: Seq<char>, i: int) -> nat
    decreases s.len() - i,
{
    if 0 <= i < s.len() && is_digit_char(s[i]) {
        (1 + digit_run(s, i + 1)) as nat
    } else {
        0
    }
}

/// The value of the `n` digits of `s` starting at `i`.
pub open spec fn digits_val(s: Seq<char>, i: int, n: int) -> nat
    decreases n,
{
    if n <= 0 {
        0
    } else {
        digits_val(s, i, n - 1) * 10 + digit_val(s[i + n - 1])
    }
}

/// One dotted-quad octet of the pattern: a run of one to three digits
/// followed by a dot. Yields the position after the dot.
pub open spec fn octet_dot_end(s: Seq<char>, i: int) -> Option<int> {
    let r = digit_run(s, i);
    if 1 <= r <= 3 && i + r < s.len() && s[i + r] == '.' {
        Some(i + r + 1)
    } else {
        None
    }
}

/// The dotted-quad candidate starting at `i`: where it ends, and whether
/// all four components are in octet range. The final component takes at
/// most three digits, greedily.
pub open spec fn quad_match(s: Seq<char>, i: int) -> Option<(int, bool)> {
    match octet_dot_end(s, i) {
        None => None,
        Some(i2) => match octet_dot_end(s, i2) {
            None => None,
            Some(i3) => match octet_dot_end(s, i3) {
                None => None,
                Some(i4) => {
                    let r4 = digit_run(s, i4);
                    if r4 >= 1 {
                        let t = if r4 <= 3 {
                            r4 as int
                        } else {
                            3
                        };
                        let ok = digits_val(s, i, digit_run(s, i) as int) <= 255
                            && digits_val(s, i2, digit_run(s, i2) as int) <= 255
                            && digits_val(s, i3, digit_run(s, i3) as int) <= 255
                            && digits_val(s, i4, t) <= 255;
                        Some((i4 + t, ok))
                    } else {
                        None
                    }
                },
            },
        },
    }
}

proof fn lemma_quad_match_bounds(s: Seq<char>, i: int)
    requires
        0 <= i,
        quad_match(s, i) is Some,
    ensures
        i < quad_match(s, i).unwrap().0 <= s.len(),
{
    let r1 = digit_run(s, i);
    let i2 = i + r1 + 1;
    let r2 = digit_run(s, i2);
    let i3 = i2 + r2 + 1;
    let r3 = digit_run(s, i3);
    let i4 = i3 + r3 + 1;
    lemma_digit_run_in_bounds(s, i4);
}

proof fn lemma_digit_run_in_bounds(s: Seq<char>, i: int)
    requires
        0 <= i <= s.len(),
    ensures
        i + digit_run(s, i) <= s.len(),
    decreases s.len() - i,
{
    if i < s.len() && is_digit_char(s[i]) {
        lemma_digit_run_in_bounds(s, i + 1);
    }
}

proof fn lemma_digit_run_digits(s: Seq<char>, i: int)
    requires
        0 <= i,
    ensures
        forall|k: int| i <= k < i + digit_run(s, i) ==> is_digit_char(s[k]),
    decreases s.len() - i,
{
    if i < s.len() && is_digit_char(s[i]) {
        lemma_digit_run_digits(s, i + 1);
    }
}

/// The candidates a leftmost scan reports from position `i` on, as
/// (start, end) pairs of the ones whose components are all in range.
pub open spec fn matches_from(s: Seq<char>, i: int) -> Seq<(int, int)>
    decreases s.len() - i,
        when 0 <= i
    via matches_from_decreases
{
    if i >= s.len() {
        Seq::empty()
    } else {
        match quad_match(s, i) {
            Some((e, ok)) => {
                if ok {
                    seq![(i, e)] + matches_from(s, e)
                } else {
                    matches_from(s, e)
                }
            },
            None => matches_from(s, i + 1),
        }
    }
}

#[via_fn]
proof fn matches_from_decreases(s: Seq<char>, i: int) {
    if i < s.len() && quad_match(s, i) is Some {
        lemma_quad_match_bounds(s, i);
    }
}

/// The indicator views extraction reports from position `i` on.
pub open spec fn iocs_from(s: Seq<char>, i: int) -> Seq<IocView> {
    matches_from(s, i).map_values(|p: (int, int)| IocView { kind: IocKind::Ip, value: s.subrange(p.0, p.1) })
}

/// Every indicator extracted from line `s`, in left-to-right order.
pub open spec fn indicators_spec(s: Seq<char>) -> Seq<IocView> {
    iocs_from(s, 0)
}

/// The length of the digit run at `i`, capped only by the end of `v`.
fn digit_run_exec(v: &Vec<char>, i: usize) -> (r: usize)
    requires
        i <= v@.len(),
    ensures
        r == digit_run(v@, i as int),
        i + r <= v@.len(),
{
    let mut j = i;
    while j < v.len() && '0' <= v[j] && v[j] <= '9'
        invariant
            i <= j <= v@.len(),
            digit_run(v@, i as int) == j - i + digit_run(v@, j as int),
        decreases v@.len() - j,
    {
        j = j + 1;
    }
    j - i
}

/// The value of the `n <= 3` digits at `i`.
fn digits_val_exec(v: &Vec<char>, i: usize, n: usize) -> (r: u32)
    requires
        n <= 3,
        i + n <= v@.len(),
        forall|k: int| i <= k < i + n ==> is_digit_char(v@[k]),
    ensures
        r == digits_val(v@, i as int, n as int),
{
    let len = v.len();
    let mut r: u32 = 0;
    let mut j: usize = 0;
    while j < n
        invariant
            j <= n <= 3,
            i + n <= len == v@.len(),
            forall|k: int| i <= k < i + n ==> is_digit_char(v@[k]),
            r == digits_val(v@, i as int, j as int),
            j == 0 ==> r == 0,
            j == 1 ==> r <= 9,
            j == 2 ==> r <= 99,
            j == 3 ==> r <= 999,
        decreases n - j,
    {
        let c = v[i + j];
        assert(is_digit_char(v@[i + j]));
        let d: u32 = (c as u32) - 48;
        assert(d <= 9);
        r = r * 10 + d;
        j = j + 1;
    }
    r
}

/// The dotted-quad candidate at `i`, mirroring `quad_match`.
fn quad_match_exec(v: &Vec<char>, i: usize) -> (r: Option<(usize, bool)>)
    requires
        i <= v@.len(),
    ensures
        r is Some <==> quad_match(v@, i as int) is Some,
        r matches Some(p) ==> quad_match(v@, i as int) == Some((p.0 as int, p.1)) && i < p.0 <= v@.len(),
{
    let len = v.len();
    let r1 = digit_run_exec(v, i);
    if !(1 <= r1 && r1 <= 3 && i + r1 < len && v[i + r1] == '.') {
        return None;
    }
    let i2 = i + r1 + 1;
    let r2 = digit_run_exec(v, i2);
    if !(1 <= r2 && r2 <= 3 && i2 + r2 < len && v[i2 + r2] == '.') {
        return None;
    }
    let i3 = i2 + r2 + 1;
    let r3 = digit_run_exec(v, i3);
    if !(1 <= r3 && r3 <= 3 && i3 + r3 < len && v[i3 + r3] == '.') {
        return None;
    }
    let i4 = i3 + r3 + 1;
    let r4 = digit_run_exec(v, i4);
    if r4 == 0 {
        return None;
    }
    let t = if r4 <= 3 {
        r4
    } else {
        3
    };
    proof {
        lemma_digit_run_digits(v@, i as int);
        lemma_digit_run_digits(v@, i2 as int);
        lemma_digit_run_digits(v@, i3 as int);
        lemma_digit_run_digits(v@, i4 as int);
    }
    let ok = digits_val_exec(v, i, r1) <= 255 && digits_val_exec(v, i2, r2) <= 255
        && digits_val_exec(v, i3, r3) <= 255 && digits_val_exec(v, i4, t) <= 255;
    Some((i4 + t, ok))
}

/// Scans `line` for dotted-quad substrings and reports, in left-to-right
/// order, those whose four components all lie in 0..=255. A candidate with
/// an out-of-range component is consumed whole and reported not at all;
/// scanning resumes after it.
pub fn extract_indicators(line: &str) -> (r: Vec<IocMatch>)
    ensures
        r@.map_values(|m: IocMatch| m@) == indicators_spec(line@),
{
    let v = chars_vec(line);
    let mut out: Vec<IocMatch> = Vec::new();
    let mut i: usize = 0;
    while i < v.len()
        invariant
            i <= v@.len(),
            v@ == line@,
            indicators_spec(line@) =~= out@.map_values(|m: IocMatch| m@) + iocs_from(v@, i as int),
        decreases v@.len() - i,
    {
        match quad_match_exec(&v, i) {
            Some((e, ok)) => {
                if ok {
                    let value = line.substring_char(i, e).to_owned();
                    let m = IocMatch { kind: IocKind::Ip, value };
                    proof {
                        assert(iocs_from(v@, i as int) =~= seq![
                            IocView { kind: IocKind::Ip, value: v@.subrange(i as int, e as int) },
                        ] + iocs_from(v@, e as int));
                        assert((out@ + seq![m]).map_values(|m: IocMatch| m@) =~= out@.map_values(
                            |m: IocMatch| m@,
                        ) + seq![m@]);
                    }
                    out.push(m);
                } else {
                    proof {
                        assert(iocs_from(v@, i as int) =~= iocs_from(v@, e as int));
                    }
                }
                i = e;
            },
            None => {
                proof {
                    assert(iocs_from(v@, i as int) =~= iocs_from(v@, i + 1 as int));
                }
                i = i + 1;
            },
        }
    }
    proof {
        assert(iocs_from(v@, i as int) =~= Seq::<IocView>::empty());
        assert(out@.map_values(|m: IocMatch| m@) =~= out@.map_values(|m: IocMatch| m@) + Seq::<
            IocView,
        >::empty());
    }
    out
}

// ---------------------------------------------------------------------------
// Octet validity
// ---------------------------------------------------------------------------
/// The digits of a numeric token: everything after an optional leading
/// plus sign.
pub open spec fn u8_digits(t: Seq<char>) -> Seq<char> {
    if t.len() >= 1 && t[0] == '+' {
        t.drop_first()
    } else {
        t
    }
}

/// Whether `t` parses as a `u8` the way `str::parse::<u8>` accepts it: an
/// optional leading plus, then at least one decimal digit, with a value of
/// at most 255.
pub open spec fn u8_parse_ok(t: Seq<char>) -> bool {
    &&& u8_digits(t).len() >= 1
    &&& (forall|k: int| 0 <= k < u8_digits(t).len() ==> is_digit_char(u8_digits(t)[k]))
    &&& digits_val(u8_digits(t), 0, u8_digits(t).len() as int) <= 255
}

/// The dot-split scan of `s`: every component between dots (the current
/// one began at `start`; the scan stands at `i`) parses as a `u8`.
pub open spec fn ipv4_comps_ok(s: Seq<char>, start: int, i: int) -> bool
    decreases s.len() - i,
        when 0 <= start <= i <= s.len()
{
    if i >= s.len() {
        u8_parse_ok(s.subrange(start, i))
    } else if s[i] == '.' {
        u8_parse_ok(s.subrange(start, i)) && ipv4_comps_ok(s, i + 1, i + 1)
    } else {
        ipv4_comps_ok(s, start, i + 1)
    }
}

/// Every dot-separated component of `s` parses as a `u8`.
pub open spec fn is_valid_ipv4_spec(s: Seq<char>) -> bool {
    ipv4_comps_ok(s, 0, 0)
}

fn comp_ok_exec(v: &Vec<char>, start: usize, end: usize) -> (r: bool)
    requires
        start <= end <= v@.len(),
    ensures
        r == u8_parse_ok(v@.subrange(start as int, end as int)),
{
    let ghost t = v@.subrange(start as int, end as int);
    let ds = if end > start && v[start] == '+' {
        start + 1
    } else {
        start
    };
    proof {
        assert(t.len() == end - start);
        if end > start {
            assert(t[0] == v@[start as int]);
        }
        if end > start && v@[start as int] == '+' {
            assert(t.drop_first() =~= v@.subrange(ds as int, end as int));
        } else {
            assert(t =~= v@.subrange(ds as int, end as int));
        }
    }
    let ghost d = v@.subrange(ds as int, end as int);
    if ds == end {
        return false;
    }
    let mut val: u32 = 0;
    let mut j = ds;
    while j < end
        invariant
            start <= ds <= j <= end <= v@.len(),
            t == v@.subrange(start as int, end as int),
            d == v@.subrange(ds as int, end as int),
            d == u8_digits(t),
            forall|k: int| ds <= k < j ==> is_digit_char(v@[k]),
            val <= 256,
            val <= 255 ==> val == digits_val(d, 0, j - ds),
            val == 256 ==> digits_val(d, 0, j - ds) > 255,
        decreases end - j,
    {
        let c = v[j];
        if !('0' <= c && c <= '9') {
            proof {
                assert(d[j - ds] == v@[j as int]);
                assert(!is_digit_char(u8_digits(t)[j - ds]));
                assert(!u8_parse_ok(t));
            }
            return false;
        }
        let dv: u32 = (c as u32) - 48;
        proof {
            assert(d[j - ds] == v@[j as int]);
            assert(digits_val(d, 0, j - ds + 1) == digits_val(d, 0, j - ds) * 10 + digit_val(
                d[j - ds],
            ));
        }
        let nv = val * 10 + dv;
        val = if nv > 255 {
            256
        } else {
            nv
        };
        j = j + 1;
    }
    proof {
        assert(d.len() == end - ds);
        assert(forall|k: int| 0 <= k < d.len() ==> is_digit_char(#[trigger] d[k]));
    }
    val <= 255
}

/// Whether every dot-separated component of `ip` parses as a `u8`, the
/// validity test applied to each dotted-quad candidate.
pub fn is_valid_ipv4(ip: &str) -> (r: bool)
    ensures
        r == is_valid_ipv4_spec(ip@),
{
    let v = chars_vec(ip);
    let n = v.len();
    let mut start: usize = 0;
    let mut i: usize = 0;
    while i < n
        invariant
            start <= i <= n == v@.len(),
            v@ == ip@,
            is_valid_ipv4_spec(ip@) == ipv4_comps_ok(v@, start as int, i as int),
        decreases n - i,
    {
        if v[i] == '.' {
            if !comp_ok_exec(&v, start, i) {
                return false;
            }
            start = i + 1;
        }
        i = i + 1;
    }
    comp_ok_exec(&v, start, n)
}

// ---------------------------------------------------------------------------
// What extraction guarantees of what it reports
// ---------------------------------------------------------------------------
proof fn lemma_digits_val_sub(s: Seq<char>, a: int, b: int, p: int, n: int)
    requires
        0 <= a,
        0 <= p,
        0 <= n,
        a + p + n <= b <= s.len(),
    ensures
        digits_val(s.subrange(a, b), p, n) == digits_val(s, a + p, n),
    decreases n,
{
    if n > 0 {
        lemma_digits_val_sub(s, a, b, p, n - 1);
        assert(s.subrange(a, b)[p + n - 1] == s[a + p + n - 1]);
    }
}

proof fn lemma_scan_digits(c: Seq<char>, start: int, j: int, m: int)
    requires
        0 <= start <= j <= m <= c.len(),
        forall|k: int| j <= k < m ==> c[k] != '.',
    ensures
        ipv4_comps_ok(c, start, j) == ipv4_comps_ok(c, start, m),
    decreases m - j,
{
    if j < m {
        lemma_scan_digits(c, start, j + 1, m);
    }
}

/// A reported candidate, taken as a string of its own, passes the
/// dot-split octet test.
proof fn lemma_quad_value_valid(s: Seq<char>, i: int, e: int)
    requires
        0 <= i,
        quad_match(s, i) == Some((e, true)),
    ensures
        is_valid_ipv4_spec(s.subrange(i, e)),
{
    let r1 = digit_run(s, i) as int;
    let i2 = i + r1 + 1;
    let r2 = digit_run(s, i2) as int;
    let i3 = i2 + r2 + 1;
    let r3 = digit_run(s, i3) as int;
    let i4 = i3 + r3 + 1;
    let r4 = digit_run(s, i4) as int;
    let t4: int = if r4 <= 3 {
        r4
    } else {
        3
    };
    lemma_digit_run_digits(s, i);
    lemma_digit_run_digits(s, i2);
    lemma_digit_run_digits(s, i3);
    lemma_digit_run_digits(s, i4);
    lemma_quad_match_bounds(s, i);
    let c = s.subrange(i, e);
    let dot1 = r1;
    let dot2 = r1 + 1 + r2;
    let dot3 = r1 + 1 + r2 + 1 + r3;
    assert(c.len() == e - i);
    assert(forall|k: int| 0 <= k < c.len() ==> c[k] == s[i + k]);
    assert(c[dot1] == '.');
    assert(c[dot2] == '.');
    assert(c[dot3] == '.');
    // First component.
    assert forall|k: int| 0 <= k < dot1 implies c[k] != '.' by {
        assert(is_digit_char(s[i + k]));
    }
    lemma_scan_digits(c, 0, 0, dot1);
    assert(is_digit_char(c[0]));
    assert(c.subrange(0, dot1) =~= s.subrange(i, i + r1));
    lemma_digits_val_sub(s, i, i + r1, 0, r1);
    assert(u8_parse_ok(c.subrange(0, dot1)));
    assert(ipv4_comps_ok(c, 0, 0) == (u8_parse_ok(c.subrange(0, dot1)) && ipv4_comps_ok(
        c,
        dot1 + 1,
        dot1 + 1,
    )));
    // Second component.
    assert forall|k: int| dot1 + 1 <= k < dot2 implies c[k] != '.' by {
        assert(is_digit_char(s[i + k]));
    }
    lemma_scan_digits(c, dot1 + 1, dot1 + 1, dot2);
    assert(c.subrange(dot1 + 1, dot2) =~= s.subrange(i2, i2 + r2));
    lemma_digits_val_sub(s, i2, i2 + r2, 0, r2);
    assert(is_digit_char(c[dot1 + 1]));
    assert(u8_parse_ok(c.subrange(dot1 + 1, dot2)));
    // Third component.
    assert forall|k: int| dot2 + 1 <= k < dot3 implies c[k] != '.' by {
        assert(is_digit_char(s[i + k]));
    }
    lemma_scan_digits(c, dot2 + 1, dot2 + 1, dot3);
    assert(c.subrange(dot2 + 1, dot3) =~= s.subrange(i3, i3 + r3));
    lemma_digits_val_sub(s, i3, i3 + r3, 0, r3);
    assert(is_digit_char(c[dot2 + 1]));
    assert(u8_parse_ok(c.subrange(dot2 + 1, dot3)));
    // Fourth component, running to the end of the candidate.
    assert forall|k: int| dot3 + 1 <= k < c.len() implies c[k] != '.' by {
        assert(is_digit_char(s[i + k]));
    }
    lemma_scan_digits(c, dot3 + 1, dot3 + 1, c.len() as int);
    assert(c.subrange(dot3 + 1, c.len() as int) =~= s.subrange(i4, i4 + t4));
    lemma_digits_val_sub(s, i4, i4 + t4, 0, t4);
    assert(is_digit_char(c[dot3 + 1]));
    assert(u8_parse_ok(c.subrange(dot3 + 1, c.len() as int)));
}

proof fn lemma_matches_wf(s: Seq<char>, i: int)
    requires
        0 <= i,
    ensures
        forall|k: int| 0 <= k < matches_from(s, i).len() ==> {
            let p = #[trigger] matches_from(s, i)[k];
            i <= p.0 && p.1 <= s.len() && quad_match(s, p.0) == Some((p.1, true))
        },
        forall|k: int| 0 <= k < matches_from(s, i).len() - 1 ==> (#[trigger] matches_from(s, i)[k]).1
            <= matches_from(s, i)[k + 1].0,
    decreases s.len() - i,
{
    if i >= s.len() {
    } else {
        match quad_match(s, i) {
            Some((e, ok)) => {
                lemma_quad_match_bounds(s, i);
                lemma_matches_wf(s, e);
                if ok {
                    let rest = matches_from(s, e);
                    assert(matches_from(s, i) =~= seq![(i, e)] + rest);
                    assert forall|k: int| 0 <= k < matches_from(s, i).len() implies {
                        let p = #[trigger] matches_from(s, i)[k];
                        i <= p.0 && p.1 <= s.len() && quad_match(s, p.0) == Some((p.1, true))
                    } by {
                        if k > 0 {
                            assert(matches_from(s, i)[k] == rest[k - 1]);
                        }
                    }
                    assert forall|k: int| 0 <= k < matches_from(s, i).len() - 1 implies (
                    #[trigger] matches_from(s, i)[k]).1 <= matches_from(s, i)[k + 1].0 by {
                        if k == 0 {
                            assert(matches_from(s, i)[1] == rest[0]);
                        } else {
                            assert(matches_from(s, i)[k] == rest[k - 1]);
                            assert(matches_from(s, i)[k + 1] == rest[k]);
                        }
                    }
                }
            },
            None => {
                lemma_matches_wf(s, i + 1);
            },
        }
    }
}

/// Everything indicator extraction reports is a syntactically valid IPv4
/// address: each reported value passes the same octet test `is_valid_ipv4`
/// applies, so an out-of-range component never appears in the result.
pub proof fn lemma_extracted_indicators_are_valid(s: Seq<char>)
    ensures
        forall|k: int| 0 <= k < indicators_spec(s).len() ==> is_valid_ipv4_spec(
            (#[trigger] indicators_spec(s)[k]).value,
        ),
{
    lemma_matches_wf(s, 0);
    assert forall|k: int| 0 <= k < indicators_spec(s).len() implies is_valid_ipv4_spec(
        (#[trigger] indicators_spec(s)[k]).value,
    ) by {
        let p = matches_from(s, 0)[k];
        lemma_quad_value_valid(s, p.0, p.1);
        assert(indicators_spec(s)[k].value == s.subrange(p.0, p.1));
    }
}

/// The reported indicators stand in left-to-right order of occurrence and
/// never overlap: each one is a substring of the line, and each begins at
/// or after the end of the one before it.
pub proof fn lemma_extracted_indicators_ordered(s: Seq<char>)
    ensures
        forall|k: int| 0 <= k < matches_from(s, 0).len() ==> {
            let p = #[trigger] matches_from(s, 0)[k];
            0 <= p.0 < p.1 <= s.len() && indicators_spec(s)[k].value == s.subrange(p.0, p.1)
        },
        forall|k: int| 0 <= k < matches_from(s, 0).len() - 1 ==> (#[trigger] matches_from(s, 0)[k]).1
            <= matches_from(s, 0)[k + 1].0,
{
    lemma_matches_wf(s, 0);
    assert forall|k: int| 0 <= k < matches_from(s, 0).len() implies {
        let p = #[trigger] matches_from(s, 0)[k];
        0 <= p.0 < p.1 <= s.len() && indicators_spec(s)[k].value == s.subrange(p.0, p.1)
    } by {
        let p = matches_from(s, 0)[k];
        lemma_quad_match_bounds(s, p.0);
    }
}

// ---------------------------------------------------------------------------
// Log-level token
// ---------------------------------------------------------------------------
pub open spec fn is_word_char(c: char) -> bool {
    is_digit_char(c) || ('A' <= c && c <= 'Z') || ('a' <= c && c <= 'z') || c == '_'
}

/// ASCII upper-casing, the way a case-insensitive match compares.
pub open spec fn upcase_char(c: char) -> char {
    if 'a' <= c && c <= 'z' {
        (((c as u32) - 32) as u8) as char
    } else {
        c
    }
}

/// A word boundary before position `i`.
pub open spec fn lead_boundary(s: Seq<char>, i: int) -> bool {
    i == 0 || !is_word_char(s[i - 1])
}

/// A word boundary after position `e - 1`.
pub open spec fn tail_boundary(s: Seq<char>, e: int) -> bool {
    e >= s.len() || !is_word_char(s[e])
}

pub open spec fn token4_at(s: Seq<char>, i: int, a: char, b: char, c: char, d: char) -> bool {
    &&& i + 4 <= s.len()
    &&& upcase_char(s[i]) == a
    &&& upcase_char(s[i + 1]) == b
    &&& upcase_char(s[i + 2]) == c
    &&& upcase_char(s[i + 3]) == d
    &&& tail_boundary(s, i + 4)
}

pub open spec fn token5_at(s: Seq<char>, i: int, a: char, b: char, c: char, d: char, e: char) -> bool {
    &&& i + 5 <= s.len()
    &&& upcase_char(s[i]) == a
    &&& upcase_char(s[i + 1]) == b
    &&& upcase_char(s[i + 2]) == c
    &&& upcase_char(s[i + 3]) == d
    &&& upcase_char(s[i + 4]) == e
    &&& tail_boundary(s, i + 5)
}

/// The known level token starting at `i`, in its canonical upper-case
/// spelling, if one stands there with a trailing word boundary.
pub open spec fn level_token_at(s: Seq<char>, i: int) -> Option<Seq<char>> {
    if token4_at(s, i, 'I', 'N', 'F', 'O') {
        Some("INFO"@)
    } else if token4_at(s, i, 'W', 'A', 'R', 'N') {
        Some("WARN"@)
    } else if token5_at(s, i, 'E', 'R', 'R', 'O', 'R') {
        Some("ERROR"@)
    } else if token5_at(s, i, 'D', 'E', 'B', 'U', 'G') {
        Some("DEBUG"@)
    } else if token5_at(s, i, 'T', 'R', 'A', 'C', 'E') {
        Some("TRACE"@)
    } else {
        None
    }
}

/// An optional case-insensitive `level=` prefix at `i`.
pub open spec fn level_prefix_at(s: Seq<char>, i: int) -> bool {
    &&& i + 6 <= s.len()
    &&& upcase_char(s[i]) == 'L'
    &&& upcase_char(s[i + 1]) == 'E'
    &&& upcase_char(s[i + 2]) == 'V'
    &&& upcase_char(s[i + 3]) == 'E'
    &&& upcase_char(s[i + 4]) == 'L'
    &&& s[i + 5] == '='
}

/// The level the pattern reports for a match starting at `i`: a word
/// boundary, an optional `level=` prefix, then a known token.
pub open spec fn level_hit_at(s: Seq<char>, i: int) -> Option<Seq<char>> {
    if !lead_boundary(s, i) {
        None
    } else if level_prefix_at(s, i) && level_token_at(s, i + 6) is Some {
        level_token_at(s, i + 6)
    } else {
        level_token_at(s, i)
    }
}

pub open spec fn level_from(s: Seq<char>, i: int) -> Option<Seq<char>>
    decreases s.len() - i,
        when 0 <= i
{
    if i >= s.len() {
        None
    } else if level_hit_at(s, i) is Some {
        level_hit_at(s, i)
    } else {
        level_from(s, i + 1)
    }
}

/// The level token of a line: the leftmost match of the pattern, upper-cased.
pub open spec fn level_spec(s: Seq<char>) -> Option<Seq<char>> {
    level_from(s, 0)
}

fn is_word_exec(c: char) -> (r: bool)
    ensures
        r == is_word_char(c),
{
    ('0' <= c && c <= '9') || ('A' <= c && c <= 'Z') || ('a' <= c && c <= 'z') || c == '_'
}

/// Whether `c` matches the upper-case letter `u` case-insensitively.
fn eq_up(c: char, u: char) -> (r: bool)
    requires
        'A' <= u && u <= 'Z',
    ensures
        r == (upcase_char(c) == u),
{
    c == u || ((c as u32) == (u as u32) + 32)
}

fn tail_boundary_exec(v: &Vec<char>, e: usize) -> (r: bool)
    requires
        e <= v@.len(),
    ensures
        r == tail_boundary(v@, e as int),
{
    e == v.len() || !is_word_exec(v[e])
}

fn level_token_exec(v: &Vec<char>, i: usize) -> (r: Option<String>)
    requires
        i <= v@.len(),
    ensures
        crate::event::view_opt_string(r) == level_token_at(v@, i as int),
{
    let n = v.len();
    if n - i >= 4 && eq_up(v[i], 'I') && eq_up(v[i + 1], 'N') && eq_up(v[i + 2], 'F') && eq_up(
        v[i + 3],
        'O',
    ) && tail_boundary_exec(v, i + 4) {
        Some(String::from_str("INFO"))
    } else if n - i >= 4 && eq_up(v[i], 'W') && eq_up(v[i + 1], 'A') && eq_up(v[i + 2], 'R')
        && eq_up(v[i + 3], 'N') && tail_boundary_exec(v, i + 4) {
        Some(String::from_str("WARN"))
    } else if n - i >= 5 && eq_up(v[i], 'E') && eq_up(v[i + 1], 'R') && eq_up(v[i + 2], 'R')
        && eq_up(v[i + 3], 'O') && eq_up(v[i + 4], 'R') && tail_boundary_exec(v, i + 5) {
        Some(String::from_str("ERROR"))
    } else if n - i >= 5 && eq_up(v[i], 'D') && eq_up(v[i + 1], 'E') && eq_up(v[i + 2], 'B')
        && eq_up(v[i + 3], 'U') && eq_up(v[i + 4], 'G') && tail_boundary_exec(v, i + 5) {
        Some(String::from_str("DEBUG"))
    } else if n - i >= 5 && eq_up(v[i], 'T') && eq_up(v[i + 1], 'R') && eq_up(v[i + 2], 'A')
        && eq_up(v[i + 3], 'C') && eq_up(v[i + 4], 'E') && tail_boundary_exec(v, i + 5) {
        Some(String::from_str("TRACE"))
    } else {
        None
    }
}

fn level_hit_exec(v: &Vec<char>, i: usize) -> (r: Option<String>)
    requires
        i < v@.len(),
    ensures
        crate::event::view_opt_string(r) == level_hit_at(v@, i as int),
{
    let n = v.len();
    if !(i == 0 || !is_word_exec(v[i - 1])) {
        return None;
    }
    if n - i >= 6 && eq_up(v[i], 'L') && eq_up(v[i + 1], 'E') && eq_up(v[i + 2], 'V') && eq_up(
        v[i + 3],
        'E',
    ) && eq_up(v[i + 4], 'L') && v[i + 5] == '=' {
        let t = level_token_exec(v, i + 6);
        if t.is_some() {
            return t;
        }
    }
    level_token_exec(v, i)
}

fn find_level(v: &Vec<char>) -> (r: Option<String>)
    ensures
        crate::event::view_opt_string(r) == level_spec(v@),
{
    let mut i: usize = 0;
    while i < v.len()
        invariant
            i <= v@.len(),
            level_from(v@, 0) == level_from(v@, i as int),
        decreases v@.len() - i,
    {
        let hit = level_hit_exec(v, i);
        if hit.is_some() {
            return hit;
        }
        i = i + 1;
    }
    None
}

// ---------------------------------------------------------------------------
// Application name
// ---------------------------------------------------------------------------
/// The characters an application-name token may contain.
pub open spec fn is_app_char(c: char) -> bool {
    is_word_char(c) || c == '.' || c == '/' || c == '-'
}

/// The length of the run of application-name characters starting at `i`.
pub open spec fn app_run(s: Seq<char>, i: int) -> nat
    decreases s.len() - i,
{
    if 0 <= i < s.len() && is_app_char(s[i]) {
        (1 + app_run(s, i + 1)) as nat
    } else {
        0
    }
}

/// An application-name match starting at `i`: a non-empty token, an
/// optional bracketed digit suffix, then a colon. Yields the end of the
/// bare token.
pub open spec fn app_hit_at(s: Seq<char>, i: int) -> Option<int> {
    let r = app_run(s, i);
    if r >= 1 {
        let q = i + r;
        if q < s.len() && s[q] == ':' {
            Some(q)
        } else if q < s.len() && s[q] == '[' {
            let d = digit_run(s, q + 1);
            if d >= 1 && q + 1 + d < s.len() && s[q + 1 + d] == ']' && q + 2 + d < s.len() && s[q
                + 2 + d] == ':' {
                Some(q)
            } else {
                None
            }
        } else {
            None
        }
    } else {
        None
    }
}

pub open spec fn app_from(s: Seq<char>, i: int) -> Option<(int, int)>
    decreases s.len() - i,
        when 0 <= i
{
    if i >= s.len() {
        None
    } else {
        match app_hit_at(s, i) {
            Some(q) => Some((i, q)),
            None => app_from(s, i + 1),
        }
    }
}

/// The application name of a line: the token of the leftmost match.
pub open spec fn app_name_spec(s: Seq<char>) -> Option<Seq<char>> {
    match app_from(s, 0) {
        Some(p) => Some(s.subrange(p.0, p.1)),
        None => None,
    }
}

fn app_run_exec(v: &Vec<char>, i: usize) -> (r: usize)
    requires
        i <= v@.len(),
    ensures
        r == app_run(v@, i as int),
        i + r <= v@.len(),
{
    let mut j = i;
    while j < v.len() && (('0' <= v[j] && v[j] <= '9') || ('A' <= v[j] && v[j] <= 'Z') || ('a'
        <= v[j] && v[j] <= 'z') || v[j] == '_' || v[j] == '.' || v[j] == '/' || v[j] == '-')
        invariant
            i <= j <= v@.len(),
            app_run(v@, i as int) == j - i + app_run(v@, j as int),
        decreases v@.len() - j,
    {
        j = j + 1;
    }
    j - i
}

fn app_hit_exec(v: &Vec<char>, i: usize) -> (r: Option<usize>)
    requires
        i <= v@.len(),
    ensures
        r is Some <==> app_hit_at(v@, i as int) is Some,
        r matches Some(q) ==> app_hit_at(v@, i as int) == Some(q as int) && i < q <= v@.len(),
{
    let n = v.len();
    let r = app_run_exec(v, i);
    if r == 0 {
        return None;
    }
    let q = i + r;
    if q < n && v[q] == ':' {
        return Some(q);
    }
    if q < n && v[q] == '[' {
        let d = digit_run_exec(v, q + 1);
        let e1 = q + 1 + d;
        if d >= 1 && e1 < n && v[e1] == ']' && e1 + 1 < n && v[e1 + 1] == ':' {
            return Some(q);
        }
        return None;
    }
    None
}

fn find_app(v: &Vec<char>) -> (r: Option<(usize, usize)>)
    ensures
        r is Some <==> app_from(v@, 0) is Some,
        r matches Some(p) ==> app_from(v@, 0) == Some((p.0 as int, p.1 as int)) && p.0 < p.1 <= v@.len(),
{
    let mut i: usize = 0;
    while i < v.len()
        invariant
            i <= v@.len(),
            app_from(v@, 0) == app_from(v@, i as int),
        decreases v@.len() - i,
    {
        match app_hit_exec(v, i) {
            Some(q) => {
                return Some((i, q));
            },
            None => {},
        }
        i = i + 1;
    }
    None
}

// ---------------------------------------------------------------------------
// Embedded RFC 3339 timestamp
// ---------------------------------------------------------------------------
pub open spec fn d2_at(s: Seq<char>, j: int) -> bool {
    is_digit_char(s[j]) && is_digit_char(s[j + 1])
}

/// The fixed date-and-time head of an embedded timestamp.
pub open spec fn ts_head_at(s: Seq<char>, i: int) -> bool {
    &&& i + 19 <= s.len()
    &&& is_digit_char(s[i]) && is_digit_char(s[i + 1]) && is_digit_char(s[i + 2]) && is_digit_char(
        s[i + 3],
    )
    &&& s[i + 4] == '-' && d2_at(s, i + 5)
    &&& s[i + 7] == '-' && d2_at(s, i + 8)
    &&& s[i + 10] == 'T' && d2_at(s, i + 11)
    &&& s[i + 13] == ':' && d2_at(s, i + 14)
    &&& s[i + 16] == ':' && d2_at(s, i + 17)
}

/// The end of the timestamp-shaped substring starting at `i`: head, an
/// optional fraction, then `Z` or a numeric offset.
pub open spec fn ts_end_at(s: Seq<char>, i: int) -> Option<int> {
    if !ts_head_at(s, i) {
        None
    } else {
        let j = i + 19;
        let f = if j < s.len() && s[j] == '.' && digit_run(s, j + 1) >= 1 {
            j + 1 + digit_run(s, j + 1)
        } else {
            j
        };
        if f < s.len() && s[f] == 'Z' {
            Some(f + 1)
        } else if f + 6 <= s.len() && (s[f] == '+' || s[f] == '-') && d2_at(s, f + 1) && s[f + 3]
            == ':' && d2_at(s, f + 4) {
            Some(f + 6)
        } else {
            None
        }
    }
}

pub open spec fn ts_from(s: Seq<char>, i: int) -> Option<(int, int)>
    decreases s.len() - i,
        when 0 <= i
{
    if i >= s.len() {
        None
    } else {
        match ts_end_at(s, i) {
            Some(e) => Some((i, e)),
            None => ts_from(s, i + 1),
        }
    }
}

/// The leftmost timestamp-shaped substring of a line.
pub open spec fn ts_candidate_spec(s: Seq<char>) -> Option<Seq<char>> {
    match ts_from(s, 0) {
        Some(p) => Some(s.subrange(p.0, p.1)),
        None => None,
    }
}

/// The observed timestamp of a line: the leftmost timestamp-shaped
/// substring, as `chrono` reads it in UTC, fitted into the model; `None`
/// where no candidate stands or the candidate does not parse.
pub open spec fn observed_ts_spec(s: Seq<char>) -> Option<UtcInstant> {
    match ts_candidate_spec(s) {
        None => None,
        Some(c) => match rfc3339_utc_of(c) {
            None => None,
            Some(p) => Some(spec_from_raw(p.0 as int, p.1, p.2, p.3, p.4, p.5, p.6)),
        },
    }
}

fn is_digit_exec(c: char) -> (r: bool)
    ensures
        r == is_digit_char(c),
{
    '0' <= c && c <= '9'
}

fn ts_end_exec(v: &Vec<char>, i: usize) -> (r: Option<usize>)
    requires
        i < v@.len(),
    ensures
        r is Some <==> ts_end_at(v@, i as int) is Some,
        r matches Some(e) ==> ts_end_at(v@, i as int) == Some(e as int) && i < e <= v@.len(),
{
    let n = v.len();
    let head = n - i >= 19 && is_digit_exec(v[i]) && is_digit_exec(v[i + 1]) && is_digit_exec(
        v[i + 2],
    ) && is_digit_exec(v[i + 3]) && v[i + 4] == '-' && is_digit_exec(v[i + 5]) && is_digit_exec(
        v[i + 6],
    ) && v[i + 7] == '-' && is_digit_exec(v[i + 8]) && is_digit_exec(v[i + 9]) && v[i + 10] == 'T'
        && is_digit_exec(v[i + 11]) && is_digit_exec(v[i + 12]) && v[i + 13] == ':'
        && is_digit_exec(v[i + 14]) && is_digit_exec(v[i + 15]) && v[i + 16] == ':'
        && is_digit_exec(v[i + 17]) && is_digit_exec(v[i + 18]);
    if !head {
        return None;
    }
    let j = i + 19;
    let f = if j < n && v[j] == '.' && digit_run_exec(v, j + 1) >= 1 {
        j + 1 + digit_run_exec(v, j + 1)
    } else {
        j
    };
    if f < n && v[f] == 'Z' {
        return Some(f + 1);
    }
    if n - f >= 6 && (v[f] == '+' || v[f] == '-') && is_digit_exec(v[f + 1]) && is_digit_exec(
        v[f + 2],
    ) && v[f + 3] == ':' && is_digit_exec(v[f + 4]) && is_digit_exec(v[f + 5]) {
        return Some(f + 6);
    }
    None
}

fn find_ts(v: &Vec<char>) -> (r: Option<(usize, usize)>)
    ensures
        r is Some <==> ts_from(v@, 0) is Some,
        r matches Some(p) ==> ts_from(v@, 0) == Some((p.0 as int, p.1 as int)) && p.0 < p.1 <= v@.len(),
{
    let mut i: usize = 0;
    while i < v.len()
        invariant
            i <= v@.len(),
            ts_from(v@, 0) == ts_from(v@, i as int),
        decreases v@.len() - i,
    {
        match ts_end_exec(v, i) {
            Some(e) => {
                return Some((i, e));
            },
            None => {},
        }
        i = i + 1;
    }
    None
}

// ---------------------------------------------------------------------------
// Metadata and normalization
// ---------------------------------------------------------------------------
/// Everything metadata parsing reports for a line.
pub open spec fn metadata_spec(s: Seq<char>) -> MetadataView {
    MetadataView {
        level: level_spec(s),
        app_name: app_name_spec(s),
        observed_ts: observed_ts_spec(s),
    }
}

/// Parses the optional level, application name and embedded timestamp out
/// of a raw line. A pure function of the line.
pub fn parse_metadata(line: &str) -> (r: ParsedMetadata)
    ensures
        r@ == metadata_spec(line@),
{
    let v = chars_vec(line);
    let level = find_level(&v);
    let app_name = match find_app(&v) {
        Some((a, b)) => Some(line.substring_char(a, b).to_owned()),
        None => None,
    };
    let observed_ts = match find_ts(&v) {
        Some((a, b)) => {
            let cand = line.substring_char(a, b);
            match parse_rfc3339_utc(cand) {
                Some(p) => Some(UtcInstant::from_raw(p.0, p.1, p.2, p.3, p.4, p.5, p.6)),
                None => None,
            }
        },
        None => None,
    };
    let r = ParsedMetadata { level, app_name, observed_ts };
    proof {
        assert(r@ == metadata_spec(line@));
    }
    r
}

/// What an event looks like after the normalization stage has enriched it:
/// indicators and metadata are recomputed from the raw line, everything
/// else is untouched.
pub open spec fn normalized_view(e: EventView) -> EventView {
    EventView {
        source: e.source,
        line: e.line,
        ingested_at: e.ingested_at,
        indicators: indicators_spec(e.line),
        metadata: metadata_spec(e.line),
    }
}

/// Enriches one event in place. Enrichment is a pure function of the raw
/// line, so it is reproducible independent of threading.
pub fn normalize(event: &mut LogEvent)
    ensures
        final(event)@ == normalized_view(old(event)@),
{
    let indicators = extract_indicators(event.line.as_str());
    let metadata = parse_metadata(event.line.as_str());
    event.indicators = indicators;
    event.metadata = metadata;
}

/// Normalization is idempotent: enriching an already enriched event
/// changes nothing, because enrichment depends only on the raw line and
/// leaves the raw line alone.
pub proof fn lemma_normalize_idempotent(e: EventView)
    ensures
        normalized_view(normalized_view(e)) == normalized_view(e),
{
}

// ---------------------------------------------------------------------------
// Shared processed-event counter
// ---------------------------------------------------------------------------
/// The count of events forwarded past the normalization stage. A relaxed,
/// increment-only counter shared across tasks; observability only, so no
/// ordering with other state is claimed.
#[derive(Clone)]
pub struct PipelineStats {
    inner: Arc<AtomicU64>,
}

impl Default for PipelineStats {
    fn default() -> PipelineStats {
        PipelineStats { inner: Arc::new(AtomicU64::new(0)) }
    }
}

impl PipelineStats {
    /// Counts one more processed event (wrapping, relaxed).
    pub fn inc(&self) {
        self.inner.fetch_add(1, Ordering::Relaxed);
    }

    /// The count so far, as last observed.
    pub fn processed(&self) -> u64 {
        self.inner.load(Ordering::Relaxed)
    }
}

} // verus!
