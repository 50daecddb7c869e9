//! General laws of the grammar, stated over the model `spec_parse` and
//! proved once and for all.

use vstd::arithmetic::div_mod::lemma_mod_division_less_than_divisor;
use vstd::prelude::*;

use crate::convert::{lit_too_big, span_nanos};
use crate::duration::{Duration, NANOS_PER_SEC};
use crate::parse::{
    scan_span, scan_spans, sep_end, spec_parse, trim_end_idx, trim_start_idx, SpanErrorKind,
    SpecOutcome,
};
use crate::resolve::{match_at, resolve_unit};
use crate::scan::{is_digit, is_sep_space, is_trim_space, scan_int, scan_number, ws_end};
use crate::units::Unit;

verus! {

/// Appending text cannot change an integer-digit scan that stops before the
/// end of the first text, or stops at its end with a non-digit following.
pub proof fn lemma_scan_int_extend(s: Seq<char>, t: Seq<char>, i: int, d: nat, k: int)
    requires
        0 <= i <= s.len(),
        ({
            let (d1, k1, j1) = scan_int(s, i, d, k);
            j1 < s.len() || t.len() == 0 || !is_digit(t[0])
        }),
    ensures
        scan_int(s + t, i, d, k) == scan_int(s, i, d, k),
    decreases s.len() - i,
{
    if i < s.len() && is_digit(s[i]) {
        assert((s + t)[i] == s[i]);
        if d < crate::scan::MANT_LIMIT {
            lemma_scan_int_extend(s, t, i + 1, d * 10 + crate::scan::digit_val(s[i]), k);
        } else {
            lemma_scan_int_extend(s, t, i + 1, d, k + 1);
        }
    } else if i < s.len() {
        assert((s + t)[i] == s[i]);
    } else {
        if t.len() > 0 {
            assert((s + t)[i] == t[0]);
        }
    }
}

/// A digit-only text is consumed whole by the integer-digit scan.
pub proof fn lemma_scan_int_all_digits(s: Seq<char>, i: int, d: nat, k: int)
    requires
        0 <= i <= s.len(),
        forall|x: int| i <= x < s.len() ==> is_digit(#[trigger] s[x]),
    ensures
        scan_int(s, i, d, k).2 == s.len(),
    decreases s.len() - i,
{
    if i < s.len() {
        if d < crate::scan::MANT_LIMIT {
            lemma_scan_int_all_digits(s, i + 1, d * 10 + crate::scan::digit_val(s[i]), k);
        } else {
            lemma_scan_int_all_digits(s, i + 1, d, k + 1);
        }
    }
}

/// Unit coverage: for any nonempty digit string `d` and every accepted
/// suffix `sfx` of the table, with its unit `u`, parsing `d + sfx` and
/// `d + " " + sfx` (space-separated) succeed with the same duration: the
/// literal's value times the unit's factor, normalized into whole seconds
/// and nanoseconds by `span_nanos`.
pub proof fn lemma_unit_coverage(d: Seq<char>, sfx: Seq<char>, u: Unit)
    requires
        d.len() >= 1,
        forall|x: int| 0 <= x < d.len() ==> is_digit(#[trigger] d[x]),
        crate::table::is_table_entry(sfx, u),
        ({
            let (dv, kv, jv) = scan_int(d, 0, 0, 0);
            !lit_too_big(dv, kv) && span_nanos(dv, kv, u) / (NANOS_PER_SEC as nat) <= u64::MAX
        }),
    ensures
        ({
            let (dv, kv, jv) = scan_int(d, 0, 0, 0);
            let nn = span_nanos(dv, kv, u);
            let dur = Duration {
                secs: (nn / (NANOS_PER_SEC as nat)) as u64,
                nanos: (nn % (NANOS_PER_SEC as nat)) as u32,
            };
            spec_parse(d + sfx) == SpecOutcome::Success(dur) && spec_parse(d + seq![' '] + sfx)
                == SpecOutcome::Success(dur)
        }),
{
    let (dv, kv, jv) = scan_int(d, 0, 0, 0);
    let nn = span_nanos(dv, kv, u);
    let dur = Duration {
        secs: (nn / (NANOS_PER_SEC as nat)) as u64,
        nanos: (nn % (NANOS_PER_SEC as nat)) as u32,
    };
    let zero = Duration { secs: 0, nanos: 0 };
    lemma_scan_int_all_digits(d, 0, 0, 0);
    lemma_mod_division_less_than_divisor(nn as int, NANOS_PER_SEC as int);
    assert(zero.spec_add(dur) == Some(dur));
    reveal_strlit("and");
    assert("and"@.len() == 3);
    crate::table::lemma_table_suffix_shape(sfx, u);
    let txt = d + sfx;
    assert(txt.subrange(d.len() as int, txt.len() as int) =~= sfx);
    crate::table::lemma_resolve_table_tail(txt, d.len() as int, sfx, u);
    lemma_unit_coverage_one(d, sfx, sfx, u, dur);
    let txt_sp = d + (seq![' '] + sfx);
    assert(d + seq![' '] + sfx =~= txt_sp);
    assert(txt_sp.subrange(d.len() + 1 as int, txt_sp.len() as int) =~= sfx);
    crate::table::lemma_resolve_table_tail(txt_sp, d.len() + 1 as int, sfx, u);
    lemma_unit_coverage_one(d, seq![' '] + sfx, sfx, u, dur);
}

/// One direction of `lemma_unit_coverage`: the text after the digits is
/// `mid`, which is the suffix, possibly with one leading blank.
proof fn lemma_unit_coverage_one(d: Seq<char>, mid: Seq<char>, sfx: Seq<char>, u: Unit, dur: Duration)
    requires
        d.len() >= 1,
        forall|x: int| 0 <= x < d.len() ==> is_digit(#[trigger] d[x]),
        sfx.len() >= 1,
        !is_digit(sfx[0]),
        sfx[0] != '.',
        sfx[0] != 'e',
        sfx[0] != 'E',
        !is_sep_space(sfx[0]),
        !is_trim_space(sfx[sfx.len() - 1]),
        mid == sfx || mid == seq![' '] + sfx,
        resolve_unit(d + mid, (d + mid).len() - sfx.len()) == Some(
            (u, (d + mid).len() as int),
        ),
        ({
            let (dv, kv, jv) = scan_int(d, 0, 0, 0);
            let nn = span_nanos(dv, kv, u);
            jv == d.len() && !lit_too_big(dv, kv) && nn / (NANOS_PER_SEC as nat) <= u64::MAX && dur
                == Duration {
                secs: (nn / (NANOS_PER_SEC as nat)) as u64,
                nanos: (nn % (NANOS_PER_SEC as nat)) as u32,
            } && dur.wf()
        }),
        "and"@.len() == 3,
    ensures
        spec_parse(d + mid) == SpecOutcome::Success(dur),
{
    let txt = d + mid;
    let (dv, kv, jv) = scan_int(d, 0, 0, 0);
    let dlen = d.len() as int;
    let tlen = txt.len() as int;
    assert(txt[0] == d[0]);
    assert(!is_trim_space(txt[0]));
    assert(trim_start_idx(txt, 0) == 0);
    assert(txt[tlen - 1] == sfx[sfx.len() - 1]);
    assert(trim_end_idx(txt, tlen) == tlen);
    // the numeric literal is exactly the digits of `d`
    assert(mid.len() > 0 && !is_digit(mid[0]));
    lemma_scan_int_extend(d, mid, 0, 0, 0);
    assert(scan_int(txt, 0, 0, 0) == (dv, kv, dlen));
    assert(txt[dlen] == mid[0]);
    assert(mid[0] != '.' && mid[0] != 'e' && mid[0] != 'E');
    assert(scan_number(txt, 0) == Some((dv, kv, dlen)));
    // blanks between literal and suffix
    let p = tlen - sfx.len();
    if mid == sfx {
        assert(!is_sep_space(txt[dlen]));
        assert(ws_end(txt, dlen) == dlen);
        assert(p == dlen);
    } else {
        assert(txt[dlen] == ' ');
        assert(txt[dlen + 1] == sfx[0]);
        assert(ws_end(txt, dlen + 1) == dlen + 1);
        assert(ws_end(txt, dlen) == dlen + 1);
        assert(p == dlen + 1);
    }
    // the resolver takes the whole remaining text as the unit suffix
    assert(resolve_unit(txt, p) == Some((u, tlen)));
    // no separator can follow the end of the input
    assert(ws_end(txt, tlen) == tlen);
    assert(!match_at(txt, tlen, "and"@));
    assert(sep_end(txt, tlen) == tlen);
    assert(scan_span(txt, 0) == Ok::<(Duration, int), (SpanErrorKind, int)>((dur, tlen)));
    // the fold: one span, then clean exhaustion
    let zero = Duration { secs: 0, nanos: 0 };
    assert(zero.spec_add(dur) == Some(dur));
    assert(scan_int(txt, tlen, 0, 0) == (0nat, 0int, tlen));
    assert(scan_number(txt, tlen) is None);
    assert(scan_span(txt, tlen) == Err::<(Duration, int), (SpanErrorKind, int)>(
        (SpanErrorKind::NumericLiteral, tlen),
    ));
    assert(trim_start_idx(txt, tlen) == tlen);
    assert(scan_spans(txt, tlen, dur, 1) == SpecOutcome::Success(dur));
    assert(scan_spans(txt, 0, zero, 0) == SpecOutcome::Success(dur));
    assert(tlen - 0 >= 2);
    assert(spec_parse(txt) == SpecOutcome::Success(dur));
}

/// Scanning digits after a prefix sees exactly what scanning the tail
/// alone sees, at shifted positions.
pub proof fn lemma_scan_int_shift(u: Seq<char>, v: Seq<char>, i: int, d: nat, k: int)
    requires
        0 <= i <= v.len(),
    ensures
        ({
            let (d2, k2, j2) = scan_int(v, i, d, k);
            scan_int(u + v, u.len() + i, d, k) == (d2, k2, u.len() + j2)
        }),
    decreases v.len() - i,
{
    if i < v.len() && is_digit(v[i]) {
        assert((u + v)[u.len() + i] == v[i]);
        if d < crate::scan::MANT_LIMIT {
            lemma_scan_int_shift(u, v, i + 1, d * 10 + crate::scan::digit_val(v[i]), k);
        } else {
            lemma_scan_int_shift(u, v, i + 1, d, k + 1);
        }
    } else if i < v.len() {
        assert((u + v)[u.len() + i] == v[i]);
    }
}

/// A run of separator blanks is skipped whole, up to `j`, where either the
/// text ends or a non-blank stands.
pub proof fn lemma_ws_end_run(s: Seq<char>, i: int, j: int)
    requires
        0 <= i <= j <= s.len(),
        forall|x: int| i <= x < j ==> is_sep_space(#[trigger] s[x]),
        j == s.len() || !is_sep_space(s[j]),
    ensures
        ws_end(s, i) == j,
    decreases j - i,
{
    if i < j {
        lemma_ws_end_run(s, i + 1, j);
    }
}

/// A span separator: blanks, with the word `and` between them when
/// `has_and` is set.
pub open spec fn sep_of(w1: Seq<char>, has_and: bool, w2: Seq<char>) -> Seq<char> {
    w1 + (if has_and {
        seq!['a', 'n', 'd']
    } else {
        Seq::<char>::empty()
    }) + w2
}

/// Additive composition: two spans joined by a separator parse to the sum
/// of their separately parsed durations.  For any nonempty digit strings
/// `d1`, `d2`, any accepted suffixes `sfx1`, `sfx2` of the table, and any
/// separator the grammar supports -- one or more blanks, or the word `and`
/// with arbitrary blanks on either side, including none -- whenever each
/// span is in range and the sum fits, the parse of
/// `d1+sfx1 ++ sep ++ d2+sfx2` succeeds with exactly the duration sum of
/// the parses of `d1+sfx1` and `d2+sfx2`.
#[verifier::rlimit(100)]
pub proof fn lemma_additive_composition(
    d1: Seq<char>,
    sfx1: Seq<char>,
    u1: Unit,
    w1: Seq<char>,
    has_and: bool,
    w2: Seq<char>,
    d2: Seq<char>,
    sfx2: Seq<char>,
    u2: Unit,
)
    requires
        d1.len() >= 1,
        forall|x: int| 0 <= x < d1.len() ==> is_digit(#[trigger] d1[x]),
        crate::table::is_table_entry(sfx1, u1),
        forall|x: int| 0 <= x < w1.len() ==> is_sep_space(#[trigger] w1[x]),
        forall|x: int| 0 <= x < w2.len() ==> is_sep_space(#[trigger] w2[x]),
        has_and || w1.len() + w2.len() >= 1,
        d2.len() >= 1,
        forall|x: int| 0 <= x < d2.len() ==> is_digit(#[trigger] d2[x]),
        crate::table::is_table_entry(sfx2, u2),
        ({
            let (dv1, kv1, jv1) = scan_int(d1, 0, 0, 0);
            let (dv2, kv2, jv2) = scan_int(d2, 0, 0, 0);
            let nn1 = span_nanos(dv1, kv1, u1);
            let nn2 = span_nanos(dv2, kv2, u2);
            let dur1 = Duration {
                secs: (nn1 / (NANOS_PER_SEC as nat)) as u64,
                nanos: (nn1 % (NANOS_PER_SEC as nat)) as u32,
            };
            let dur2 = Duration {
                secs: (nn2 / (NANOS_PER_SEC as nat)) as u64,
                nanos: (nn2 % (NANOS_PER_SEC as nat)) as u32,
            };
            !lit_too_big(dv1, kv1) && nn1 / (NANOS_PER_SEC as nat) <= u64::MAX && !lit_too_big(
                dv2,
                kv2,
            ) && nn2 / (NANOS_PER_SEC as nat) <= u64::MAX && dur1.spec_add(dur2) is Some
        }),
    ensures
        ({
            let (dv1, kv1, jv1) = scan_int(d1, 0, 0, 0);
            let (dv2, kv2, jv2) = scan_int(d2, 0, 0, 0);
            let nn1 = span_nanos(dv1, kv1, u1);
            let nn2 = span_nanos(dv2, kv2, u2);
            let dur1 = Duration {
                secs: (nn1 / (NANOS_PER_SEC as nat)) as u64,
                nanos: (nn1 % (NANOS_PER_SEC as nat)) as u32,
            };
            let dur2 = Duration {
                secs: (nn2 / (NANOS_PER_SEC as nat)) as u64,
                nanos: (nn2 % (NANOS_PER_SEC as nat)) as u32,
            };
            spec_parse(d1 + sfx1) == SpecOutcome::Success(dur1) && spec_parse(d2 + sfx2)
                == SpecOutcome::Success(dur2) && spec_parse(
                d1 + sfx1 + sep_of(w1, has_and, w2) + d2 + sfx2,
            ) == SpecOutcome::Success(dur1.spec_add(dur2).unwrap())
        }),
{
    lemma_unit_coverage(d1, sfx1, u1);
    lemma_unit_coverage(d2, sfx2, u2);
    lemma_resolve_for_concat(d1, sfx1, u1, w1, has_and, w2, d2, sfx2, u2);
    crate::table::lemma_table_suffix_shape(sfx1, u1);
    crate::table::lemma_table_suffix_shape(sfx2, u2);
    reveal_strlit("and");
    lemma_two_spans_concat(d1, sfx1, u1, w1, has_and, w2, d2, sfx2, u2);
}

/// The two resolver results inside the concatenation of
/// `lemma_additive_composition`: the first suffix ends at the separator,
/// the second is the whole remaining tail.
proof fn lemma_resolve_for_concat(
    d1: Seq<char>,
    sfx1: Seq<char>,
    u1: Unit,
    w1: Seq<char>,
    has_and: bool,
    w2: Seq<char>,
    d2: Seq<char>,
    sfx2: Seq<char>,
    u2: Unit,
)
    requires
        d1.len() >= 1,
        crate::table::is_table_entry(sfx1, u1),
        forall|x: int| 0 <= x < w1.len() ==> is_sep_space(#[trigger] w1[x]),
        forall|x: int| 0 <= x < w2.len() ==> is_sep_space(#[trigger] w2[x]),
        has_and || w1.len() + w2.len() >= 1,
        d2.len() >= 1,
        crate::table::is_table_entry(sfx2, u2),
    ensures
        resolve_unit(d1 + sfx1 + sep_of(w1, has_and, w2) + d2 + sfx2, d1.len() as int) == Some(
            (u1, d1.len() + sfx1.len() as int),
        ),
        resolve_unit(
            d1 + sfx1 + sep_of(w1, has_and, w2) + d2 + sfx2,
            d1.len() + sfx1.len() + sep_of(w1, has_and, w2).len() + d2.len() as int,
        ) == Some((u2, (d1 + sfx1 + sep_of(w1, has_and, w2) + d2 + sfx2).len() as int)),
{
    crate::table::lemma_table_suffix_shape(sfx1, u1);
    crate::table::lemma_table_suffix_shape(sfx2, u2);
    let sep = sep_of(w1, has_and, w2);
    let txt = d1 + sfx1 + sep + d2 + sfx2;
    let p1 = d1.len() as int;
    let alen = d1.len() + sfx1.len() as int;
    let p2 = alen + sep.len() + d2.len();
    let tlen = txt.len() as int;
    assert(txt.subrange(p1, alen) =~= sfx1);
    if w1.len() > 0 {
        assert(txt[alen] == w1[0]);
        crate::table::lemma_resolve_table_before_space(txt, p1, sfx1, u1);
    } else if has_and {
        assert(sep[0] == 'a' && sep[1] == 'n' && sep[2] == 'd');
        assert(txt[alen] == 'a' && txt[alen + 1] == 'n' && txt[alen + 2] == 'd');
        crate::table::lemma_resolve_table_before_and(txt, p1, sfx1, u1);
    } else {
        assert(txt[alen] == w2[0]);
        crate::table::lemma_resolve_table_before_space(txt, p1, sfx1, u1);
    }
    assert(txt.subrange(p2, tlen) =~= sfx2);
    crate::table::lemma_resolve_table_tail(txt, p2, sfx2, u2);
}

/// The concatenation step of `lemma_additive_composition`, with the suffix
/// shapes and the two resolver results already at hand.
#[verifier::rlimit(100)]
proof fn lemma_two_spans_concat(
    d1: Seq<char>,
    sfx1: Seq<char>,
    u1: Unit,
    w1: Seq<char>,
    has_and: bool,
    w2: Seq<char>,
    d2: Seq<char>,
    sfx2: Seq<char>,
    u2: Unit,
)
    requires
        d1.len() >= 1,
        forall|x: int| 0 <= x < d1.len() ==> is_digit(#[trigger] d1[x]),
        d2.len() >= 1,
        forall|x: int| 0 <= x < d2.len() ==> is_digit(#[trigger] d2[x]),
        sfx1.len() >= 1,
        !is_digit(sfx1[0]),
        sfx1[0] != '.',
        sfx1[0] != 'e',
        sfx1[0] != 'E',
        !is_sep_space(sfx1[0]),
        sfx2.len() >= 1,
        !is_digit(sfx2[0]),
        sfx2[0] != '.',
        sfx2[0] != 'e',
        sfx2[0] != 'E',
        !is_sep_space(sfx2[0]),
        !is_trim_space(sfx2[sfx2.len() - 1]),
        forall|x: int| 0 <= x < w1.len() ==> is_sep_space(#[trigger] w1[x]),
        forall|x: int| 0 <= x < w2.len() ==> is_sep_space(#[trigger] w2[x]),
        has_and || w1.len() + w2.len() >= 1,
        resolve_unit(d1 + sfx1 + sep_of(w1, has_and, w2) + d2 + sfx2, d1.len() as int) == Some(
            (u1, d1.len() + sfx1.len() as int),
        ),
        resolve_unit(
            d1 + sfx1 + sep_of(w1, has_and, w2) + d2 + sfx2,
            d1.len() + sfx1.len() + sep_of(w1, has_and, w2).len() + d2.len() as int,
        ) == Some((u2, (d1 + sfx1 + sep_of(w1, has_and, w2) + d2 + sfx2).len() as int)),
        ({
            let (dv1, kv1, jv1) = scan_int(d1, 0, 0, 0);
            let (dv2, kv2, jv2) = scan_int(d2, 0, 0, 0);
            let nn1 = span_nanos(dv1, kv1, u1);
            let nn2 = span_nanos(dv2, kv2, u2);
            let dur1 = Duration {
                secs: (nn1 / (NANOS_PER_SEC as nat)) as u64,
                nanos: (nn1 % (NANOS_PER_SEC as nat)) as u32,
            };
            let dur2 = Duration {
                secs: (nn2 / (NANOS_PER_SEC as nat)) as u64,
                nanos: (nn2 % (NANOS_PER_SEC as nat)) as u32,
            };
            !lit_too_big(dv1, kv1) && nn1 / (NANOS_PER_SEC as nat) <= u64::MAX && !lit_too_big(
                dv2,
                kv2,
            ) && nn2 / (NANOS_PER_SEC as nat) <= u64::MAX && dur1.spec_add(dur2) is Some
        }),
        "and"@.len() == 3,
    ensures
        ({
            let (dv1, kv1, jv1) = scan_int(d1, 0, 0, 0);
            let (dv2, kv2, jv2) = scan_int(d2, 0, 0, 0);
            let nn1 = span_nanos(dv1, kv1, u1);
            let nn2 = span_nanos(dv2, kv2, u2);
            let dur1 = Duration {
                secs: (nn1 / (NANOS_PER_SEC as nat)) as u64,
                nanos: (nn1 % (NANOS_PER_SEC as nat)) as u32,
            };
            let dur2 = Duration {
                secs: (nn2 / (NANOS_PER_SEC as nat)) as u64,
                nanos: (nn2 % (NANOS_PER_SEC as nat)) as u32,
            };
            spec_parse(d1 + sfx1 + sep_of(w1, has_and, w2) + d2 + sfx2) == SpecOutcome::Success(
                dur1.spec_add(dur2).unwrap(),
            )
        }),
{
    let (dv1, kv1, jv1) = scan_int(d1, 0, 0, 0);
    let (dv2, kv2, jv2) = scan_int(d2, 0, 0, 0);
    let nn1 = span_nanos(dv1, kv1, u1);
    let nn2 = span_nanos(dv2, kv2, u2);
    let dur1 = Duration {
        secs: (nn1 / (NANOS_PER_SEC as nat)) as u64,
        nanos: (nn1 % (NANOS_PER_SEC as nat)) as u32,
    };
    let dur2 = Duration {
        secs: (nn2 / (NANOS_PER_SEC as nat)) as u64,
        nanos: (nn2 % (NANOS_PER_SEC as nat)) as u32,
    };
    reveal_strlit("and");
    lemma_mod_division_less_than_divisor(nn1 as int, NANOS_PER_SEC as int);
    lemma_mod_division_less_than_divisor(nn2 as int, NANOS_PER_SEC as int);
    lemma_scan_int_all_digits(d1, 0, 0, 0);
    lemma_scan_int_all_digits(d2, 0, 0, 0);
    let sep = sep_of(w1, has_and, w2);
    let mlen: int = if has_and {
        3
    } else {
        0
    };
    let txt = d1 + sfx1 + sep + d2 + sfx2;
    let p1 = d1.len() as int;
    let alen = d1.len() + sfx1.len() as int;
    let a0 = alen + sep.len();
    let p2 = a0 + d2.len();
    let tlen = txt.len() as int;
    assert(sep.len() == w1.len() + mlen + w2.len());
    assert(tlen == p2 + sfx2.len());
    // the first numeric literal is exactly the digits of `d1`
    let rest1 = sfx1 + sep + d2 + sfx2;
    assert(txt =~= d1 + (sfx1 + sep + d2 + sfx2));
    assert(rest1[0] == sfx1[0]);
    lemma_scan_int_extend(d1, rest1, 0, 0, 0);
    assert(scan_int(txt, 0, 0, 0) == (dv1, kv1, p1));
    assert(txt[p1] == sfx1[0]);
    assert(scan_number(txt, 0) == Some((dv1, kv1, p1)));
    // the first suffix ends at the separator
    assert(ws_end(txt, p1) == p1);
    assert(resolve_unit(txt, p1) == Some((u1, alen)));
    // the separator is consumed whole, up to the digits of `d2`
    assert forall|x: int| 0 <= x < w1.len() implies txt[alen + x] == w1[x] by {
        assert(sep[x] == w1[x]);
    }
    assert forall|x: int| 0 <= x < w2.len() implies txt[alen + w1.len() + mlen + x] == w2[x] by {
        assert(sep[w1.len() + mlen + x] == w2[x]);
    }
    assert(txt[a0] == d2[0]);
    assert(ws_end(txt, a0) == a0);
    assert(!match_at(txt, a0, "and"@)) by {
        if match_at(txt, a0, "and"@) {
            assert(txt.subrange(a0, a0 + 3)[0] == txt[a0]);
            assert(false);
        }
    }
    if has_and {
        let am = alen + w1.len() as int;
        assert(sep[w1.len() as int] == 'a' && sep[w1.len() as int + 1] == 'n' && sep[w1.len() as int + 2] == 'd');
        assert(txt[am] == 'a' && txt[am + 1] == 'n' && txt[am + 2] == 'd');
        lemma_ws_end_run(txt, alen, am);
        assert(match_at(txt, am, "and"@)) by {
            assert(txt.subrange(am, am + 3) =~= "and"@);
        }
        lemma_ws_end_run(txt, am + 3, a0);
        assert(sep_end(txt, alen) == a0);
    } else {
        lemma_ws_end_run(txt, alen, a0);
        assert(sep_end(txt, alen) == a0);
    }
    assert(scan_span(txt, 0) == Ok::<(Duration, int), (SpanErrorKind, int)>((dur1, a0)));
    // the second span: digits of `d2`, then `sfx2` as the whole tail
    let upre = d1 + sfx1 + sep;
    let v = d2 + sfx2;
    assert(txt =~= upre + v);
    assert(upre.len() == a0);
    lemma_scan_int_extend(d2, sfx2, 0, 0, 0);
    assert(scan_int(v, 0, 0, 0) == (dv2, kv2, d2.len() as int));
    lemma_scan_int_shift(upre, v, 0, 0, 0);
    assert(scan_int(txt, a0, 0, 0) == (dv2, kv2, p2));
    assert(txt[p2] == sfx2[0]);
    assert(scan_number(txt, a0) == Some((dv2, kv2, p2)));
    assert(ws_end(txt, p2) == p2);
    assert(resolve_unit(txt, p2) == Some((u2, tlen)));
    assert(ws_end(txt, tlen) == tlen);
    assert(!match_at(txt, tlen, "and"@));
    assert(sep_end(txt, tlen) == tlen);
    assert(scan_span(txt, a0) == Ok::<(Duration, int), (SpanErrorKind, int)>((dur2, tlen)));
    // the fold: two spans, then clean exhaustion
    let zero = Duration { secs: 0, nanos: 0 };
    assert(zero.spec_add(dur1) == Some(dur1));
    let sum = dur1.spec_add(dur2).unwrap();
    assert(scan_int(txt, tlen, 0, 0) == (0nat, 0int, tlen));
    assert(scan_number(txt, tlen) is None);
    assert(scan_span(txt, tlen) == Err::<(Duration, int), (SpanErrorKind, int)>(
        (SpanErrorKind::NumericLiteral, tlen),
    ));
    assert(trim_start_idx(txt, tlen) == tlen);
    assert(txt[tlen - 1] == sfx2[sfx2.len() - 1]);
    assert(trim_end_idx(txt, tlen) == tlen);
    assert(scan_spans(txt, tlen, sum, 2) == SpecOutcome::Success(sum));
    assert(scan_spans(txt, a0, dur1, 1) == SpecOutcome::Success(sum));
    assert(scan_spans(txt, 0, zero, 0) == SpecOutcome::Success(sum));
    assert(txt[0] == d1[0]);
    assert(trim_start_idx(txt, 0) == 0);
    assert(spec_parse(txt) == SpecOutcome::Success(sum));
}

/// Overflow rejection: an input whose first span's literal exceeds the
/// representable range after the guard, or whose first span's converted
/// whole seconds exceed `u64::MAX`, fails as malformed with the range
/// overflow diagnosis; nothing is wrapped or saturated.
pub proof fn lemma_overflow_rejected(s: Seq<char>)
    requires
        ({
            let t0 = trim_start_idx(s, 0);
            let t1 = trim_end_idx(s, s.len() as int);
            t0 < t1 && !(t1 - t0 == 1 && s[t0] == '0') && match scan_number(s, t0) {
                Some((d, k, j)) => lit_too_big(d, k) || (match resolve_unit(s, ws_end(s, j)) {
                    Some((u, j3)) => span_nanos(d, k, u) / (NANOS_PER_SEC as nat) > u64::MAX,
                    None => false,
                }),
                None => false,
            }
        }),
    ensures
        spec_parse(s) == (SpecOutcome::Malformed {
            at: trim_start_idx(s, 0),
            kind: SpanErrorKind::RangeOverflow,
        }),
{
    let t0 = trim_start_idx(s, 0);
    assert(scan_span(s, t0) == Err::<(Duration, int), (SpanErrorKind, int)>(
        (SpanErrorKind::RangeOverflow, t0),
    ));
}

/// Trailing garbage rejection: once at least one span has parsed, a failing
/// remainder whose trimmed text is nonempty ends the parse with exactly that
/// leftover text; a remainder that is all whitespace is a clean finish.
pub proof fn lemma_trailing_garbage(s: Seq<char>, i: int, acc: Duration, count: nat)
    requires
        count >= 1,
        scan_span(s, i) is Err,
    ensures
        trim_start_idx(s, i) < trim_end_idx(s, s.len() as int) ==> scan_spans(s, i, acc, count)
            == (SpecOutcome::Unconsumed {
            from: trim_start_idx(s, i),
            to: trim_end_idx(s, s.len() as int),
        }),
        trim_start_idx(s, i) >= trim_end_idx(s, s.len() as int) ==> scan_spans(s, i, acc, count)
            == SpecOutcome::Success(acc),
{
}

} // verus!
