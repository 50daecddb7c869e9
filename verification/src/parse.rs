//! The duration grammar: scans `<number><unit>` spans left to right,
//! converts each to an exact duration, and sums them.  Spans are separated
//! by blanks or by the word `and`, the bare literal `0` alone is the zero
//! duration, and trailing text that is not a span is an error naming the
//! exact leftover substring.
//!
//! `spec_parse` is the mathematical model of the whole grammar, and
//! `parse_duration` is proved to return exactly what it describes.

use vstd::prelude::*;
use vstd::string::StrSliceExecFns;

use crate::convert::{convert, lit_guard, lit_too_big, span_nanos};
use crate::duration::{Duration, NANOS_PER_SEC};
use crate::resolve::{match_at, resolve_unit, try_tag, unit_at};
use crate::scan::{is_trim_space, number_at, scan_number, skip_ws, ws_end};

verus! {

/// Which sub-rule of a span failed.
#[derive(Debug, Clone, Copy, PartialEq, Eq, Structural)]
pub enum SpanErrorKind {
    /// No numeric literal could be scanned.
    NumericLiteral,
    /// No known unit suffix follows the literal.
    UnitSuffix,
    /// The span's value exceeds the representable seconds range.
    RangeOverflow,
}

/// Error parsing a human-friendly duration.
#[derive(Debug)]
pub enum Error {
    /// The input is empty once surrounding whitespace is removed.
    EmptyInput,
    /// A prefix parsed as spans but the given trailing text did not; carries
    /// the exact leftover substring, trimmed.
    ParseFailed(String),
    /// No valid span could be scanned at all, or a span's value was out of
    /// range: the remaining input from the failure, up to the trimmed end,
    /// and the sub-rule at fault.
    MalformedSpan(String, SpanErrorKind),
}

impl PartialEq for Error {
    fn eq(&self, other: &Error) -> (r: bool) {
        match (self, other) {
            (Error::EmptyInput, Error::EmptyInput) => true,
            (Error::ParseFailed(a), Error::ParseFailed(b)) => a.eq(b),
            (Error::MalformedSpan(a, ka), Error::MalformedSpan(b, kb)) => a.eq(b) && ka == kb,
            _ => false,
        }
    }
}

impl vstd::std_specs::cmp::PartialEqSpecImpl for Error {
    open spec fn obeys_eq_spec() -> bool {
        true
    }

    open spec fn eq_spec(&self, other: &Error) -> bool {
        match (self, other) {
            (Error::EmptyInput, Error::EmptyInput) => true,
            (Error::ParseFailed(a), Error::ParseFailed(b)) => a@ == b@,
            (Error::MalformedSpan(a, ka), Error::MalformedSpan(b, kb)) => a@ == b@ && ka == kb,
            _ => false,
        }
    }
}

/// The abstract outcome of a parse: success, or one of the three
/// diagnosable failures, located by positions into the input.
pub enum SpecOutcome {
    Success(Duration),
    Empty,
    /// Spans parsed up to a point; the trimmed leftover `s[from..to]` did not.
    Unconsumed { from: int, to: int },
    /// No span parsed at all, or a span was out of range: the rest of the
    /// input from `at` and the sub-rule at fault.
    Malformed { at: int, kind: SpanErrorKind },
}

/// First position at or after `i` that is not trimmable whitespace.
pub open spec fn trim_start_idx(s: Seq<char>, i: int) -> int
    decreases s.len() - i,
{
    if 0 <= i < s.len() && is_trim_space(s[i]) {
        trim_start_idx(s, i + 1)
    } else {
        i
    }
}

/// Position ending the non-whitespace content strictly before `j`.
pub open spec fn trim_end_idx(s: Seq<char>, j: int) -> int
    decreases j,
{
    if 0 < j <= s.len() && is_trim_space(s[j - 1]) {
        trim_end_idx(s, j - 1)
    } else {
        j
    }
}

/// End of an optional separator at `i`: blanks, or the word `and` with
/// optional blanks on both sides; nothing when neither is present.
pub open spec fn sep_end(s: Seq<char>, i: int) -> int {
    let a = ws_end(s, i);
    if match_at(s, a, "and"@) {
        ws_end(s, a + "and"@.len())
    } else if a > i {
        a
    } else {
        i
    }
}

/// Scans one span at `i`: a numeric literal, its overflow guard, optional
/// blanks, a unit suffix, the exact conversion, and a trailing separator.
/// `Ok` carries the span's duration and the next position; `Err` carries the
/// failing sub-rule and the position of the offending fragment.
pub open spec fn scan_span(s: Seq<char>, i: int) -> Result<(Duration, int), (SpanErrorKind, int)> {
    match scan_number(s, i) {
        None => Err((SpanErrorKind::NumericLiteral, i)),
        Some((d, k, j)) => if lit_too_big(d, k) {
            Err((SpanErrorKind::RangeOverflow, i))
        } else {
            let j2 = ws_end(s, j);
            match resolve_unit(s, j2) {
                None => Err((SpanErrorKind::UnitSuffix, j2)),
                Some((u, j3)) => {
                    let nn = span_nanos(d, k, u);
                    if nn / (NANOS_PER_SEC as nat) > u64::MAX {
                        Err((SpanErrorKind::RangeOverflow, i))
                    } else {
                        Ok(
                            (
                                Duration {
                                    secs: (nn / (NANOS_PER_SEC as nat)) as u64,
                                    nanos: (nn % (NANOS_PER_SEC as nat)) as u32,
                                },
                                sep_end(s, j3),
                            ),
                        )
                    }
                },
            }
        },
    }
}

/// Folds spans from `i` onto `acc`.  On the first failing span: with no span
/// yet parsed the whole input is malformed; otherwise the trimmed leftover
/// decides between success and unconsumed trailing text.  A sum that would
/// exceed the seconds range is out of range at the offending span.
pub open spec fn scan_spans(s: Seq<char>, i: int, acc: Duration, count: nat) -> SpecOutcome
    decreases s.len() - i,
{
    match scan_span(s, i) {
        Err((kind, at)) => {
            if count == 0 {
                SpecOutcome::Malformed { at, kind }
            } else {
                let l0 = trim_start_idx(s, i);
                let l1 = trim_end_idx(s, s.len() as int);
                if l0 >= l1 {
                    SpecOutcome::Success(acc)
                } else {
                    SpecOutcome::Unconsumed { from: l0, to: l1 }
                }
            }
        },
        Ok((dur, next)) => {
            if i < next <= s.len() {
                match acc.spec_add(dur) {
                    Some(sum) => scan_spans(s, next, sum, count + 1),
                    None => SpecOutcome::Malformed { at: i, kind: SpanErrorKind::RangeOverflow },
                }
            } else {
                SpecOutcome::Success(acc)
            }
        },
    }
}

/// The grammar, whole: trim; empty input is an error; the bare literal `0`
/// is the zero duration; otherwise at least one span must parse and the
/// spans' sum is the result.
pub open spec fn spec_parse(s: Seq<char>) -> SpecOutcome {
    let t0 = trim_start_idx(s, 0);
    let t1 = trim_end_idx(s, s.len() as int);
    if t0 >= t1 {
        SpecOutcome::Empty
    } else if t1 - t0 == 1 && s[t0] == '0' {
        SpecOutcome::Success(Duration { secs: 0, nanos: 0 })
    } else {
        scan_spans(s, t0, Duration { secs: 0, nanos: 0 }, 0)
    }
}

/// How an executable result realizes an abstract outcome on input `s`:
/// the same value on success, and on failure the matching error variant
/// carrying exactly the substring the outcome locates.
pub open spec fn outcome_matches(s: Seq<char>, res: Result<Duration, Error>, o: SpecOutcome) -> bool {
    match o {
        SpecOutcome::Success(d) => res == Ok::<Duration, Error>(d),
        SpecOutcome::Empty => res matches Err(e) && e matches Error::EmptyInput,
        SpecOutcome::Unconsumed { from, to } => res matches Err(e) && e matches Error::ParseFailed(t)
            && t@ == s.subrange(from, to),
        SpecOutcome::Malformed { at, kind } => res matches Err(e) && e matches Error::MalformedSpan(
            t,
            k,
        ) && t@ == s.subrange(
            at,
            if at > trim_end_idx(s, s.len() as int) {
                at
            } else {
                trim_end_idx(s, s.len() as int)
            },
        ) && k == kind,
    }
}

/// First non-trimmable position at or after `i`.
fn trim_from(s: &str, n: usize, i: usize) -> (j: usize)
    requires
        n == s@.len(),
        i <= n,
    ensures
        i <= j <= n,
        j == trim_start_idx(s@, i as int),
{
    let mut j = i;
    loop
        invariant
            i <= j <= n,
            n == s@.len(),
            trim_start_idx(s@, i as int) == trim_start_idx(s@, j as int),
        ensures
            i <= j <= n,
            trim_start_idx(s@, i as int) == trim_start_idx(s@, j as int),
            j == trim_start_idx(s@, j as int),
        decreases n - j,
    {
        if j >= n {
            break ;
        }
        let c = s.get_char(j);
        if !(c == ' ' || c == '\t' || c == '\n' || c == '\r' || c == '\u{b}' || c == '\u{c}') {
            break ;
        }
        j = j + 1;
    }
    j
}

/// End of the non-whitespace content of `s`.
fn trim_to(s: &str, n: usize) -> (j: usize)
    requires
        n == s@.len(),
    ensures
        j <= n,
        j == trim_end_idx(s@, n as int),
{
    let mut j = n;
    loop
        invariant
            j <= n,
            n == s@.len(),
            trim_end_idx(s@, n as int) == trim_end_idx(s@, j as int),
        ensures
            j <= n,
            trim_end_idx(s@, n as int) == trim_end_idx(s@, j as int),
            j == trim_end_idx(s@, j as int),
        decreases j,
    {
        if j == 0 {
            break ;
        }
        let c = s.get_char(j - 1);
        if !(c == ' ' || c == '\t' || c == '\n' || c == '\r' || c == '\u{b}' || c == '\u{c}') {
            break ;
        }
        j = j - 1;
    }
    j
}

/// Consumes an optional separator at `i`, as `sep_end` describes.
fn sep_at(s: &str, n: usize, i: usize) -> (j: usize)
    requires
        n == s@.len(),
        i <= n,
    ensures
        i <= j <= n,
        j == sep_end(s@, i as int),
{
    let a = skip_ws(s, n, i);
    match try_tag(s, n, a, "and") {
        Some(e) => skip_ws(s, n, e),
        None => a,
    }
}

/// Scans one span at `i`, exactly as `scan_span` describes.
fn span_at(s: &str, n: usize, i: usize) -> (r: Result<(Duration, usize), (SpanErrorKind, usize)>)
    requires
        n == s@.len(),
        i <= n,
    ensures
        match r {
            Ok((dur, j)) => scan_span(s@, i as int) == Ok::<(Duration, int), (SpanErrorKind, int)>(
                (dur, j as int),
            ) && i < j <= n && dur.wf(),
            Err((kind, at)) => scan_span(s@, i as int) == Err::<
                (Duration, int),
                (SpanErrorKind, int),
            >((kind, at as int)) && i <= at <= n,
        },
{
    match number_at(s, n, i) {
        None => Err((SpanErrorKind::NumericLiteral, i)),
        Some((d, k, j)) => {
            if lit_guard(d, k) {
                return Err((SpanErrorKind::RangeOverflow, i));
            }
            let j2 = skip_ws(s, n, j);
            match unit_at(s, n, j2) {
                None => Err((SpanErrorKind::UnitSuffix, j2)),
                Some((u, j3)) => {
                    match convert(d, k, u) {
                        None => Err((SpanErrorKind::RangeOverflow, i)),
                        Some(dur) => {
                            let j4 = sep_at(s, n, j3);
                            Ok((dur, j4))
                        },
                    }
                },
            }
        },
    }
}

/// Parses a human-friendly duration such as `2h 15m`, `20min17nsec`,
/// `.5m` or `2 minutes and 30 seconds` into an exact duration.
///
/// The result is exactly what the grammar model `spec_parse` yields on the
/// input: the summed duration on success, and otherwise the matching error,
/// carrying the exact offending substring.
pub fn parse_duration(input: &str) -> (res: Result<Duration, Error>)
    ensures
        outcome_matches(input@, res, spec_parse(input@)),
        res matches Ok(d) ==> d.wf(),
{
    let n = input.unicode_len();
    let t0 = trim_from(input, n, 0);
    let t1 = trim_to(input, n);
    if t0 >= t1 {
        return Err(Error::EmptyInput);
    }
    if t1 - t0 == 1 && input.get_char(t0) == '0' {
        return Ok(Duration::zero());
    }
    let mut acc = Duration::zero();
    let mut i = t0;
    let mut parsed_any = false;
    let ghost mut count: nat = 0;
    loop
        invariant
            t0 <= i <= n,
            n == input@.len(),
            t1 <= n,
            t1 == trim_end_idx(input@, n as int),
            acc.wf(),
            parsed_any <==> count > 0,
            spec_parse(input@) == scan_spans(input@, i as int, acc, count),
        decreases n - i,
    {
        match span_at(input, n, i) {
            Err((kind, at)) => {
                if !parsed_any {
                    let end = if at > t1 {
                        at
                    } else {
                        t1
                    };
                    let frag = input.substring_char(at, end).to_owned();
                    return Err(Error::MalformedSpan(frag, kind));
                } else {
                    let l0 = trim_from(input, n, i);
                    if l0 >= t1 {
                        return Ok(acc);
                    } else {
                        let left = input.substring_char(l0, t1).to_owned();
                        return Err(Error::ParseFailed(left));
                    }
                }
            },
            Ok((dur, next)) => {
                match acc.checked_add(dur) {
                    Some(sum) => {
                        acc = sum;
                        i = next;
                        parsed_any = true;
                        proof {
                            count = count + 1;
                        }
                    },
                    None => {
                        let end = if i > t1 {
                            i
                        } else {
                            t1
                        };
                        let frag = input.substring_char(i, end).to_owned();
                        return Err(Error::MalformedSpan(frag, SpanErrorKind::RangeOverflow));
                    },
                }
            },
        }
    }
}

} // verus!
