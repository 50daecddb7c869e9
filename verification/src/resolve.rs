//! The unit-suffix resolver: maps the text after a numeric literal to a
//! unit.  Matching is exact and case-sensitive, and the families are tried
//! in a fixed order -- months, days, weeks and years before the second,
//! minute and hour families -- so that a longer family suffix is never
//! swallowed by a shorter one (`mth` resolves to months, not to minutes).

use vstd::prelude::*;

use crate::units::Unit;

verus! {

/// `p` occurs in `s` starting at position `i`.
pub open spec fn match_at(s: Seq<char>, i: int, p: Seq<char>) -> bool {
    0 <= i && i + p.len() <= s.len() && s.subrange(i, i + p.len() as int) == p
}

/// Compares `p` against `s` at `i`; `Some` carries the position after the match.
fn tag_end(s: &str, n: usize, i: usize, p: &str, pn: usize) -> (r: Option<usize>)
    requires
        n == s@.len(),
        pn == p@.len(),
        i <= n,
    ensures
        match r {
            Some(j) => match_at(s@, i as int, p@) && j == i + p@.len() && j <= n,
            None => !match_at(s@, i as int, p@),
        },
{
    if pn > n - i {
        return None;
    }
    let mut t: usize = 0;
    while t < pn
        invariant
            n == s@.len(),
            pn == p@.len(),
            i + pn <= n,
            t <= pn,
            forall|x: int| 0 <= x < t ==> s@[i + x] == p@[x],
        decreases pn - t,
    {
        if s.get_char(i + t) != p.get_char(t) {
            proof {
                if match_at(s@, i as int, p@) {
                    assert(s@.subrange(i as int, i + pn as int)[t as int] == p@[t as int]);
                }
            }
            return None;
        }
        t = t + 1;
    }
    proof {
        assert(s@.subrange(i as int, i + pn as int) =~= p@);
    }
    Some(i + t)
}

/// As `tag_end`, with the pattern length measured here.
pub(crate) fn try_tag(s: &str, n: usize, i: usize, p: &str) -> (r: Option<usize>)
    requires
        n == s@.len(),
        i <= n,
    ensures
        match r {
            Some(j) => match_at(s@, i as int, p@) && j == i + p@.len() && j <= n,
            None => !match_at(s@, i as int, p@),
        },
{
    let pn = p.unicode_len();
    tag_end(s, n, i, p, pn)
}

/// Resolves the longest applicable unit suffix at `i`: the first entry of
/// the ordered table that occurs there, with the position after it.
pub open spec fn resolve_unit(s: Seq<char>, i: int) -> Option<(Unit, int)> {
    if match_at(s, i, "months"@) {
        Some((Unit::Months, i + "months"@.len()))
    } else if match_at(s, i, "month"@) {
        Some((Unit::Months, i + "month"@.len()))
    } else if match_at(s, i, "mths"@) {
        Some((Unit::Months, i + "mths"@.len()))
    } else if match_at(s, i, "mth"@) {
        Some((Unit::Months, i + "mth"@.len()))
    } else if match_at(s, i, "M"@) {
        Some((Unit::Months, i + "M"@.len()))
    } else if match_at(s, i, "days"@) {
        Some((Unit::Days, i + "days"@.len()))
    } else if match_at(s, i, "day"@) {
        Some((Unit::Days, i + "day"@.len()))
    } else if match_at(s, i, "dys"@) {
        Some((Unit::Days, i + "dys"@.len()))
    } else if match_at(s, i, "dy"@) {
        Some((Unit::Days, i + "dy"@.len()))
    } else if match_at(s, i, "d"@) {
        Some((Unit::Days, i + "d"@.len()))
    } else if match_at(s, i, "D"@) {
        Some((Unit::Days, i + "D"@.len()))
    } else if match_at(s, i, "weeks"@) {
        Some((Unit::Weeks, i + "weeks"@.len()))
    } else if match_at(s, i, "week"@) {
        Some((Unit::Weeks, i + "week"@.len()))
    } else if match_at(s, i, "wks"@) {
        Some((Unit::Weeks, i + "wks"@.len()))
    } else if match_at(s, i, "wk"@) {
        Some((Unit::Weeks, i + "wk"@.len()))
    } else if match_at(s, i, "w"@) {
        Some((Unit::Weeks, i + "w"@.len()))
    } else if match_at(s, i, "W"@) {
        Some((Unit::Weeks, i + "W"@.len()))
    } else if match_at(s, i, "years"@) {
        Some((Unit::Years, i + "years"@.len()))
    } else if match_at(s, i, "year"@) {
        Some((Unit::Years, i + "year"@.len()))
    } else if match_at(s, i, "yrs"@) {
        Some((Unit::Years, i + "yrs"@.len()))
    } else if match_at(s, i, "yr"@) {
        Some((Unit::Years, i + "yr"@.len()))
    } else if match_at(s, i, "y"@) {
        Some((Unit::Years, i + "y"@.len()))
    } else if match_at(s, i, "Y"@) {
        Some((Unit::Years, i + "Y"@.len()))
    } else if match_at(s, i, "nanos"@) {
        Some((Unit::Nanos, i + "nanos"@.len()))
    } else if match_at(s, i, "nsec"@) {
        Some((Unit::Nanos, i + "nsec"@.len()))
    } else if match_at(s, i, "ns"@) {
        Some((Unit::Nanos, i + "ns"@.len()))
    } else if match_at(s, i, "micros"@) {
        Some((Unit::Micros, i + "micros"@.len()))
    } else if match_at(s, i, "usec"@) {
        Some((Unit::Micros, i + "usec"@.len()))
    } else if match_at(s, i, "us"@) {
        Some((Unit::Micros, i + "us"@.len()))
    } else if match_at(s, i, "millis"@) {
        Some((Unit::Millis, i + "millis"@.len()))
    } else if match_at(s, i, "msec"@) {
        Some((Unit::Millis, i + "msec"@.len()))
    } else if match_at(s, i, "ms"@) {
        Some((Unit::Millis, i + "ms"@.len()))
    } else if match_at(s, i, "seconds"@) {
        Some((Unit::Seconds, i + "seconds"@.len()))
    } else if match_at(s, i, "second"@) {
        Some((Unit::Seconds, i + "second"@.len()))
    } else if match_at(s, i, "secs"@) {
        Some((Unit::Seconds, i + "secs"@.len()))
    } else if match_at(s, i, "sec"@) {
        Some((Unit::Seconds, i + "sec"@.len()))
    } else if match_at(s, i, "s"@) {
        Some((Unit::Seconds, i + "s"@.len()))
    } else if match_at(s, i, "minutes"@) {
        Some((Unit::Minutes, i + "minutes"@.len()))
    } else if match_at(s, i, "minute"@) {
        Some((Unit::Minutes, i + "minute"@.len()))
    } else if match_at(s, i, "mins"@) {
        Some((Unit::Minutes, i + "mins"@.len()))
    } else if match_at(s, i, "min"@) {
        Some((Unit::Minutes, i + "min"@.len()))
    } else if match_at(s, i, "m"@) {
        Some((Unit::Minutes, i + "m"@.len()))
    } else if match_at(s, i, "hours"@) {
        Some((Unit::Hours, i + "hours"@.len()))
    } else if match_at(s, i, "hour"@) {
        Some((Unit::Hours, i + "hour"@.len()))
    } else if match_at(s, i, "hrs"@) {
        Some((Unit::Hours, i + "hrs"@.len()))
    } else if match_at(s, i, "hr"@) {
        Some((Unit::Hours, i + "hr"@.len()))
    } else if match_at(s, i, "h"@) {
        Some((Unit::Hours, i + "h"@.len()))
    } else if match_at(s, i, "H"@) {
        Some((Unit::Hours, i + "H"@.len()))
    } else {
        None
    }
}

/// Resolves a unit suffix at `i`, exactly as `resolve_unit` describes.
pub fn unit_at(s: &str, n: usize, i: usize) -> (r: Option<(Unit, usize)>)
    requires
        n == s@.len(),
        i <= n,
    ensures
        match r {
            Some((u, j)) => resolve_unit(s@, i as int) == Some((u, j as int)) && i <= j <= n,
            None => resolve_unit(s@, i as int) is None,
        },
{
    if let Some(j) = try_tag(s, n, i, "months") {
        return Some((Unit::Months, j));
    }
    if let Some(j) = try_tag(s, n, i, "month") {
        return Some((Unit::Months, j));
    }
    if let Some(j) = try_tag(s, n, i, "mths") {
        return Some((Unit::Months, j));
    }
    if let Some(j) = try_tag(s, n, i, "mth") {
        return Some((Unit::Months, j));
    }
    if let Some(j) = try_tag(s, n, i, "M") {
        return Some((Unit::Months, j));
    }
    if let Some(j) = try_tag(s, n, i, "days") {
        return Some((Unit::Days, j));
    }
    if let Some(j) = try_tag(s, n, i, "day") {
        return Some((Unit::Days, j));
    }
    if let Some(j) = try_tag(s, n, i, "dys") {
        return Some((Unit::Days, j));
    }
    if let Some(j) = try_tag(s, n, i, "dy") {
        return Some((Unit::Days, j));
    }
    if let Some(j) = try_tag(s, n, i, "d") {
        return Some((Unit::Days, j));
    }
    if let Some(j) = try_tag(s, n, i, "D") {
        return Some((Unit::Days, j));
    }
    if let Some(j) = try_tag(s, n, i, "weeks") {
        return Some((Unit::Weeks, j));
    }
    if let Some(j) = try_tag(s, n, i, "week") {
        return Some((Unit::Weeks, j));
    }
    if let Some(j) = try_tag(s, n, i, "wks") {
        return Some((Unit::Weeks, j));
    }
    if let Some(j) = try_tag(s, n, i, "wk") {
        return Some((Unit::Weeks, j));
    }
    if let Some(j) = try_tag(s, n, i, "w") {
        return Some((Unit::Weeks, j));
    }
    if let Some(j) = try_tag(s, n, i, "W") {
        return Some((Unit::Weeks, j));
    }
    if let Some(j) = try_tag(s, n, i, "years") {
        return Some((Unit::Years, j));
    }
    if let Some(j) = try_tag(s, n, i, "year") {
        return Some((Unit::Years, j));
    }
    if let Some(j) = try_tag(s, n, i, "yrs") {
        return Some((Unit::Years, j));
    }
    if let Some(j) = try_tag(s, n, i, "yr") {
        return Some((Unit::Years, j));
    }
    if let Some(j) = try_tag(s, n, i, "y") {
        return Some((Unit::Years, j));
    }
    if let Some(j) = try_tag(s, n, i, "Y") {
        return Some((Unit::Years, j));
    }
    if let Some(j) = try_tag(s, n, i, "nanos") {
        return Some((Unit::Nanos, j));
    }
    if let Some(j) = try_tag(s, n, i, "nsec") {
        return Some((Unit::Nanos, j));
    }
    if let Some(j) = try_tag(s, n, i, "ns") {
        return Some((Unit::Nanos, j));
    }
    if let Some(j) = try_tag(s, n, i, "micros") {
        return Some((Unit::Micros, j));
    }
    if let Some(j) = try_tag(s, n, i, "usec") {
        return Some((Unit::Micros, j));
    }
    if let Some(j) = try_tag(s, n, i, "us") {
        return Some((Unit::Micros, j));
    }
    if let Some(j) = try_tag(s, n, i, "millis") {
        return Some((Unit::Millis, j));
    }
    if let Some(j) = try_tag(s, n, i, "msec") {
        return Some((Unit::Millis, j));
    }
    if let Some(j) = try_tag(s, n, i, "ms") {
        return Some((Unit::Millis, j));
    }
    if let Some(j) = try_tag(s, n, i, "seconds") {
        return Some((Unit::Seconds, j));
    }
    if let Some(j) = try_tag(s, n, i, "second") {
        return Some((Unit::Seconds, j));
    }
    if let Some(j) = try_tag(s, n, i, "secs") {
        return Some((Unit::Seconds, j));
    }
    if let Some(j) = try_tag(s, n, i, "sec") {
        return Some((Unit::Seconds, j));
    }
    if let Some(j) = try_tag(s, n, i, "s") {
        return Some((Unit::Seconds, j));
    }
    if let Some(j) = try_tag(s, n, i, "minutes") {
        return Some((Unit::Minutes, j));
    }
    if let Some(j) = try_tag(s, n, i, "minute") {
        return Some((Unit::Minutes, j));
    }
    if let Some(j) = try_tag(s, n, i, "mins") {
        return Some((Unit::Minutes, j));
    }
    if let Some(j) = try_tag(s, n, i, "min") {
        return Some((Unit::Minutes, j));
    }
    if let Some(j) = try_tag(s, n, i, "m") {
        return Some((Unit::Minutes, j));
    }
    if let Some(j) = try_tag(s, n, i, "hours") {
        return Some((Unit::Hours, j));
    }
    if let Some(j) = try_tag(s, n, i, "hour") {
        return Some((Unit::Hours, j));
    }
    if let Some(j) = try_tag(s, n, i, "hrs") {
        return Some((Unit::Hours, j));
    }
    if let Some(j) = try_tag(s, n, i, "hr") {
        return Some((Unit::Hours, j));
    }
    if let Some(j) = try_tag(s, n, i, "h") {
        return Some((Unit::Hours, j));
    }
    if let Some(j) = try_tag(s, n, i, "H") {
        return Some((Unit::Hours, j));
    }
    None
}

} // verus!
