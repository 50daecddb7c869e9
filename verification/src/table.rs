//! The suffix table, as provable facts: when a table suffix stands at a
//! position and is delimited to the right -- by the end of the text, by a
//! blank, or by the word `and` -- the resolver maps it to its own unit.
//! One lemma per table entry and delimiter refutes every entry tried
//! before it.

use vstd::prelude::*;

use crate::resolve::{match_at, resolve_unit};
use crate::units::Unit;

verus! {

/// The pairs of the suffix table of the resolver, in no particular order:
/// each accepted spelling beside its unit.
pub open spec fn is_table_entry(sfx: Seq<char>, u: Unit) -> bool {

    (sfx == "months"@ && u == Unit::Months)
    || (sfx == "month"@ && u == Unit::Months)
    || (sfx == "mths"@ && u == Unit::Months)
    || (sfx == "mth"@ && u == Unit::Months)
    || (sfx == "M"@ && u == Unit::Months)
    || (sfx == "days"@ && u == Unit::Days)
    || (sfx == "day"@ && u == Unit::Days)
    || (sfx == "dys"@ && u == Unit::Days)
    || (sfx == "dy"@ && u == Unit::Days)
    || (sfx == "d"@ && u == Unit::Days)
    || (sfx == "D"@ && u == Unit::Days)
    || (sfx == "weeks"@ && u == Unit::Weeks)
    || (sfx == "week"@ && u == Unit::Weeks)
    || (sfx == "wks"@ && u == Unit::Weeks)
    || (sfx == "wk"@ && u == Unit::Weeks)
    || (sfx == "w"@ && u == Unit::Weeks)
    || (sfx == "W"@ && u == Unit::Weeks)
    || (sfx == "years"@ && u == Unit::Years)
    || (sfx == "year"@ && u == Unit::Years)
    || (sfx == "yrs"@ && u == Unit::Years)
    || (sfx == "yr"@ && u == Unit::Years)
    || (sfx == "y"@ && u == Unit::Years)
    || (sfx == "Y"@ && u == Unit::Years)
    || (sfx == "nanos"@ && u == Unit::Nanos)
    || (sfx == "nsec"@ && u == Unit::Nanos)
    || (sfx == "ns"@ && u == Unit::Nanos)
    || (sfx == "micros"@ && u == Unit::Micros)
    || (sfx == "usec"@ && u == Unit::Micros)
    || (sfx == "us"@ && u == Unit::Micros)
    || (sfx == "millis"@ && u == Unit::Millis)
    || (sfx == "msec"@ && u == Unit::Millis)
    || (sfx == "ms"@ && u == Unit::Millis)
    || (sfx == "seconds"@ && u == Unit::Seconds)
    || (sfx == "second"@ && u == Unit::Seconds)
    || (sfx == "secs"@ && u == Unit::Seconds)
    || (sfx == "sec"@ && u == Unit::Seconds)
    || (sfx == "s"@ && u == Unit::Seconds)
    || (sfx == "minutes"@ && u == Unit::Minutes)
    || (sfx == "minute"@ && u == Unit::Minutes)
    || (sfx == "mins"@ && u == Unit::Minutes)
    || (sfx == "min"@ && u == Unit::Minutes)
    || (sfx == "m"@ && u == Unit::Minutes)
    || (sfx == "hours"@ && u == Unit::Hours)
    || (sfx == "hour"@ && u == Unit::Hours)
    || (sfx == "hrs"@ && u == Unit::Hours)
    || (sfx == "hr"@ && u == Unit::Hours)
    || (sfx == "h"@ && u == Unit::Hours)
    || (sfx == "H"@ && u == Unit::Hours)
}


/// With `months` as the whole tail at `p`, the resolver yields `Months`.
proof fn lemma_tail_months_months(s: Seq<char>, p: int)
    requires
        0 <= p <= s.len(),
        s.subrange(p, s.len() as int) == "months"@,
    ensures
        resolve_unit(s, p) == Some((Unit::Months, s.len() as int)),
{
    reveal_strlit("months");
    reveal_strlit("month");
    reveal_strlit("mths");
    reveal_strlit("mth");
    reveal_strlit("M");
    reveal_strlit("days");
    reveal_strlit("day");
    reveal_strlit("dys");
    reveal_strlit("dy");
    reveal_strlit("d");
    reveal_strlit("D");
    reveal_strlit("weeks");
    reveal_strlit("week");
    reveal_strlit("wks");
    reveal_strlit("wk");
    reveal_strlit("w");
    reveal_strlit("W");
    reveal_strlit("years");
    reveal_strlit("year");
    reveal_strlit("yrs");
    reveal_strlit("yr");
    reveal_strlit("y");
    reveal_strlit("Y");
    reveal_strlit("nanos");
    reveal_strlit("nsec");
    reveal_strlit("ns");
    reveal_strlit("micros");
    reveal_strlit("usec");
    reveal_strlit("us");
    reveal_strlit("millis");
    reveal_strlit("msec");
    reveal_strlit("ms");
    reveal_strlit("seconds");
    reveal_strlit("second");
    reveal_strlit("secs");
    reveal_strlit("sec");
    reveal_strlit("s");
    reveal_strlit("minutes");
    reveal_strlit("minute");
    reveal_strlit("mins");
    reveal_strlit("min");
    reveal_strlit("m");
    reveal_strlit("hours");
    reveal_strlit("hour");
    reveal_strlit("hrs");
    reveal_strlit("hr");
    reveal_strlit("h");
    reveal_strlit("H");
    assert(s.len() - p == 6);
    assert(match_at(s, p, "months"@)) by {
        assert(s.subrange(p, p + 6) == s.subrange(p, s.len() as int));
    };
}

/// With `month` as the whole tail at `p`, the resolver yields `Months`.
proof fn lemma_tail_months_month(s: Seq<char>, p: int)
    requires
        0 <= p <= s.len(),
        s.subrange(p, s.len() as int) == "month"@,
    ensures
        resolve_unit(s, p) == Some((Unit::Months, s.len() as int)),
{
    reveal_strlit("months");
    reveal_strlit("month");
    reveal_strlit("mths");
    reveal_strlit("mth");
    reveal_strlit("M");
    reveal_strlit("days");
    reveal_strlit("day");
    reveal_strlit("dys");
    reveal_strlit("dy");
    reveal_strlit("d");
    reveal_strlit("D");
    reveal_strlit("weeks");
    reveal_strlit("week");
    reveal_strlit("wks");
    reveal_strlit("wk");
    reveal_strlit("w");
    reveal_strlit("W");
    reveal_strlit("years");
    reveal_strlit("year");
    reveal_strlit("yrs");
    reveal_strlit("yr");
    reveal_strlit("y");
    reveal_strlit("Y");
    reveal_strlit("nanos");
    reveal_strlit("nsec");
    reveal_strlit("ns");
    reveal_strlit("micros");
    reveal_strlit("usec");
    reveal_strlit("us");
    reveal_strlit("millis");
    reveal_strlit("msec");
    reveal_strlit("ms");
    reveal_strlit("seconds");
    reveal_strlit("second");
    reveal_strlit("secs");
    reveal_strlit("sec");
    reveal_strlit("s");
    reveal_strlit("minutes");
    reveal_strlit("minute");
    reveal_strlit("mins");
    reveal_strlit("min");
    reveal_strlit("m");
    reveal_strlit("hours");
    reveal_strlit("hour");
    reveal_strlit("hrs");
    reveal_strlit("hr");
    reveal_strlit("h");
    reveal_strlit("H");
    assert(s.len() - p == 5);
    assert(match_at(s, p, "month"@)) by {
        assert(s.subrange(p, p + 5) == s.subrange(p, s.len() as int));
    };
}

/// With `mths` as the whole tail at `p`, the resolver yields `Months`.
proof fn lemma_tail_months_mths(s: Seq<char>, p: int)
    requires
        0 <= p <= s.len(),
        s.subrange(p, s.len() as int) == "mths"@,
    ensures
        resolve_unit(s, p) == Some((Unit::Months, s.len() as int)),
{
    reveal_strlit("months");
    reveal_strlit("month");
    reveal_strlit("mths");
    reveal_strlit("mth");
    reveal_strlit("M");
    reveal_strlit("days");
    reveal_strlit("day");
    reveal_strlit("dys");
    reveal_strlit("dy");
    reveal_strlit("d");
    reveal_strlit("D");
    reveal_strlit("weeks");
    reveal_strlit("week");
    reveal_strlit("wks");
    reveal_strlit("wk");
    reveal_strlit("w");
    reveal_strlit("W");
    reveal_strlit("years");
    reveal_strlit("year");
    reveal_strlit("yrs");
    reveal_strlit("yr");
    reveal_strlit("y");
    reveal_strlit("Y");
    reveal_strlit("nanos");
    reveal_strlit("nsec");
    reveal_strlit("ns");
    reveal_strlit("micros");
    reveal_strlit("usec");
    reveal_strlit("us");
    reveal_strlit("millis");
    reveal_strlit("msec");
    reveal_strlit("ms");
    reveal_strlit("seconds");
    reveal_strlit("second");
    reveal_strlit("secs");
    reveal_strlit("sec");
    reveal_strlit("s");
    reveal_strlit("minutes");
    reveal_strlit("minute");
    reveal_strlit("mins");
    reveal_strlit("min");
    reveal_strlit("m");
    reveal_strlit("hours");
    reveal_strlit("hour");
    reveal_strlit("hrs");
    reveal_strlit("hr");
    reveal_strlit("h");
    reveal_strlit("H");
    assert(s.len() - p == 4);
    assert(match_at(s, p, "mths"@)) by {
        assert(s.subrange(p, p + 4) == s.subrange(p, s.len() as int));
    };
}

/// With `mth` as the whole tail at `p`, the resolver yields `Months`.
proof fn lemma_tail_months_mth(s: Seq<char>, p: int)
    requires
        0 <= p <= s.len(),
        s.subrange(p, s.len() as int) == "mth"@,
    ensures
        resolve_unit(s, p) == Some((Unit::Months, s.len() as int)),
{
    reveal_strlit("months");
    reveal_strlit("month");
    reveal_strlit("mths");
    reveal_strlit("mth");
    reveal_strlit("M");
    reveal_strlit("days");
    reveal_strlit("day");
    reveal_strlit("dys");
    reveal_strlit("dy");
    reveal_strlit("d");
    reveal_strlit("D");
    reveal_strlit("weeks");
    reveal_strlit("week");
    reveal_strlit("wks");
    reveal_strlit("wk");
    reveal_strlit("w");
    reveal_strlit("W");
    reveal_strlit("years");
    reveal_strlit("year");
    reveal_strlit("yrs");
    reveal_strlit("yr");
    reveal_strlit("y");
    reveal_strlit("Y");
    reveal_strlit("nanos");
    reveal_strlit("nsec");
    reveal_strlit("ns");
    reveal_strlit("micros");
    reveal_strlit("usec");
    reveal_strlit("us");
    reveal_strlit("millis");
    reveal_strlit("msec");
    reveal_strlit("ms");
    reveal_strlit("seconds");
    reveal_strlit("second");
    reveal_strlit("secs");
    reveal_strlit("sec");
    reveal_strlit("s");
    reveal_strlit("minutes");
    reveal_strlit("minute");
    reveal_strlit("mins");
    reveal_strlit("min");
    reveal_strlit("m");
    reveal_strlit("hours");
    reveal_strlit("hour");
    reveal_strlit("hrs");
    reveal_strlit("hr");
    reveal_strlit("h");
    reveal_strlit("H");
    assert(s.len() - p == 3);
    assert(match_at(s, p, "mth"@)) by {
        assert(s.subrange(p, p + 3) == s.subrange(p, s.len() as int));
    };
}

/// With `M` as the whole tail at `p`, the resolver yields `Months`.
proof fn lemma_tail_months_cap_m(s: Seq<char>, p: int)
    requires
        0 <= p <= s.len(),
        s.subrange(p, s.len() as int) == "M"@,
    ensures
        resolve_unit(s, p) == Some((Unit::Months, s.len() as int)),
{
    reveal_strlit("months");
    reveal_strlit("month");
    reveal_strlit("mths");
    reveal_strlit("mth");
    reveal_strlit("M");
    reveal_strlit("days");
    reveal_strlit("day");
    reveal_strlit("dys");
    reveal_strlit("dy");
    reveal_strlit("d");
    reveal_strlit("D");
    reveal_strlit("weeks");
    reveal_strlit("week");
    reveal_strlit("wks");
    reveal_strlit("wk");
    reveal_strlit("w");
    reveal_strlit("W");
    reveal_strlit("years");
    reveal_strlit("year");
    reveal_strlit("yrs");
    reveal_strlit("yr");
    reveal_strlit("y");
    reveal_strlit("Y");
    reveal_strlit("nanos");
    reveal_strlit("nsec");
    reveal_strlit("ns");
    reveal_strlit("micros");
    reveal_strlit("usec");
    reveal_strlit("us");
    reveal_strlit("millis");
    reveal_strlit("msec");
    reveal_strlit("ms");
    reveal_strlit("seconds");
    reveal_strlit("second");
    reveal_strlit("secs");
    reveal_strlit("sec");
    reveal_strlit("s");
    reveal_strlit("minutes");
    reveal_strlit("minute");
    reveal_strlit("mins");
    reveal_strlit("min");
    reveal_strlit("m");
    reveal_strlit("hours");
    reveal_strlit("hour");
    reveal_strlit("hrs");
    reveal_strlit("hr");
    reveal_strlit("h");
    reveal_strlit("H");
    assert(s.len() - p == 1);
    assert(match_at(s, p, "M"@)) by {
        assert(s.subrange(p, p + 1) == s.subrange(p, s.len() as int));
    };
}

/// With `days` as the whole tail at `p`, the resolver yields `Days`.
proof fn lemma_tail_days_days(s: Seq<char>, p: int)
    requires
        0 <= p <= s.len(),
        s.subrange(p, s.len() as int) == "days"@,
    ensures
        resolve_unit(s, p) == Some((Unit::Days, s.len() as int)),
{
    reveal_strlit("months");
    reveal_strlit("month");
    reveal_strlit("mths");
    reveal_strlit("mth");
    reveal_strlit("M");
    reveal_strlit("days");
    reveal_strlit("day");
    reveal_strlit("dys");
    reveal_strlit("dy");
    reveal_strlit("d");
    reveal_strlit("D");
    reveal_strlit("weeks");
    reveal_strlit("week");
    reveal_strlit("wks");
    reveal_strlit("wk");
    reveal_strlit("w");
    reveal_strlit("W");
    reveal_strlit("years");
    reveal_strlit("year");
    reveal_strlit("yrs");
    reveal_strlit("yr");
    reveal_strlit("y");
    reveal_strlit("Y");
    reveal_strlit("nanos");
    reveal_strlit("nsec");
    reveal_strlit("ns");
    reveal_strlit("micros");
    reveal_strlit("usec");
    reveal_strlit("us");
    reveal_strlit("millis");
    reveal_strlit("msec");
    reveal_strlit("ms");
    reveal_strlit("seconds");
    reveal_strlit("second");
    reveal_strlit("secs");
    reveal_strlit("sec");
    reveal_strlit("s");
    reveal_strlit("minutes");
    reveal_strlit("minute");
    reveal_strlit("mins");
    reveal_strlit("min");
    reveal_strlit("m");
    reveal_strlit("hours");
    reveal_strlit("hour");
    reveal_strlit("hrs");
    reveal_strlit("hr");
    reveal_strlit("h");
    reveal_strlit("H");
    assert(s.len() - p == 4);
    assert(!match_at(s, p, "mths"@)) by {
        if match_at(s, p, "mths"@) {
            assert(s.subrange(p, p + 4)[0] == s[p + 0]);
            assert(s.subrange(p, s.len() as int)[0] == s[p + 0]);
            assert(false);
        }
    };
    assert(!match_at(s, p, "mth"@)) by {
        if match_at(s, p, "mth"@) {
            assert(s.subrange(p, p + 3)[0] == s[p + 0]);
            assert(s.subrange(p, s.len() as int)[0] == s[p + 0]);
            assert(false);
        }
    };
    assert(!match_at(s, p, "M"@)) by {
        if match_at(s, p, "M"@) {
            assert(s.subrange(p, p + 1)[0] == s[p + 0]);
            assert(s.subrange(p, s.len() as int)[0] == s[p + 0]);
            assert(false);
        }
    };
    assert(match_at(s, p, "days"@)) by {
        assert(s.subrange(p, p + 4) == s.subrange(p, s.len() as int));
    };
}

/// With `day` as the whole tail at `p`, the resolver yields `Days`.
proof fn lemma_tail_days_day(s: Seq<char>, p: int)
    requires
        0 <= p <= s.len(),
        s.subrange(p, s.len() as int) == "day"@,
    ensures
        resolve_unit(s, p) == Some((Unit::Days, s.len() as int)),
{
    reveal_strlit("months");
    reveal_strlit("month");
    reveal_strlit("mths");
    reveal_strlit("mth");
    reveal_strlit("M");
    reveal_strlit("days");
    reveal_strlit("day");
    reveal_strlit("dys");
    reveal_strlit("dy");
    reveal_strlit("d");
    reveal_strlit("D");
    reveal_strlit("weeks");
    reveal_strlit("week");
    reveal_strlit("wks");
    reveal_strlit("wk");
    reveal_strlit("w");
    reveal_strlit("W");
    reveal_strlit("years");
    reveal_strlit("year");
    reveal_strlit("yrs");
    reveal_strlit("yr");
    reveal_strlit("y");
    reveal_strlit("Y");
    reveal_strlit("nanos");
    reveal_strlit("nsec");
    reveal_strlit("ns");
    reveal_strlit("micros");
    reveal_strlit("usec");
    reveal_strlit("us");
    reveal_strlit("millis");
    reveal_strlit("msec");
    reveal_strlit("ms");
    reveal_strlit("seconds");
    reveal_strlit("second");
    reveal_strlit("secs");
    reveal_strlit("sec");
    reveal_strlit("s");
    reveal_strlit("minutes");
    reveal_strlit("minute");
    reveal_strlit("mins");
    reveal_strlit("min");
    reveal_strlit("m");
    reveal_strlit("hours");
    reveal_strlit("hour");
    reveal_strlit("hrs");
    reveal_strlit("hr");
    reveal_strlit("h");
    reveal_strlit("H");
    assert(s.len() - p == 3);
    assert(!match_at(s, p, "mth"@)) by {
        if match_at(s, p, "mth"@) {
            assert(s.subrange(p, p + 3)[0] == s[p + 0]);
            assert(s.subrange(p, s.len() as int)[0] == s[p + 0]);
            assert(false);
        }
    };
    assert(!match_at(s, p, "M"@)) by {
        if match_at(s, p, "M"@) {
            assert(s.subrange(p, p + 1)[0] == s[p + 0]);
            assert(s.subrange(p, s.len() as int)[0] == s[p + 0]);
            assert(false);
        }
    };
    assert(match_at(s, p, "day"@)) by {
        assert(s.subrange(p, p + 3) == s.subrange(p, s.len() as int));
    };
}

/// With `dys` as the whole tail at `p`, the resolver yields `Days`.
proof fn lemma_tail_days_dys(s: Seq<char>, p: int)
    requires
        0 <= p <= s.len(),
        s.subrange(p, s.len() as int) == "dys"@,
    ensures
        resolve_unit(s, p) == Some((Unit::Days, s.len() as int)),
{
    reveal_strlit("months");
    reveal_strlit("month");
    reveal_strlit("mths");
    reveal_strlit("mth");
    reveal_strlit("M");
    reveal_strlit("days");
    reveal_strlit("day");
    reveal_strlit("dys");
    reveal_strlit("dy");
    reveal_strlit("d");
    reveal_strlit("D");
    reveal_strlit("weeks");
    reveal_strlit("week");
    reveal_strlit("wks");
    reveal_strlit("wk");
    reveal_strlit("w");
    reveal_strlit("W");
    reveal_strlit("years");
    reveal_strlit("year");
    reveal_strlit("yrs");
    reveal_strlit("yr");
    reveal_strlit("y");
    reveal_strlit("Y");
    reveal_strlit("nanos");
    reveal_strlit("nsec");
    reveal_strlit("ns");
    reveal_strlit("micros");
    reveal_strlit("usec");
    reveal_strlit("us");
    reveal_strlit("millis");
    reveal_strlit("msec");
    reveal_strlit("ms");
    reveal_strlit("seconds");
    reveal_strlit("second");
    reveal_strlit("secs");
    reveal_strlit("sec");
    reveal_strlit("s");
    reveal_strlit("minutes");
    reveal_strlit("minute");
    reveal_strlit("mins");
    reveal_strlit("min");
    reveal_strlit("m");
    reveal_strlit("hours");
    reveal_strlit("hour");
    reveal_strlit("hrs");
    reveal_strlit("hr");
    reveal_strlit("h");
    reveal_strlit("H");
    assert(s.len() - p == 3);
    assert(!match_at(s, p, "mth"@)) by {
        if match_at(s, p, "mth"@) {
            assert(s.subrange(p, p + 3)[0] == s[p + 0]);
            assert(s.subrange(p, s.len() as int)[0] == s[p + 0]);
            assert(false);
        }
    };
    assert(!match_at(s, p, "M"@)) by {
        if match_at(s, p, "M"@) {
            assert(s.subrange(p, p + 1)[0] == s[p + 0]);
            assert(s.subrange(p, s.len() as int)[0] == s[p + 0]);
            assert(false);
        }
    };
    assert(!match_at(s, p, "day"@)) by {
        if match_at(s, p, "day"@) {
            assert(s.subrange(p, p + 3)[1] == s[p + 1]);
            assert(s.subrange(p, s.len() as int)[1] == s[p + 1]);
            assert(false);
        }
    };
    assert(match_at(s, p, "dys"@)) by {
        assert(s.subrange(p, p + 3) == s.subrange(p, s.len() as int));
    };
}

/// With `dy` as the whole tail at `p`, the resolver yields `Days`.
proof fn lemma_tail_days_dy(s: Seq<char>, p: int)
    requires
        0 <= p <= s.len(),
        s.subrange(p, s.len() as int) == "dy"@,
    ensures
        resolve_unit(s, p) == Some((Unit::Days, s.len() as int)),
{
    reveal_strlit("months");
    reveal_strlit("month");
    reveal_strlit("mths");
    reveal_strlit("mth");
    reveal_strlit("M");
    reveal_strlit("days");
    reveal_strlit("day");
    reveal_strlit("dys");
    reveal_strlit("dy");
    reveal_strlit("d");
    reveal_strlit("D");
    reveal_strlit("weeks");
    reveal_strlit("week");
    reveal_strlit("wks");
    reveal_strlit("wk");
    reveal_strlit("w");
    reveal_strlit("W");
    reveal_strlit("years");
    reveal_strlit("year");
    reveal_strlit("yrs");
    reveal_strlit("yr");
    reveal_strlit("y");
    reveal_strlit("Y");
    reveal_strlit("nanos");
    reveal_strlit("nsec");
    reveal_strlit("ns");
    reveal_strlit("micros");
    reveal_strlit("usec");
    reveal_strlit("us");
    reveal_strlit("millis");
    reveal_strlit("msec");
    reveal_strlit("ms");
    reveal_strlit("seconds");
    reveal_strlit("second");
    reveal_strlit("secs");
    reveal_strlit("sec");
    reveal_strlit("s");
    reveal_strlit("minutes");
    reveal_strlit("minute");
    reveal_strlit("mins");
    reveal_strlit("min");
    reveal_strlit("m");
    reveal_strlit("hours");
    reveal_strlit("hour");
    reveal_strlit("hrs");
    reveal_strlit("hr");
    reveal_strlit("h");
    reveal_strlit("H");
    assert(s.len() - p == 2);
    assert(!match_at(s, p, "M"@)) by {
        if match_at(s, p, "M"@) {
            assert(s.subrange(p, p + 1)[0] == s[p + 0]);
            assert(s.subrange(p, s.len() as int)[0] == s[p + 0]);
            assert(false);
        }
    };
    assert(match_at(s, p, "dy"@)) by {
        assert(s.subrange(p, p + 2) == s.subrange(p, s.len() as int));
    };
}

/// With `d` as the whole tail at `p`, the resolver yields `Days`.
proof fn lemma_tail_days_d(s: Seq<char>, p: int)
    requires
        0 <= p <= s.len(),
        s.subrange(p, s.len() as int) == "d"@,
    ensures
        resolve_unit(s, p) == Some((Unit::Days, s.len() as int)),
{
    reveal_strlit("months");
    reveal_strlit("month");
    reveal_strlit("mths");
    reveal_strlit("mth");
    reveal_strlit("M");
    reveal_strlit("days");
    reveal_strlit("day");
    reveal_strlit("dys");
    reveal_strlit("dy");
    reveal_strlit("d");
    reveal_strlit("D");
    reveal_strlit("weeks");
    reveal_strlit("week");
    reveal_strlit("wks");
    reveal_strlit("wk");
    reveal_strlit("w");
    reveal_strlit("W");
    reveal_strlit("years");
    reveal_strlit("year");
    reveal_strlit("yrs");
    reveal_strlit("yr");
    reveal_strlit("y");
    reveal_strlit("Y");
    reveal_strlit("nanos");
    reveal_strlit("nsec");
    reveal_strlit("ns");
    reveal_strlit("micros");
    reveal_strlit("usec");
    reveal_strlit("us");
    reveal_strlit("millis");
    reveal_strlit("msec");
    reveal_strlit("ms");
    reveal_strlit("seconds");
    reveal_strlit("second");
    reveal_strlit("secs");
    reveal_strlit("sec");
    reveal_strlit("s");
    reveal_strlit("minutes");
    reveal_strlit("minute");
    reveal_strlit("mins");
    reveal_strlit("min");
    reveal_strlit("m");
    reveal_strlit("hours");
    reveal_strlit("hour");
    reveal_strlit("hrs");
    reveal_strlit("hr");
    reveal_strlit("h");
    reveal_strlit("H");
    assert(s.len() - p == 1);
    assert(!match_at(s, p, "M"@)) by {
        if match_at(s, p, "M"@) {
            assert(s.subrange(p, p + 1)[0] == s[p + 0]);
            assert(s.subrange(p, s.len() as int)[0] == s[p + 0]);
            assert(false);
        }
    };
    assert(match_at(s, p, "d"@)) by {
        assert(s.subrange(p, p + 1) == s.subrange(p, s.len() as int));
    };
}

/// With `D` as the whole tail at `p`, the resolver yields `Days`.
proof fn lemma_tail_days_cap_d(s: Seq<char>, p: int)
    requires
        0 <= p <= s.len(),
        s.subrange(p, s.len() as int) == "D"@,
    ensures
        resolve_unit(s, p) == Some((Unit::Days, s.len() as int)),
{
    reveal_strlit("months");
    reveal_strlit("month");
    reveal_strlit("mths");
    reveal_strlit("mth");
    reveal_strlit("M");
    reveal_strlit("days");
    reveal_strlit("day");
    reveal_strlit("dys");
    reveal_strlit("dy");
    reveal_strlit("d");
    reveal_strlit("D");
    reveal_strlit("weeks");
    reveal_strlit("week");
    reveal_strlit("wks");
    reveal_strlit("wk");
    reveal_strlit("w");
    reveal_strlit("W");
    reveal_strlit("years");
    reveal_strlit("year");
    reveal_strlit("yrs");
    reveal_strlit("yr");
    reveal_strlit("y");
    reveal_strlit("Y");
    reveal_strlit("nanos");
    reveal_strlit("nsec");
    reveal_strlit("ns");
    reveal_strlit("micros");
    reveal_strlit("usec");
    reveal_strlit("us");
    reveal_strlit("millis");
    reveal_strlit("msec");
    reveal_strlit("ms");
    reveal_strlit("seconds");
    reveal_strlit("second");
    reveal_strlit("secs");
    reveal_strlit("sec");
    reveal_strlit("s");
    reveal_strlit("minutes");
    reveal_strlit("minute");
    reveal_strlit("mins");
    reveal_strlit("min");
    reveal_strlit("m");
    reveal_strlit("hours");
    reveal_strlit("hour");
    reveal_strlit("hrs");
    reveal_strlit("hr");
    reveal_strlit("h");
    reveal_strlit("H");
    assert(s.len() - p == 1);
    assert(!match_at(s, p, "M"@)) by {
        if match_at(s, p, "M"@) {
            assert(s.subrange(p, p + 1)[0] == s[p + 0]);
            assert(s.subrange(p, s.len() as int)[0] == s[p + 0]);
            assert(false);
        }
    };
    assert(!match_at(s, p, "d"@)) by {
        if match_at(s, p, "d"@) {
            assert(s.subrange(p, p + 1)[0] == s[p + 0]);
            assert(s.subrange(p, s.len() as int)[0] == s[p + 0]);
            assert(false);
        }
    };
    assert(match_at(s, p, "D"@)) by {
        assert(s.subrange(p, p + 1) == s.subrange(p, s.len() as int));
    };
}

/// With `weeks` as the whole tail at `p`, the resolver yields `Weeks`.
proof fn lemma_tail_weeks_weeks(s: Seq<char>, p: int)
    requires
        0 <= p <= s.len(),
        s.subrange(p, s.len() as int) == "weeks"@,
    ensures
        resolve_unit(s, p) == Some((Unit::Weeks, s.len() as int)),
{
    reveal_strlit("months");
    reveal_strlit("month");
    reveal_strlit("mths");
    reveal_strlit("mth");
    reveal_strlit("M");
    reveal_strlit("days");
    reveal_strlit("day");
    reveal_strlit("dys");
    reveal_strlit("dy");
    reveal_strlit("d");
    reveal_strlit("D");
    reveal_strlit("weeks");
    reveal_strlit("week");
    reveal_strlit("wks");
    reveal_strlit("wk");
    reveal_strlit("w");
    reveal_strlit("W");
    reveal_strlit("years");
    reveal_strlit("year");
    reveal_strlit("yrs");
    reveal_strlit("yr");
    reveal_strlit("y");
    reveal_strlit("Y");
    reveal_strlit("nanos");
    reveal_strlit("nsec");
    reveal_strlit("ns");
    reveal_strlit("micros");
    reveal_strlit("usec");
    reveal_strlit("us");
    reveal_strlit("millis");
    reveal_strlit("msec");
    reveal_strlit("ms");
    reveal_strlit("seconds");
    reveal_strlit("second");
    reveal_strlit("secs");
    reveal_strlit("sec");
    reveal_strlit("s");
    reveal_strlit("minutes");
    reveal_strlit("minute");
    reveal_strlit("mins");
    reveal_strlit("min");
    reveal_strlit("m");
    reveal_strlit("hours");
    reveal_strlit("hour");
    reveal_strlit("hrs");
    reveal_strlit("hr");
    reveal_strlit("h");
    reveal_strlit("H");
    assert(s.len() - p == 5);
    assert(!match_at(s, p, "month"@)) by {
        if match_at(s, p, "month"@) {
            assert(s.subrange(p, p + 5)[0] == s[p + 0]);
            assert(s.subrange(p, s.len() as int)[0] == s[p + 0]);
            assert(false);
        }
    };
    assert(!match_at(s, p, "mths"@)) by {
        if match_at(s, p, "mths"@) {
            assert(s.subrange(p, p + 4)[0] == s[p + 0]);
            assert(s.subrange(p, s.len() as int)[0] == s[p + 0]);
            assert(false);
        }
    };
    assert(!match_at(s, p, "mth"@)) by {
        if match_at(s, p, "mth"@) {
            assert(s.subrange(p, p + 3)[0] == s[p + 0]);
            assert(s.subrange(p, s.len() as int)[0] == s[p + 0]);
            assert(false);
        }
    };
    assert(!match_at(s, p, "M"@)) by {
        if match_at(s, p, "M"@) {
            assert(s.subrange(p, p + 1)[0] == s[p + 0]);
            assert(s.subrange(p, s.len() as int)[0] == s[p + 0]);
            assert(false);
        }
    };
    assert(!match_at(s, p, "days"@)) by {
        if match_at(s, p, "days"@) {
            assert(s.subrange(p, p + 4)[0] == s[p + 0]);
            assert(s.subrange(p, s.len() as int)[0] == s[p + 0]);
            assert(false);
        }
    };
    assert(!match_at(s, p, "day"@)) by {
        if match_at(s, p, "day"@) {
            assert(s.subrange(p, p + 3)[0] == s[p + 0]);
            assert(s.subrange(p, s.len() as int)[0] == s[p + 0]);
            assert(false);
        }
    };
    assert(!match_at(s, p, "dys"@)) by {
        if match_at(s, p, "dys"@) {
            assert(s.subrange(p, p + 3)[0] == s[p + 0]);
            assert(s.subrange(p, s.len() as int)[0] == s[p + 0]);
            assert(false);
        }
    };
    assert(!match_at(s, p, "dy"@)) by {
        if match_at(s, p, "dy"@) {
            assert(s.subrange(p, p + 2)[0] == s[p + 0]);
            assert(s.subrange(p, s.len() as int)[0] == s[p + 0]);
            assert(false);
        }
    };
    assert(!match_at(s, p, "d"@)) by {
        if match_at(s, p, "d"@) {
            assert(s.subrange(p, p + 1)[0] == s[p + 0]);
            assert(s.subrange(p, s.len() as int)[0] == s[p + 0]);
            assert(false);
        }
    };
    assert(!match_at(s, p, "D"@)) by {
        if match_at(s, p, "D"@) {
            assert(s.subrange(p, p + 1)[0] == s[p + 0]);
            assert(s.subrange(p, s.len() as int)[0] == s[p + 0]);
            assert(false);
        }
    };
    assert(match_at(s, p, "weeks"@)) by {
        assert(s.subrange(p, p + 5) == s.subrange(p, s.len() as int));
    };
}

/// With `week` as the whole tail at `p`, the resolver yields `Weeks`.
proof fn lemma_tail_weeks_week(s: Seq<char>, p: int)
    requires
        0 <= p <= s.len(),
        s.subrange(p, s.len() as int) == "week"@,
    ensures
        resolve_unit(s, p) == Some((Unit::Weeks, s.len() as int)),
{
    reveal_strlit("months");
    reveal_strlit("month");
    reveal_strlit("mths");
    reveal_strlit("mth");
    reveal_strlit("M");
    reveal_strlit("days");
    reveal_strlit("day");
    reveal_strlit("dys");
    reveal_strlit("dy");
    reveal_strlit("d");
    reveal_strlit("D");
    reveal_strlit("weeks");
    reveal_strlit("week");
    reveal_strlit("wks");
    reveal_strlit("wk");
    reveal_strlit("w");
    reveal_strlit("W");
    reveal_strlit("years");
    reveal_strlit("year");
    reveal_strlit("yrs");
    reveal_strlit("yr");
    reveal_strlit("y");
    reveal_strlit("Y");
    reveal_strlit("nanos");
    reveal_strlit("nsec");
    reveal_strlit("ns");
    reveal_strlit("micros");
    reveal_strlit("usec");
    reveal_strlit("us");
    reveal_strlit("millis");
    reveal_strlit("msec");
    reveal_strlit("ms");
    reveal_strlit("seconds");
    reveal_strlit("second");
    reveal_strlit("secs");
    reveal_strlit("sec");
    reveal_strlit("s");
    reveal_strlit("minutes");
    reveal_strlit("minute");
    reveal_strlit("mins");
    reveal_strlit("min");
    reveal_strlit("m");
    reveal_strlit("hours");
    reveal_strlit("hour");
    reveal_strlit("hrs");
    reveal_strlit("hr");
    reveal_strlit("h");
    reveal_strlit("H");
    assert(s.len() - p == 4);
    assert(!match_at(s, p, "mths"@)) by {
        if match_at(s, p, "mths"@) {
            assert(s.subrange(p, p + 4)[0] == s[p + 0]);
            assert(s.subrange(p, s.len() as int)[0] == s[p + 0]);
            assert(false);
        }
    };
    assert(!match_at(s, p, "mth"@)) by {
        if match_at(s, p, "mth"@) {
            assert(s.subrange(p, p + 3)[0] == s[p + 0]);
            assert(s.subrange(p, s.len() as int)[0] == s[p + 0]);
            assert(false);
        }
    };
    assert(!match_at(s, p, "M"@)) by {
        if match_at(s, p, "M"@) {
            assert(s.subrange(p, p + 1)[0] == s[p + 0]);
            assert(s.subrange(p, s.len() as int)[0] == s[p + 0]);
            assert(false);
        }
    };
    assert(!match_at(s, p, "days"@)) by {
        if match_at(s, p, "days"@) {
            assert(s.subrange(p, p + 4)[0] == s[p + 0]);
            assert(s.subrange(p, s.len() as int)[0] == s[p + 0]);
            assert(false);
        }
    };
    assert(!match_at(s, p, "day"@)) by {
        if match_at(s, p, "day"@) {
            assert(s.subrange(p, p + 3)[0] == s[p + 0]);
            assert(s.subrange(p, s.len() as int)[0] == s[p + 0]);
            assert(false);
        }
    };
    assert(!match_at(s, p, "dys"@)) by {
        if match_at(s, p, "dys"@) {
            assert(s.subrange(p, p + 3)[0] == s[p + 0]);
            assert(s.subrange(p, s.len() as int)[0] == s[p + 0]);
            assert(false);
        }
    };
    assert(!match_at(s, p, "dy"@)) by {
        if match_at(s, p, "dy"@) {
            assert(s.subrange(p, p + 2)[0] == s[p + 0]);
            assert(s.subrange(p, s.len() as int)[0] == s[p + 0]);
            assert(false);
        }
    };
    assert(!match_at(s, p, "d"@)) by {
        if match_at(s, p, "d"@) {
            assert(s.subrange(p, p + 1)[0] == s[p + 0]);
            assert(s.subrange(p, s.len() as int)[0] == s[p + 0]);
            assert(false);
        }
    };
    assert(!match_at(s, p, "D"@)) by {
        if match_at(s, p, "D"@) {
            assert(s.subrange(p, p + 1)[0] == s[p + 0]);
            assert(s.subrange(p, s.len() as int)[0] == s[p + 0]);
            assert(false);
        }
    };
    assert(match_at(s, p, "week"@)) by {
        assert(s.subrange(p, p + 4) == s.subrange(p, s.len() as int));
    };
}

/// With `wks` as the whole tail at `p`, the resolver yields `Weeks`.
proof fn lemma_tail_weeks_wks(s: Seq<char>, p: int)
    requires
        0 <= p <= s.len(),
        s.subrange(p, s.len() as int) == "wks"@,
    ensures
        resolve_unit(s, p) == Some((Unit::Weeks, s.len() as int)),
{
    reveal_strlit("months");
    reveal_strlit("month");
    reveal_strlit("mths");
    reveal_strlit("mth");
    reveal_strlit("M");
    reveal_strlit("days");
    reveal_strlit("day");
    reveal_strlit("dys");
    reveal_strlit("dy");
    reveal_strlit("d");
    reveal_strlit("D");
    reveal_strlit("weeks");
    reveal_strlit("week");
    reveal_strlit("wks");
    reveal_strlit("wk");
    reveal_strlit("w");
    reveal_strlit("W");
    reveal_strlit("years");
    reveal_strlit("year");
    reveal_strlit("yrs");
    reveal_strlit("yr");
    reveal_strlit("y");
    reveal_strlit("Y");
    reveal_strlit("nanos");
    reveal_strlit("nsec");
    reveal_strlit("ns");
    reveal_strlit("micros");
    reveal_strlit("usec");
    reveal_strlit("us");
    reveal_strlit("millis");
    reveal_strlit("msec");
    reveal_strlit("ms");
    reveal_strlit("seconds");
    reveal_strlit("second");
    reveal_strlit("secs");
    reveal_strlit("sec");
    reveal_strlit("s");
    reveal_strlit("minutes");
    reveal_strlit("minute");
    reveal_strlit("mins");
    reveal_strlit("min");
    reveal_strlit("m");
    reveal_strlit("hours");
    reveal_strlit("hour");
    reveal_strlit("hrs");
    reveal_strlit("hr");
    reveal_strlit("h");
    reveal_strlit("H");
    assert(s.len() - p == 3);
    assert(!match_at(s, p, "mth"@)) by {
        if match_at(s, p, "mth"@) {
            assert(s.subrange(p, p + 3)[0] == s[p + 0]);
            assert(s.subrange(p, s.len() as int)[0] == s[p + 0]);
            assert(false);
        }
    };
    assert(!match_at(s, p, "M"@)) by {
        if match_at(s, p, "M"@) {
            assert(s.subrange(p, p + 1)[0] == s[p + 0]);
            assert(s.subrange(p, s.len() as int)[0] == s[p + 0]);
            assert(false);
        }
    };
    assert(!match_at(s, p, "day"@)) by {
        if match_at(s, p, "day"@) {
            assert(s.subrange(p, p + 3)[0] == s[p + 0]);
            assert(s.subrange(p, s.len() as int)[0] == s[p + 0]);
            assert(false);
        }
    };
    assert(!match_at(s, p, "dys"@)) by {
        if match_at(s, p, "dys"@) {
            assert(s.subrange(p, p + 3)[0] == s[p + 0]);
            assert(s.subrange(p, s.len() as int)[0] == s[p + 0]);
            assert(false);
        }
    };
    assert(!match_at(s, p, "dy"@)) by {
        if match_at(s, p, "dy"@) {
            assert(s.subrange(p, p + 2)[0] == s[p + 0]);
            assert(s.subrange(p, s.len() as int)[0] == s[p + 0]);
            assert(false);
        }
    };
    assert(!match_at(s, p, "d"@)) by {
        if match_at(s, p, "d"@) {
            assert(s.subrange(p, p + 1)[0] == s[p + 0]);
            assert(s.subrange(p, s.len() as int)[0] == s[p + 0]);
            assert(false);
        }
    };
    assert(!match_at(s, p, "D"@)) by {
        if match_at(s, p, "D"@) {
            assert(s.subrange(p, p + 1)[0] == s[p + 0]);
            assert(s.subrange(p, s.len() as int)[0] == s[p + 0]);
            assert(false);
        }
    };
    assert(match_at(s, p, "wks"@)) by {
        assert(s.subrange(p, p + 3) == s.subrange(p, s.len() as int));
    };
}

/// With `wk` as the whole tail at `p`, the resolver yields `Weeks`.
proof fn lemma_tail_weeks_wk(s: Seq<char>, p: int)
    requires
        0 <= p <= s.len(),
        s.subrange(p, s.len() as int) == "wk"@,
    ensures
        resolve_unit(s, p) == Some((Unit::Weeks, s.len() as int)),
{
    reveal_strlit("months");
    reveal_strlit("month");
    reveal_strlit("mths");
    reveal_strlit("mth");
    reveal_strlit("M");
    reveal_strlit("days");
    reveal_strlit("day");
    reveal_strlit("dys");
    reveal_strlit("dy");
    reveal_strlit("d");
    reveal_strlit("D");
    reveal_strlit("weeks");
    reveal_strlit("week");
    reveal_strlit("wks");
    reveal_strlit("wk");
    reveal_strlit("w");
    reveal_strlit("W");
    reveal_strlit("years");
    reveal_strlit("year");
    reveal_strlit("yrs");
    reveal_strlit("yr");
    reveal_strlit("y");
    reveal_strlit("Y");
    reveal_strlit("nanos");
    reveal_strlit("nsec");
    reveal_strlit("ns");
    reveal_strlit("micros");
    reveal_strlit("usec");
    reveal_strlit("us");
    reveal_strlit("millis");
    reveal_strlit("msec");
    reveal_strlit("ms");
    reveal_strlit("seconds");
    reveal_strlit("second");
    reveal_strlit("secs");
    reveal_strlit("sec");
    reveal_strlit("s");
    reveal_strlit("minutes");
    reveal_strlit("minute");
    reveal_strlit("mins");
    reveal_strlit("min");
    reveal_strlit("m");
    reveal_strlit("hours");
    reveal_strlit("hour");
    reveal_strlit("hrs");
    reveal_strlit("hr");
    reveal_strlit("h");
    reveal_strlit("H");
    assert(s.len() - p == 2);
    assert(!match_at(s, p, "M"@)) by {
        if match_at(s, p, "M"@) {
            assert(s.subrange(p, p + 1)[0] == s[p + 0]);
            assert(s.subrange(p, s.len() as int)[0] == s[p + 0]);
            assert(false);
        }
    };
    assert(!match_at(s, p, "dy"@)) by {
        if match_at(s, p, "dy"@) {
            assert(s.subrange(p, p + 2)[0] == s[p + 0]);
            assert(s.subrange(p, s.len() as int)[0] == s[p + 0]);
            assert(false);
        }
    };
    assert(!match_at(s, p, "d"@)) by {
        if match_at(s, p, "d"@) {
            assert(s.subrange(p, p + 1)[0] == s[p + 0]);
            assert(s.subrange(p, s.len() as int)[0] == s[p + 0]);
            assert(false);
        }
    };
    assert(!match_at(s, p, "D"@)) by {
        if match_at(s, p, "D"@) {
            assert(s.subrange(p, p + 1)[0] == s[p + 0]);
            assert(s.subrange(p, s.len() as int)[0] == s[p + 0]);
            assert(false);
        }
    };
    assert(match_at(s, p, "wk"@)) by {
        assert(s.subrange(p, p + 2) == s.subrange(p, s.len() as int));
    };
}

/// With `w` as the whole tail at `p`, the resolver yields `Weeks`.
proof fn lemma_tail_weeks_w(s: Seq<char>, p: int)
    requires
        0 <= p <= s.len(),
        s.subrange(p, s.len() as int) == "w"@,
    ensures
        resolve_unit(s, p) == Some((Unit::Weeks, s.len() as int)),
{
    reveal_strlit("months");
    reveal_strlit("month");
    reveal_strlit("mths");
    reveal_strlit("mth");
    reveal_strlit("M");
    reveal_strlit("days");
    reveal_strlit("day");
    reveal_strlit("dys");
    reveal_strlit("dy");
    reveal_strlit("d");
    reveal_strlit("D");
    reveal_strlit("weeks");
    reveal_strlit("week");
    reveal_strlit("wks");
    reveal_strlit("wk");
    reveal_strlit("w");
    reveal_strlit("W");
    reveal_strlit("years");
    reveal_strlit("year");
    reveal_strlit("yrs");
    reveal_strlit("yr");
    reveal_strlit("y");
    reveal_strlit("Y");
    reveal_strlit("nanos");
    reveal_strlit("nsec");
    reveal_strlit("ns");
    reveal_strlit("micros");
    reveal_strlit("usec");
    reveal_strlit("us");
    reveal_strlit("millis");
    reveal_strlit("msec");
    reveal_strlit("ms");
    reveal_strlit("seconds");
    reveal_strlit("second");
    reveal_strlit("secs");
    reveal_strlit("sec");
    reveal_strlit("s");
    reveal_strlit("minutes");
    reveal_strlit("minute");
    reveal_strlit("mins");
    reveal_strlit("min");
    reveal_strlit("m");
    reveal_strlit("hours");
    reveal_strlit("hour");
    reveal_strlit("hrs");
    reveal_strlit("hr");
    reveal_strlit("h");
    reveal_strlit("H");
    assert(s.len() - p == 1);
    assert(!match_at(s, p, "M"@)) by {
        if match_at(s, p, "M"@) {
            assert(s.subrange(p, p + 1)[0] == s[p + 0]);
            assert(s.subrange(p, s.len() as int)[0] == s[p + 0]);
            assert(false);
        }
    };
    assert(!match_at(s, p, "d"@)) by {
        if match_at(s, p, "d"@) {
            assert(s.subrange(p, p + 1)[0] == s[p + 0]);
            assert(s.subrange(p, s.len() as int)[0] == s[p + 0]);
            assert(false);
        }
    };
    assert(!match_at(s, p, "D"@)) by {
        if match_at(s, p, "D"@) {
            assert(s.subrange(p, p + 1)[0] == s[p + 0]);
            assert(s.subrange(p, s.len() as int)[0] == s[p + 0]);
            assert(false);
        }
    };
    assert(match_at(s, p, "w"@)) by {
        assert(s.subrange(p, p + 1) == s.subrange(p, s.len() as int));
    };
}

/// With `W` as the whole tail at `p`, the resolver yields `Weeks`.
proof fn lemma_tail_weeks_cap_w(s: Seq<char>, p: int)
    requires
        0 <= p <= s.len(),
        s.subrange(p, s.len() as int) == "W"@,
    ensures
        resolve_unit(s, p) == Some((Unit::Weeks, s.len() as int)),
{
    reveal_strlit("months");
    reveal_strlit("month");
    reveal_strlit("mths");
    reveal_strlit("mth");
    reveal_strlit("M");
    reveal_strlit("days");
    reveal_strlit("day");
    reveal_strlit("dys");
    reveal_strlit("dy");
    reveal_strlit("d");
    reveal_strlit("D");
    reveal_strlit("weeks");
    reveal_strlit("week");
    reveal_strlit("wks");
    reveal_strlit("wk");
    reveal_strlit("w");
    reveal_strlit("W");
    reveal_strlit("years");
    reveal_strlit("year");
    reveal_strlit("yrs");
    reveal_strlit("yr");
    reveal_strlit("y");
    reveal_strlit("Y");
    reveal_strlit("nanos");
    reveal_strlit("nsec");
    reveal_strlit("ns");
    reveal_strlit("micros");
    reveal_strlit("usec");
    reveal_strlit("us");
    reveal_strlit("millis");
    reveal_strlit("msec");
    reveal_strlit("ms");
    reveal_strlit("seconds");
    reveal_strlit("second");
    reveal_strlit("secs");
    reveal_strlit("sec");
    reveal_strlit("s");
    reveal_strlit("minutes");
    reveal_strlit("minute");
    reveal_strlit("mins");
    reveal_strlit("min");
    reveal_strlit("m");
    reveal_strlit("hours");
    reveal_strlit("hour");
    reveal_strlit("hrs");
    reveal_strlit("hr");
    reveal_strlit("h");
    reveal_strlit("H");
    assert(s.len() - p == 1);
    assert(!match_at(s, p, "M"@)) by {
        if match_at(s, p, "M"@) {
            assert(s.subrange(p, p + 1)[0] == s[p + 0]);
            assert(s.subrange(p, s.len() as int)[0] == s[p + 0]);
            assert(false);
        }
    };
    assert(!match_at(s, p, "d"@)) by {
        if match_at(s, p, "d"@) {
            assert(s.subrange(p, p + 1)[0] == s[p + 0]);
            assert(s.subrange(p, s.len() as int)[0] == s[p + 0]);
            assert(false);
        }
    };
    assert(!match_at(s, p, "D"@)) by {
        if match_at(s, p, "D"@) {
            assert(s.subrange(p, p + 1)[0] == s[p + 0]);
            assert(s.subrange(p, s.len() as int)[0] == s[p + 0]);
            assert(false);
        }
    };
    assert(!match_at(s, p, "w"@)) by {
        if match_at(s, p, "w"@) {
            assert(s.subrange(p, p + 1)[0] == s[p + 0]);
            assert(s.subrange(p, s.len() as int)[0] == s[p + 0]);
            assert(false);
        }
    };
    assert(match_at(s, p, "W"@)) by {
        assert(s.subrange(p, p + 1) == s.subrange(p, s.len() as int));
    };
}

/// With `years` as the whole tail at `p`, the resolver yields `Years`.
proof fn lemma_tail_years_years(s: Seq<char>, p: int)
    requires
        0 <= p <= s.len(),
        s.subrange(p, s.len() as int) == "years"@,
    ensures
        resolve_unit(s, p) == Some((Unit::Years, s.len() as int)),
{
    reveal_strlit("months");
    reveal_strlit("month");
    reveal_strlit("mths");
    reveal_strlit("mth");
    reveal_strlit("M");
    reveal_strlit("days");
    reveal_strlit("day");
    reveal_strlit("dys");
    reveal_strlit("dy");
    reveal_strlit("d");
    reveal_strlit("D");
    reveal_strlit("weeks");
    reveal_strlit("week");
    reveal_strlit("wks");
    reveal_strlit("wk");
    reveal_strlit("w");
    reveal_strlit("W");
    reveal_strlit("years");
    reveal_strlit("year");
    reveal_strlit("yrs");
    reveal_strlit("yr");
    reveal_strlit("y");
    reveal_strlit("Y");
    reveal_strlit("nanos");
    reveal_strlit("nsec");
    reveal_strlit("ns");
    reveal_strlit("micros");
    reveal_strlit("usec");
    reveal_strlit("us");
    reveal_strlit("millis");
    reveal_strlit("msec");
    reveal_strlit("ms");
    reveal_strlit("seconds");
    reveal_strlit("second");
    reveal_strlit("secs");
    reveal_strlit("sec");
    reveal_strlit("s");
    reveal_strlit("minutes");
    reveal_strlit("minute");
    reveal_strlit("mins");
    reveal_strlit("min");
    reveal_strlit("m");
    reveal_strlit("hours");
    reveal_strlit("hour");
    reveal_strlit("hrs");
    reveal_strlit("hr");
    reveal_strlit("h");
    reveal_strlit("H");
    assert(s.len() - p == 5);
    assert(!match_at(s, p, "month"@)) by {
        if match_at(s, p, "month"@) {
            assert(s.subrange(p, p + 5)[0] == s[p + 0]);
            assert(s.subrange(p, s.len() as int)[0] == s[p + 0]);
            assert(false);
        }
    };
    assert(!match_at(s, p, "mths"@)) by {
        if match_at(s, p, "mths"@) {
            assert(s.subrange(p, p + 4)[0] == s[p + 0]);
            assert(s.subrange(p, s.len() as int)[0] == s[p + 0]);
            assert(false);
        }
    };
    assert(!match_at(s, p, "mth"@)) by {
        if match_at(s, p, "mth"@) {
            assert(s.subrange(p, p + 3)[0] == s[p + 0]);
            assert(s.subrange(p, s.len() as int)[0] == s[p + 0]);
            assert(false);
        }
    };
    assert(!match_at(s, p, "M"@)) by {
        if match_at(s, p, "M"@) {
            assert(s.subrange(p, p + 1)[0] == s[p + 0]);
            assert(s.subrange(p, s.len() as int)[0] == s[p + 0]);
            assert(false);
        }
    };
    assert(!match_at(s, p, "days"@)) by {
        if match_at(s, p, "days"@) {
            assert(s.subrange(p, p + 4)[0] == s[p + 0]);
            assert(s.subrange(p, s.len() as int)[0] == s[p + 0]);
            assert(false);
        }
    };
    assert(!match_at(s, p, "day"@)) by {
        if match_at(s, p, "day"@) {
            assert(s.subrange(p, p + 3)[0] == s[p + 0]);
            assert(s.subrange(p, s.len() as int)[0] == s[p + 0]);
            assert(false);
        }
    };
    assert(!match_at(s, p, "dys"@)) by {
        if match_at(s, p, "dys"@) {
            assert(s.subrange(p, p + 3)[0] == s[p + 0]);
            assert(s.subrange(p, s.len() as int)[0] == s[p + 0]);
            assert(false);
        }
    };
    assert(!match_at(s, p, "dy"@)) by {
        if match_at(s, p, "dy"@) {
            assert(s.subrange(p, p + 2)[0] == s[p + 0]);
            assert(s.subrange(p, s.len() as int)[0] == s[p + 0]);
            assert(false);
        }
    };
    assert(!match_at(s, p, "d"@)) by {
        if match_at(s, p, "d"@) {
            assert(s.subrange(p, p + 1)[0] == s[p + 0]);
            assert(s.subrange(p, s.len() as int)[0] == s[p + 0]);
            assert(false);
        }
    };
    assert(!match_at(s, p, "D"@)) by {
        if match_at(s, p, "D"@) {
            assert(s.subrange(p, p + 1)[0] == s[p + 0]);
            assert(s.subrange(p, s.len() as int)[0] == s[p + 0]);
            assert(false);
        }
    };
    assert(!match_at(s, p, "weeks"@)) by {
        if match_at(s, p, "weeks"@) {
            assert(s.subrange(p, p + 5)[0] == s[p + 0]);
            assert(s.subrange(p, s.len() as int)[0] == s[p + 0]);
            assert(false);
        }
    };
    assert(!match_at(s, p, "week"@)) by {
        if match_at(s, p, "week"@) {
            assert(s.subrange(p, p + 4)[0] == s[p + 0]);
            assert(s.subrange(p, s.len() as int)[0] == s[p + 0]);
            assert(false);
        }
    };
    assert(!match_at(s, p, "wks"@)) by {
        if match_at(s, p, "wks"@) {
            assert(s.subrange(p, p + 3)[0] == s[p + 0]);
            assert(s.subrange(p, s.len() as int)[0] == s[p + 0]);
            assert(false);
        }
    };
    assert(!match_at(s, p, "wk"@)) by {
        if match_at(s, p, "wk"@) {
            assert(s.subrange(p, p + 2)[0] == s[p + 0]);
            assert(s.subrange(p, s.len() as int)[0] == s[p + 0]);
            assert(false);
        }
    };
    assert(!match_at(s, p, "w"@)) by {
        if match_at(s, p, "w"@) {
            assert(s.subrange(p, p + 1)[0] == s[p + 0]);
            assert(s.subrange(p, s.len() as int)[0] == s[p + 0]);
            assert(false);
        }
    };
    assert(!match_at(s, p, "W"@)) by {
        if match_at(s, p, "W"@) {
            assert(s.subrange(p, p + 1)[0] == s[p + 0]);
            assert(s.subrange(p, s.len() as int)[0] == s[p + 0]);
            assert(false);
        }
    };
    assert(match_at(s, p, "years"@)) by {
        assert(s.subrange(p, p + 5) == s.subrange(p, s.len() as int));
    };
}

/// With `year` as the whole tail at `p`, the resolver yields `Years`.
proof fn lemma_tail_years_year(s: Seq<char>, p: int)
    requires
        0 <= p <= s.len(),
        s.subrange(p, s.len() as int) == "year"@,
    ensures
        resolve_unit(s, p) == Some((Unit::Years, s.len() as int)),
{
    reveal_strlit("months");
    reveal_strlit("month");
    reveal_strlit("mths");
    reveal_strlit("mth");
    reveal_strlit("M");
    reveal_strlit("days");
    reveal_strlit("day");
    reveal_strlit("dys");
    reveal_strlit("dy");
    reveal_strlit("d");
    reveal_strlit("D");
    reveal_strlit("weeks");
    reveal_strlit("week");
    reveal_strlit("wks");
    reveal_strlit("wk");
    reveal_strlit("w");
    reveal_strlit("W");
    reveal_strlit("years");
    reveal_strlit("year");
    reveal_strlit("yrs");
    reveal_strlit("yr");
    reveal_strlit("y");
    reveal_strlit("Y");
    reveal_strlit("nanos");
    reveal_strlit("nsec");
    reveal_strlit("ns");
    reveal_strlit("micros");
    reveal_strlit("usec");
    reveal_strlit("us");
    reveal_strlit("millis");
    reveal_strlit("msec");
    reveal_strlit("ms");
    reveal_strlit("seconds");
    reveal_strlit("second");
    reveal_strlit("secs");
    reveal_strlit("sec");
    reveal_strlit("s");
    reveal_strlit("minutes");
    reveal_strlit("minute");
    reveal_strlit("mins");
    reveal_strlit("min");
    reveal_strlit("m");
    reveal_strlit("hours");
    reveal_strlit("hour");
    reveal_strlit("hrs");
    reveal_strlit("hr");
    reveal_strlit("h");
    reveal_strlit("H");
    assert(s.len() - p == 4);
    assert(!match_at(s, p, "mths"@)) by {
        if match_at(s, p, "mths"@) {
            assert(s.subrange(p, p + 4)[0] == s[p + 0]);
            assert(s.subrange(p, s.len() as int)[0] == s[p + 0]);
            assert(false);
        }
    };
    assert(!match_at(s, p, "mth"@)) by {
        if match_at(s, p, "mth"@) {
            assert(s.subrange(p, p + 3)[0] == s[p + 0]);
            assert(s.subrange(p, s.len() as int)[0] == s[p + 0]);
            assert(false);
        }
    };
    assert(!match_at(s, p, "M"@)) by {
        if match_at(s, p, "M"@) {
            assert(s.subrange(p, p + 1)[0] == s[p + 0]);
            assert(s.subrange(p, s.len() as int)[0] == s[p + 0]);
            assert(false);
        }
    };
    assert(!match_at(s, p, "days"@)) by {
        if match_at(s, p, "days"@) {
            assert(s.subrange(p, p + 4)[0] == s[p + 0]);
            assert(s.subrange(p, s.len() as int)[0] == s[p + 0]);
            assert(false);
        }
    };
    assert(!match_at(s, p, "day"@)) by {
        if match_at(s, p, "day"@) {
            assert(s.subrange(p, p + 3)[0] == s[p + 0]);
            assert(s.subrange(p, s.len() as int)[0] == s[p + 0]);
            assert(false);
        }
    };
    assert(!match_at(s, p, "dys"@)) by {
        if match_at(s, p, "dys"@) {
            assert(s.subrange(p, p + 3)[0] == s[p + 0]);
            assert(s.subrange(p, s.len() as int)[0] == s[p + 0]);
            assert(false);
        }
    };
    assert(!match_at(s, p, "dy"@)) by {
        if match_at(s, p, "dy"@) {
            assert(s.subrange(p, p + 2)[0] == s[p + 0]);
            assert(s.subrange(p, s.len() as int)[0] == s[p + 0]);
            assert(false);
        }
    };
    assert(!match_at(s, p, "d"@)) by {
        if match_at(s, p, "d"@) {
            assert(s.subrange(p, p + 1)[0] == s[p + 0]);
            assert(s.subrange(p, s.len() as int)[0] == s[p + 0]);
            assert(false);
        }
    };
    assert(!match_at(s, p, "D"@)) by {
        if match_at(s, p, "D"@) {
            assert(s.subrange(p, p + 1)[0] == s[p + 0]);
            assert(s.subrange(p, s.len() as int)[0] == s[p + 0]);
            assert(false);
        }
    };
    assert(!match_at(s, p, "week"@)) by {
        if match_at(s, p, "week"@) {
            assert(s.subrange(p, p + 4)[0] == s[p + 0]);
            assert(s.subrange(p, s.len() as int)[0] == s[p + 0]);
            assert(false);
        }
    };
    assert(!match_at(s, p, "wks"@)) by {
        if match_at(s, p, "wks"@) {
            assert(s.subrange(p, p + 3)[0] == s[p + 0]);
            assert(s.subrange(p, s.len() as int)[0] == s[p + 0]);
            assert(false);
        }
    };
    assert(!match_at(s, p, "wk"@)) by {
        if match_at(s, p, "wk"@) {
            assert(s.subrange(p, p + 2)[0] == s[p + 0]);
            assert(s.subrange(p, s.len() as int)[0] == s[p + 0]);
            assert(false);
        }
    };
    assert(!match_at(s, p, "w"@)) by {
        if match_at(s, p, "w"@) {
            assert(s.subrange(p, p + 1)[0] == s[p + 0]);
            assert(s.subrange(p, s.len() as int)[0] == s[p + 0]);
            assert(false);
        }
    };
    assert(!match_at(s, p, "W"@)) by {
        if match_at(s, p, "W"@) {
            assert(s.subrange(p, p + 1)[0] == s[p + 0]);
            assert(s.subrange(p, s.len() as int)[0] == s[p + 0]);
            assert(false);
        }
    };
    assert(match_at(s, p, "year"@)) by {
        assert(s.subrange(p, p + 4) == s.subrange(p, s.len() as int));
    };
}

/// With `yrs` as the whole tail at `p`, the resolver yields `Years`.
proof fn lemma_tail_years_yrs(s: Seq<char>, p: int)
    requires
        0 <= p <= s.len(),
        s.subrange(p, s.len() as int) == "yrs"@,
    ensures
        resolve_unit(s, p) == Some((Unit::Years, s.len() as int)),
{
    reveal_strlit("months");
    reveal_strlit("month");
    reveal_strlit("mths");
    reveal_strlit("mth");
    reveal_strlit("M");
    reveal_strlit("days");
    reveal_strlit("day");
    reveal_strlit("dys");
    reveal_strlit("dy");
    reveal_strlit("d");
    reveal_strlit("D");
    reveal_strlit("weeks");
    reveal_strlit("week");
    reveal_strlit("wks");
    reveal_strlit("wk");
    reveal_strlit("w");
    reveal_strlit("W");
    reveal_strlit("years");
    reveal_strlit("year");
    reveal_strlit("yrs");
    reveal_strlit("yr");
    reveal_strlit("y");
    reveal_strlit("Y");
    reveal_strlit("nanos");
    reveal_strlit("nsec");
    reveal_strlit("ns");
    reveal_strlit("micros");
    reveal_strlit("usec");
    reveal_strlit("us");
    reveal_strlit("millis");
    reveal_strlit("msec");
    reveal_strlit("ms");
    reveal_strlit("seconds");
    reveal_strlit("second");
    reveal_strlit("secs");
    reveal_strlit("sec");
    reveal_strlit("s");
    reveal_strlit("minutes");
    reveal_strlit("minute");
    reveal_strlit("mins");
    reveal_strlit("min");
    reveal_strlit("m");
    reveal_strlit("hours");
    reveal_strlit("hour");
    reveal_strlit("hrs");
    reveal_strlit("hr");
    reveal_strlit("h");
    reveal_strlit("H");
    assert(s.len() - p == 3);
    assert(!match_at(s, p, "mth"@)) by {
        if match_at(s, p, "mth"@) {
            assert(s.subrange(p, p + 3)[0] == s[p + 0]);
            assert(s.subrange(p, s.len() as int)[0] == s[p + 0]);
            assert(false);
        }
    };
    assert(!match_at(s, p, "M"@)) by {
        if match_at(s, p, "M"@) {
            assert(s.subrange(p, p + 1)[0] == s[p + 0]);
            assert(s.subrange(p, s.len() as int)[0] == s[p + 0]);
            assert(false);
        }
    };
    assert(!match_at(s, p, "day"@)) by {
        if match_at(s, p, "day"@) {
            assert(s.subrange(p, p + 3)[0] == s[p + 0]);
            assert(s.subrange(p, s.len() as int)[0] == s[p + 0]);
            assert(false);
        }
    };
    assert(!match_at(s, p, "dys"@)) by {
        if match_at(s, p, "dys"@) {
            assert(s.subrange(p, p + 3)[0] == s[p + 0]);
            assert(s.subrange(p, s.len() as int)[0] == s[p + 0]);
            assert(false);
        }
    };
    assert(!match_at(s, p, "dy"@)) by {
        if match_at(s, p, "dy"@) {
            assert(s.subrange(p, p + 2)[0] == s[p + 0]);
            assert(s.subrange(p, s.len() as int)[0] == s[p + 0]);
            assert(false);
        }
    };
    assert(!match_at(s, p, "d"@)) by {
        if match_at(s, p, "d"@) {
            assert(s.subrange(p, p + 1)[0] == s[p + 0]);
            assert(s.subrange(p, s.len() as int)[0] == s[p + 0]);
            assert(false);
        }
    };
    assert(!match_at(s, p, "D"@)) by {
        if match_at(s, p, "D"@) {
            assert(s.subrange(p, p + 1)[0] == s[p + 0]);
            assert(s.subrange(p, s.len() as int)[0] == s[p + 0]);
            assert(false);
        }
    };
    assert(!match_at(s, p, "wks"@)) by {
        if match_at(s, p, "wks"@) {
            assert(s.subrange(p, p + 3)[0] == s[p + 0]);
            assert(s.subrange(p, s.len() as int)[0] == s[p + 0]);
            assert(false);
        }
    };
    assert(!match_at(s, p, "wk"@)) by {
        if match_at(s, p, "wk"@) {
            assert(s.subrange(p, p + 2)[0] == s[p + 0]);
            assert(s.subrange(p, s.len() as int)[0] == s[p + 0]);
            assert(false);
        }
    };
    assert(!match_at(s, p, "w"@)) by {
        if match_at(s, p, "w"@) {
            assert(s.subrange(p, p + 1)[0] == s[p + 0]);
            assert(s.subrange(p, s.len() as int)[0] == s[p + 0]);
            assert(false);
        }
    };
    assert(!match_at(s, p, "W"@)) by {
        if match_at(s, p, "W"@) {
            assert(s.subrange(p, p + 1)[0] == s[p + 0]);
            assert(s.subrange(p, s.len() as int)[0] == s[p + 0]);
            assert(false);
        }
    };
    assert(match_at(s, p, "yrs"@)) by {
        assert(s.subrange(p, p + 3) == s.subrange(p, s.len() as int));
    };
}

/// With `yr` as the whole tail at `p`, the resolver yields `Years`.
proof fn lemma_tail_years_yr(s: Seq<char>, p: int)
    requires
        0 <= p <= s.len(),
        s.subrange(p, s.len() as int) == "yr"@,
    ensures
        resolve_unit(s, p) == Some((Unit::Years, s.len() as int)),
{
    reveal_strlit("months");
    reveal_strlit("month");
    reveal_strlit("mths");
    reveal_strlit("mth");
    reveal_strlit("M");
    reveal_strlit("days");
    reveal_strlit("day");
    reveal_strlit("dys");
    reveal_strlit("dy");
    reveal_strlit("d");
    reveal_strlit("D");
    reveal_strlit("weeks");
    reveal_strlit("week");
    reveal_strlit("wks");
    reveal_strlit("wk");
    reveal_strlit("w");
    reveal_strlit("W");
    reveal_strlit("years");
    reveal_strlit("year");
    reveal_strlit("yrs");
    reveal_strlit("yr");
    reveal_strlit("y");
    reveal_strlit("Y");
    reveal_strlit("nanos");
    reveal_strlit("nsec");
    reveal_strlit("ns");
    reveal_strlit("micros");
    reveal_strlit("usec");
    reveal_strlit("us");
    reveal_strlit("millis");
    reveal_strlit("msec");
    reveal_strlit("ms");
    reveal_strlit("seconds");
    reveal_strlit("second");
    reveal_strlit("secs");
    reveal_strlit("sec");
    reveal_strlit("s");
    reveal_strlit("minutes");
    reveal_strlit("minute");
    reveal_strlit("mins");
    reveal_strlit("min");
    reveal_strlit("m");
    reveal_strlit("hours");
    reveal_strlit("hour");
    reveal_strlit("hrs");
    reveal_strlit("hr");
    reveal_strlit("h");
    reveal_strlit("H");
    assert(s.len() - p == 2);
    assert(!match_at(s, p, "M"@)) by {
        if match_at(s, p, "M"@) {
            assert(s.subrange(p, p + 1)[0] == s[p + 0]);
            assert(s.subrange(p, s.len() as int)[0] == s[p + 0]);
            assert(false);
        }
    };
    assert(!match_at(s, p, "dy"@)) by {
        if match_at(s, p, "dy"@) {
            assert(s.subrange(p, p + 2)[0] == s[p + 0]);
            assert(s.subrange(p, s.len() as int)[0] == s[p + 0]);
            assert(false);
        }
    };
    assert(!match_at(s, p, "d"@)) by {
        if match_at(s, p, "d"@) {
            assert(s.subrange(p, p + 1)[0] == s[p + 0]);
            assert(s.subrange(p, s.len() as int)[0] == s[p + 0]);
            assert(false);
        }
    };
    assert(!match_at(s, p, "D"@)) by {
        if match_at(s, p, "D"@) {
            assert(s.subrange(p, p + 1)[0] == s[p + 0]);
            assert(s.subrange(p, s.len() as int)[0] == s[p + 0]);
            assert(false);
        }
    };
    assert(!match_at(s, p, "wk"@)) by {
        if match_at(s, p, "wk"@) {
            assert(s.subrange(p, p + 2)[0] == s[p + 0]);
            assert(s.subrange(p, s.len() as int)[0] == s[p + 0]);
            assert(false);
        }
    };
    assert(!match_at(s, p, "w"@)) by {
        if match_at(s, p, "w"@) {
            assert(s.subrange(p, p + 1)[0] == s[p + 0]);
            assert(s.subrange(p, s.len() as int)[0] == s[p + 0]);
            assert(false);
        }
    };
    assert(!match_at(s, p, "W"@)) by {
        if match_at(s, p, "W"@) {
            assert(s.subrange(p, p + 1)[0] == s[p + 0]);
            assert(s.subrange(p, s.len() as int)[0] == s[p + 0]);
            assert(false);
        }
    };
    assert(match_at(s, p, "yr"@)) by {
        assert(s.subrange(p, p + 2) == s.subrange(p, s.len() as int));
    };
}

/// With `y` as the whole tail at `p`, the resolver yields `Years`.
proof fn lemma_tail_years_y(s: Seq<char>, p: int)
    requires
        0 <= p <= s.len(),
        s.subrange(p, s.len() as int) == "y"@,
    ensures
        resolve_unit(s, p) == Some((Unit::Years, s.len() as int)),
{
    reveal_strlit("months");
    reveal_strlit("month");
    reveal_strlit("mths");
    reveal_strlit("mth");
    reveal_strlit("M");
    reveal_strlit("days");
    reveal_strlit("day");
    reveal_strlit("dys");
    reveal_strlit("dy");
    reveal_strlit("d");
    reveal_strlit("D");
    reveal_strlit("weeks");
    reveal_strlit("week");
    reveal_strlit("wks");
    reveal_strlit("wk");
    reveal_strlit("w");
    reveal_strlit("W");
    reveal_strlit("years");
    reveal_strlit("year");
    reveal_strlit("yrs");
    reveal_strlit("yr");
    reveal_strlit("y");
    reveal_strlit("Y");
    reveal_strlit("nanos");
    reveal_strlit("nsec");
    reveal_strlit("ns");
    reveal_strlit("micros");
    reveal_strlit("usec");
    reveal_strlit("us");
    reveal_strlit("millis");
    reveal_strlit("msec");
    reveal_strlit("ms");
    reveal_strlit("seconds");
    reveal_strlit("second");
    reveal_strlit("secs");
    reveal_strlit("sec");
    reveal_strlit("s");
    reveal_strlit("minutes");
    reveal_strlit("minute");
    reveal_strlit("mins");
    reveal_strlit("min");
    reveal_strlit("m");
    reveal_strlit("hours");
    reveal_strlit("hour");
    reveal_strlit("hrs");
    reveal_strlit("hr");
    reveal_strlit("h");
    reveal_strlit("H");
    assert(s.len() - p == 1);
    assert(!match_at(s, p, "M"@)) by {
        if match_at(s, p, "M"@) {
            assert(s.subrange(p, p + 1)[0] == s[p + 0]);
            assert(s.subrange(p, s.len() as int)[0] == s[p + 0]);
            assert(false);
        }
    };
    assert(!match_at(s, p, "d"@)) by {
        if match_at(s, p, "d"@) {
            assert(s.subrange(p, p + 1)[0] == s[p + 0]);
            assert(s.subrange(p, s.len() as int)[0] == s[p + 0]);
            assert(false);
        }
    };
    assert(!match_at(s, p, "D"@)) by {
        if match_at(s, p, "D"@) {
            assert(s.subrange(p, p + 1)[0] == s[p + 0]);
            assert(s.subrange(p, s.len() as int)[0] == s[p + 0]);
            assert(false);
        }
    };
    assert(!match_at(s, p, "w"@)) by {
        if match_at(s, p, "w"@) {
            assert(s.subrange(p, p + 1)[0] == s[p + 0]);
            assert(s.subrange(p, s.len() as int)[0] == s[p + 0]);
            assert(false);
        }
    };
    assert(!match_at(s, p, "W"@)) by {
        if match_at(s, p, "W"@) {
            assert(s.subrange(p, p + 1)[0] == s[p + 0]);
            assert(s.subrange(p, s.len() as int)[0] == s[p + 0]);
            assert(false);
        }
    };
    assert(match_at(s, p, "y"@)) by {
        assert(s.subrange(p, p + 1) == s.subrange(p, s.len() as int));
    };
}

/// With `Y` as the whole tail at `p`, the resolver yields `Years`.
proof fn lemma_tail_years_cap_y(s: Seq<char>, p: int)
    requires
        0 <= p <= s.len(),
        s.subrange(p, s.len() as int) == "Y"@,
    ensures
        resolve_unit(s, p) == Some((Unit::Years, s.len() as int)),
{
    reveal_strlit("months");
    reveal_strlit("month");
    reveal_strlit("mths");
    reveal_strlit("mth");
    reveal_strlit("M");
    reveal_strlit("days");
    reveal_strlit("day");
    reveal_strlit("dys");
    reveal_strlit("dy");
    reveal_strlit("d");
    reveal_strlit("D");
    reveal_strlit("weeks");
    reveal_strlit("week");
    reveal_strlit("wks");
    reveal_strlit("wk");
    reveal_strlit("w");
    reveal_strlit("W");
    reveal_strlit("years");
    reveal_strlit("year");
    reveal_strlit("yrs");
    reveal_strlit("yr");
    reveal_strlit("y");
    reveal_strlit("Y");
    reveal_strlit("nanos");
    reveal_strlit("nsec");
    reveal_strlit("ns");
    reveal_strlit("micros");
    reveal_strlit("usec");
    reveal_strlit("us");
    reveal_strlit("millis");
    reveal_strlit("msec");
    reveal_strlit("ms");
    reveal_strlit("seconds");
    reveal_strlit("second");
    reveal_strlit("secs");
    reveal_strlit("sec");
    reveal_strlit("s");
    reveal_strlit("minutes");
    reveal_strlit("minute");
    reveal_strlit("mins");
    reveal_strlit("min");
    reveal_strlit("m");
    reveal_strlit("hours");
    reveal_strlit("hour");
    reveal_strlit("hrs");
    reveal_strlit("hr");
    reveal_strlit("h");
    reveal_strlit("H");
    assert(s.len() - p == 1);
    assert(!match_at(s, p, "M"@)) by {
        if match_at(s, p, "M"@) {
            assert(s.subrange(p, p + 1)[0] == s[p + 0]);
            assert(s.subrange(p, s.len() as int)[0] == s[p + 0]);
            assert(false);
        }
    };
    assert(!match_at(s, p, "d"@)) by {
        if match_at(s, p, "d"@) {
            assert(s.subrange(p, p + 1)[0] == s[p + 0]);
            assert(s.subrange(p, s.len() as int)[0] == s[p + 0]);
            assert(false);
        }
    };
    assert(!match_at(s, p, "D"@)) by {
        if match_at(s, p, "D"@) {
            assert(s.subrange(p, p + 1)[0] == s[p + 0]);
            assert(s.subrange(p, s.len() as int)[0] == s[p + 0]);
            assert(false);
        }
    };
    assert(!match_at(s, p, "w"@)) by {
        if match_at(s, p, "w"@) {
            assert(s.subrange(p, p + 1)[0] == s[p + 0]);
            assert(s.subrange(p, s.len() as int)[0] == s[p + 0]);
            assert(false);
        }
    };
    assert(!match_at(s, p, "W"@)) by {
        if match_at(s, p, "W"@) {
            assert(s.subrange(p, p + 1)[0] == s[p + 0]);
            assert(s.subrange(p, s.len() as int)[0] == s[p + 0]);
            assert(false);
        }
    };
    assert(!match_at(s, p, "y"@)) by {
        if match_at(s, p, "y"@) {
            assert(s.subrange(p, p + 1)[0] == s[p + 0]);
            assert(s.subrange(p, s.len() as int)[0] == s[p + 0]);
            assert(false);
        }
    };
    assert(match_at(s, p, "Y"@)) by {
        assert(s.subrange(p, p + 1) == s.subrange(p, s.len() as int));
    };
}

/// With `nanos` as the whole tail at `p`, the resolver yields `Nanos`.
proof fn lemma_tail_nanos_nanos(s: Seq<char>, p: int)
    requires
        0 <= p <= s.len(),
        s.subrange(p, s.len() as int) == "nanos"@,
    ensures
        resolve_unit(s, p) == Some((Unit::Nanos, s.len() as int)),
{
    reveal_strlit("months");
    reveal_strlit("month");
    reveal_strlit("mths");
    reveal_strlit("mth");
    reveal_strlit("M");
    reveal_strlit("days");
    reveal_strlit("day");
    reveal_strlit("dys");
    reveal_strlit("dy");
    reveal_strlit("d");
    reveal_strlit("D");
    reveal_strlit("weeks");
    reveal_strlit("week");
    reveal_strlit("wks");
    reveal_strlit("wk");
    reveal_strlit("w");
    reveal_strlit("W");
    reveal_strlit("years");
    reveal_strlit("year");
    reveal_strlit("yrs");
    reveal_strlit("yr");
    reveal_strlit("y");
    reveal_strlit("Y");
    reveal_strlit("nanos");
    reveal_strlit("nsec");
    reveal_strlit("ns");
    reveal_strlit("micros");
    reveal_strlit("usec");
    reveal_strlit("us");
    reveal_strlit("millis");
    reveal_strlit("msec");
    reveal_strlit("ms");
    reveal_strlit("seconds");
    reveal_strlit("second");
    reveal_strlit("secs");
    reveal_strlit("sec");
    reveal_strlit("s");
    reveal_strlit("minutes");
    reveal_strlit("minute");
    reveal_strlit("mins");
    reveal_strlit("min");
    reveal_strlit("m");
    reveal_strlit("hours");
    reveal_strlit("hour");
    reveal_strlit("hrs");
    reveal_strlit("hr");
    reveal_strlit("h");
    reveal_strlit("H");
    assert(s.len() - p == 5);
    assert(!match_at(s, p, "month"@)) by {
        if match_at(s, p, "month"@) {
            assert(s.subrange(p, p + 5)[0] == s[p + 0]);
            assert(s.subrange(p, s.len() as int)[0] == s[p + 0]);
            assert(false);
        }
    };
    assert(!match_at(s, p, "mths"@)) by {
        if match_at(s, p, "mths"@) {
            assert(s.subrange(p, p + 4)[0] == s[p + 0]);
            assert(s.subrange(p, s.len() as int)[0] == s[p + 0]);
            assert(false);
        }
    };
    assert(!match_at(s, p, "mth"@)) by {
        if match_at(s, p, "mth"@) {
            assert(s.subrange(p, p + 3)[0] == s[p + 0]);
            assert(s.subrange(p, s.len() as int)[0] == s[p + 0]);
            assert(false);
        }
    };
    assert(!match_at(s, p, "M"@)) by {
        if match_at(s, p, "M"@) {
            assert(s.subrange(p, p + 1)[0] == s[p + 0]);
            assert(s.subrange(p, s.len() as int)[0] == s[p + 0]);
            assert(false);
        }
    };
    assert(!match_at(s, p, "days"@)) by {
        if match_at(s, p, "days"@) {
            assert(s.subrange(p, p + 4)[0] == s[p + 0]);
            assert(s.subrange(p, s.len() as int)[0] == s[p + 0]);
            assert(false);
        }
    };
    assert(!match_at(s, p, "day"@)) by {
        if match_at(s, p, "day"@) {
            assert(s.subrange(p, p + 3)[0] == s[p + 0]);
            assert(s.subrange(p, s.len() as int)[0] == s[p + 0]);
            assert(false);
        }
    };
    assert(!match_at(s, p, "dys"@)) by {
        if match_at(s, p, "dys"@) {
            assert(s.subrange(p, p + 3)[0] == s[p + 0]);
            assert(s.subrange(p, s.len() as int)[0] == s[p + 0]);
            assert(false);
        }
    };
    assert(!match_at(s, p, "dy"@)) by {
        if match_at(s, p, "dy"@) {
            assert(s.subrange(p, p + 2)[0] == s[p + 0]);
            assert(s.subrange(p, s.len() as int)[0] == s[p + 0]);
            assert(false);
        }
    };
    assert(!match_at(s, p, "d"@)) by {
        if match_at(s, p, "d"@) {
            assert(s.subrange(p, p + 1)[0] == s[p + 0]);
            assert(s.subrange(p, s.len() as int)[0] == s[p + 0]);
            assert(false);
        }
    };
    assert(!match_at(s, p, "D"@)) by {
        if match_at(s, p, "D"@) {
            assert(s.subrange(p, p + 1)[0] == s[p + 0]);
            assert(s.subrange(p, s.len() as int)[0] == s[p + 0]);
            assert(false);
        }
    };
    assert(!match_at(s, p, "weeks"@)) by {
        if match_at(s, p, "weeks"@) {
            assert(s.subrange(p, p + 5)[0] == s[p + 0]);
            assert(s.subrange(p, s.len() as int)[0] == s[p + 0]);
            assert(false);
        }
    };
    assert(!match_at(s, p, "week"@)) by {
        if match_at(s, p, "week"@) {
            assert(s.subrange(p, p + 4)[0] == s[p + 0]);
            assert(s.subrange(p, s.len() as int)[0] == s[p + 0]);
            assert(false);
        }
    };
    assert(!match_at(s, p, "wks"@)) by {
        if match_at(s, p, "wks"@) {
            assert(s.subrange(p, p + 3)[0] == s[p + 0]);
            assert(s.subrange(p, s.len() as int)[0] == s[p + 0]);
            assert(false);
        }
    };
    assert(!match_at(s, p, "wk"@)) by {
        if match_at(s, p, "wk"@) {
            assert(s.subrange(p, p + 2)[0] == s[p + 0]);
            assert(s.subrange(p, s.len() as int)[0] == s[p + 0]);
            assert(false);
        }
    };
    assert(!match_at(s, p, "w"@)) by {
        if match_at(s, p, "w"@) {
            assert(s.subrange(p, p + 1)[0] == s[p + 0]);
            assert(s.subrange(p, s.len() as int)[0] == s[p + 0]);
            assert(false);
        }
    };
    assert(!match_at(s, p, "W"@)) by {
        if match_at(s, p, "W"@) {
            assert(s.subrange(p, p + 1)[0] == s[p + 0]);
            assert(s.subrange(p, s.len() as int)[0] == s[p + 0]);
            assert(false);
        }
    };
    assert(!match_at(s, p, "years"@)) by {
        if match_at(s, p, "years"@) {
            assert(s.subrange(p, p + 5)[0] == s[p + 0]);
            assert(s.subrange(p, s.len() as int)[0] == s[p + 0]);
            assert(false);
        }
    };
    assert(!match_at(s, p, "year"@)) by {
        if match_at(s, p, "year"@) {
            assert(s.subrange(p, p + 4)[0] == s[p + 0]);
            assert(s.subrange(p, s.len() as int)[0] == s[p + 0]);
            assert(false);
        }
    };
    assert(!match_at(s, p, "yrs"@)) by {
        if match_at(s, p, "yrs"@) {
            assert(s.subrange(p, p + 3)[0] == s[p + 0]);
            assert(s.subrange(p, s.len() as int)[0] == s[p + 0]);
            assert(false);
        }
    };
    assert(!match_at(s, p, "yr"@)) by {
        if match_at(s, p, "yr"@) {
            assert(s.subrange(p, p + 2)[0] == s[p + 0]);
            assert(s.subrange(p, s.len() as int)[0] == s[p + 0]);
            assert(false);
        }
    };
    assert(!match_at(s, p, "y"@)) by {
        if match_at(s, p, "y"@) {
            assert(s.subrange(p, p + 1)[0] == s[p + 0]);
            assert(s.subrange(p, s.len() as int)[0] == s[p + 0]);
            assert(false);
        }
    };
    assert(!match_at(s, p, "Y"@)) by {
        if match_at(s, p, "Y"@) {
            assert(s.subrange(p, p + 1)[0] == s[p + 0]);
            assert(s.subrange(p, s.len() as int)[0] == s[p + 0]);
            assert(false);
        }
    };
    assert(match_at(s, p, "nanos"@)) by {
        assert(s.subrange(p, p + 5) == s.subrange(p, s.len() as int));
    };
}

/// With `nsec` as the whole tail at `p`, the resolver yields `Nanos`.
proof fn lemma_tail_nanos_nsec(s: Seq<char>, p: int)
    requires
        0 <= p <= s.len(),
        s.subrange(p, s.len() as int) == "nsec"@,
    ensures
        resolve_unit(s, p) == Some((Unit::Nanos, s.len() as int)),
{
    reveal_strlit("months");
    reveal_strlit("month");
    reveal_strlit("mths");
    reveal_strlit("mth");
    reveal_strlit("M");
    reveal_strlit("days");
    reveal_strlit("day");
    reveal_strlit("dys");
    reveal_strlit("dy");
    reveal_strlit("d");
    reveal_strlit("D");
    reveal_strlit("weeks");
    reveal_strlit("week");
    reveal_strlit("wks");
    reveal_strlit("wk");
    reveal_strlit("w");
    reveal_strlit("W");
    reveal_strlit("years");
    reveal_strlit("year");
    reveal_strlit("yrs");
    reveal_strlit("yr");
    reveal_strlit("y");
    reveal_strlit("Y");
    reveal_strlit("nanos");
    reveal_strlit("nsec");
    reveal_strlit("ns");
    reveal_strlit("micros");
    reveal_strlit("usec");
    reveal_strlit("us");
    reveal_strlit("millis");
    reveal_strlit("msec");
    reveal_strlit("ms");
    reveal_strlit("seconds");
    reveal_strlit("second");
    reveal_strlit("secs");
    reveal_strlit("sec");
    reveal_strlit("s");
    reveal_strlit("minutes");
    reveal_strlit("minute");
    reveal_strlit("mins");
    reveal_strlit("min");
    reveal_strlit("m");
    reveal_strlit("hours");
    reveal_strlit("hour");
    reveal_strlit("hrs");
    reveal_strlit("hr");
    reveal_strlit("h");
    reveal_strlit("H");
    assert(s.len() - p == 4);
    assert(!match_at(s, p, "mths"@)) by {
        if match_at(s, p, "mths"@) {
            assert(s.subrange(p, p + 4)[0] == s[p + 0]);
            assert(s.subrange(p, s.len() as int)[0] == s[p + 0]);
            assert(false);
        }
    };
    assert(!match_at(s, p, "mth"@)) by {
        if match_at(s, p, "mth"@) {
            assert(s.subrange(p, p + 3)[0] == s[p + 0]);
            assert(s.subrange(p, s.len() as int)[0] == s[p + 0]);
            assert(false);
        }
    };
    assert(!match_at(s, p, "M"@)) by {
        if match_at(s, p, "M"@) {
            assert(s.subrange(p, p + 1)[0] == s[p + 0]);
            assert(s.subrange(p, s.len() as int)[0] == s[p + 0]);
            assert(false);
        }
    };
    assert(!match_at(s, p, "days"@)) by {
        if match_at(s, p, "days"@) {
            assert(s.subrange(p, p + 4)[0] == s[p + 0]);
            assert(s.subrange(p, s.len() as int)[0] == s[p + 0]);
            assert(false);
        }
    };
    assert(!match_at(s, p, "day"@)) by {
        if match_at(s, p, "day"@) {
            assert(s.subrange(p, p + 3)[0] == s[p + 0]);
            assert(s.subrange(p, s.len() as int)[0] == s[p + 0]);
            assert(false);
        }
    };
    assert(!match_at(s, p, "dys"@)) by {
        if match_at(s, p, "dys"@) {
            assert(s.subrange(p, p + 3)[0] == s[p + 0]);
            assert(s.subrange(p, s.len() as int)[0] == s[p + 0]);
            assert(false);
        }
    };
    assert(!match_at(s, p, "dy"@)) by {
        if match_at(s, p, "dy"@) {
            assert(s.subrange(p, p + 2)[0] == s[p + 0]);
            assert(s.subrange(p, s.len() as int)[0] == s[p + 0]);
            assert(false);
        }
    };
    assert(!match_at(s, p, "d"@)) by {
        if match_at(s, p, "d"@) {
            assert(s.subrange(p, p + 1)[0] == s[p + 0]);
            assert(s.subrange(p, s.len() as int)[0] == s[p + 0]);
            assert(false);
        }
    };
    assert(!match_at(s, p, "D"@)) by {
        if match_at(s, p, "D"@) {
            assert(s.subrange(p, p + 1)[0] == s[p + 0]);
            assert(s.subrange(p, s.len() as int)[0] == s[p + 0]);
            assert(false);
        }
    };
    assert(!match_at(s, p, "week"@)) by {
        if match_at(s, p, "week"@) {
            assert(s.subrange(p, p + 4)[0] == s[p + 0]);
            assert(s.subrange(p, s.len() as int)[0] == s[p + 0]);
            assert(false);
        }
    };
    assert(!match_at(s, p, "wks"@)) by {
        if match_at(s, p, "wks"@) {
            assert(s.subrange(p, p + 3)[0] == s[p + 0]);
            assert(s.subrange(p, s.len() as int)[0] == s[p + 0]);
            assert(false);
        }
    };
    assert(!match_at(s, p, "wk"@)) by {
        if match_at(s, p, "wk"@) {
            assert(s.subrange(p, p + 2)[0] == s[p + 0]);
            assert(s.subrange(p, s.len() as int)[0] == s[p + 0]);
            assert(false);
        }
    };
    assert(!match_at(s, p, "w"@)) by {
        if match_at(s, p, "w"@) {
            assert(s.subrange(p, p + 1)[0] == s[p + 0]);
            assert(s.subrange(p, s.len() as int)[0] == s[p + 0]);
            assert(false);
        }
    };
    assert(!match_at(s, p, "W"@)) by {
        if match_at(s, p, "W"@) {
            assert(s.subrange(p, p + 1)[0] == s[p + 0]);
            assert(s.subrange(p, s.len() as int)[0] == s[p + 0]);
            assert(false);
        }
    };
    assert(!match_at(s, p, "year"@)) by {
        if match_at(s, p, "year"@) {
            assert(s.subrange(p, p + 4)[0] == s[p + 0]);
            assert(s.subrange(p, s.len() as int)[0] == s[p + 0]);
            assert(false);
        }
    };
    assert(!match_at(s, p, "yrs"@)) by {
        if match_at(s, p, "yrs"@) {
            assert(s.subrange(p, p + 3)[0] == s[p + 0]);
            assert(s.subrange(p, s.len() as int)[0] == s[p + 0]);
            assert(false);
        }
    };
    assert(!match_at(s, p, "yr"@)) by {
        if match_at(s, p, "yr"@) {
            assert(s.subrange(p, p + 2)[0] == s[p + 0]);
            assert(s.subrange(p, s.len() as int)[0] == s[p + 0]);
            assert(false);
        }
    };
    assert(!match_at(s, p, "y"@)) by {
        if match_at(s, p, "y"@) {
            assert(s.subrange(p, p + 1)[0] == s[p + 0]);
            assert(s.subrange(p, s.len() as int)[0] == s[p + 0]);
            assert(false);
        }
    };
    assert(!match_at(s, p, "Y"@)) by {
        if match_at(s, p, "Y"@) {
            assert(s.subrange(p, p + 1)[0] == s[p + 0]);
            assert(s.subrange(p, s.len() as int)[0] == s[p + 0]);
            assert(false);
        }
    };
    assert(match_at(s, p, "nsec"@)) by {
        assert(s.subrange(p, p + 4) == s.subrange(p, s.len() as int));
    };
}

/// With `ns` as the whole tail at `p`, the resolver yields `Nanos`.
proof fn lemma_tail_nanos_ns(s: Seq<char>, p: int)
    requires
        0 <= p <= s.len(),
        s.subrange(p, s.len() as int) == "ns"@,
    ensures
        resolve_unit(s, p) == Some((Unit::Nanos, s.len() as int)),
{
    reveal_strlit("months");
    reveal_strlit("month");
    reveal_strlit("mths");
    reveal_strlit("mth");
    reveal_strlit("M");
    reveal_strlit("days");
    reveal_strlit("day");
    reveal_strlit("dys");
    reveal_strlit("dy");
    reveal_strlit("d");
    reveal_strlit("D");
    reveal_strlit("weeks");
    reveal_strlit("week");
    reveal_strlit("wks");
    reveal_strlit("wk");
    reveal_strlit("w");
    reveal_strlit("W");
    reveal_strlit("years");
    reveal_strlit("year");
    reveal_strlit("yrs");
    reveal_strlit("yr");
    reveal_strlit("y");
    reveal_strlit("Y");
    reveal_strlit("nanos");
    reveal_strlit("nsec");
    reveal_strlit("ns");
    reveal_strlit("micros");
    reveal_strlit("usec");
    reveal_strlit("us");
    reveal_strlit("millis");
    reveal_strlit("msec");
    reveal_strlit("ms");
    reveal_strlit("seconds");
    reveal_strlit("second");
    reveal_strlit("secs");
    reveal_strlit("sec");
    reveal_strlit("s");
    reveal_strlit("minutes");
    reveal_strlit("minute");
    reveal_strlit("mins");
    reveal_strlit("min");
    reveal_strlit("m");
    reveal_strlit("hours");
    reveal_strlit("hour");
    reveal_strlit("hrs");
    reveal_strlit("hr");
    reveal_strlit("h");
    reveal_strlit("H");
    assert(s.len() - p == 2);
    assert(!match_at(s, p, "M"@)) by {
        if match_at(s, p, "M"@) {
            assert(s.subrange(p, p + 1)[0] == s[p + 0]);
            assert(s.subrange(p, s.len() as int)[0] == s[p + 0]);
            assert(false);
        }
    };
    assert(!match_at(s, p, "dy"@)) by {
        if match_at(s, p, "dy"@) {
            assert(s.subrange(p, p + 2)[0] == s[p + 0]);
            assert(s.subrange(p, s.len() as int)[0] == s[p + 0]);
            assert(false);
        }
    };
    assert(!match_at(s, p, "d"@)) by {
        if match_at(s, p, "d"@) {
            assert(s.subrange(p, p + 1)[0] == s[p + 0]);
            assert(s.subrange(p, s.len() as int)[0] == s[p + 0]);
            assert(false);
        }
    };
    assert(!match_at(s, p, "D"@)) by {
        if match_at(s, p, "D"@) {
            assert(s.subrange(p, p + 1)[0] == s[p + 0]);
            assert(s.subrange(p, s.len() as int)[0] == s[p + 0]);
            assert(false);
        }
    };
    assert(!match_at(s, p, "wk"@)) by {
        if match_at(s, p, "wk"@) {
            assert(s.subrange(p, p + 2)[0] == s[p + 0]);
            assert(s.subrange(p, s.len() as int)[0] == s[p + 0]);
            assert(false);
        }
    };
    assert(!match_at(s, p, "w"@)) by {
        if match_at(s, p, "w"@) {
            assert(s.subrange(p, p + 1)[0] == s[p + 0]);
            assert(s.subrange(p, s.len() as int)[0] == s[p + 0]);
            assert(false);
        }
    };
    assert(!match_at(s, p, "W"@)) by {
        if match_at(s, p, "W"@) {
            assert(s.subrange(p, p + 1)[0] == s[p + 0]);
            assert(s.subrange(p, s.len() as int)[0] == s[p + 0]);
            assert(false);
        }
    };
    assert(!match_at(s, p, "yr"@)) by {
        if match_at(s, p, "yr"@) {
            assert(s.subrange(p, p + 2)[0] == s[p + 0]);
            assert(s.subrange(p, s.len() as int)[0] == s[p + 0]);
            assert(false);
        }
    };
    assert(!match_at(s, p, "y"@)) by {
        if match_at(s, p, "y"@) {
            assert(s.subrange(p, p + 1)[0] == s[p + 0]);
            assert(s.subrange(p, s.len() as int)[0] == s[p + 0]);
            assert(false);
        }
    };
    assert(!match_at(s, p, "Y"@)) by {
        if match_at(s, p, "Y"@) {
            assert(s.subrange(p, p + 1)[0] == s[p + 0]);
            assert(s.subrange(p, s.len() as int)[0] == s[p + 0]);
            assert(false);
        }
    };
    assert(match_at(s, p, "ns"@)) by {
        assert(s.subrange(p, p + 2) == s.subrange(p, s.len() as int));
    };
}

/// With `micros` as the whole tail at `p`, the resolver yields `Micros`.
proof fn lemma_tail_micros_micros(s: Seq<char>, p: int)
    requires
        0 <= p <= s.len(),
        s.subrange(p, s.len() as int) == "micros"@,
    ensures
        resolve_unit(s, p) == Some((Unit::Micros, s.len() as int)),
{
    reveal_strlit("months");
    reveal_strlit("month");
    reveal_strlit("mths");
    reveal_strlit("mth");
    reveal_strlit("M");
    reveal_strlit("days");
    reveal_strlit("day");
    reveal_strlit("dys");
    reveal_strlit("dy");
    reveal_strlit("d");
    reveal_strlit("D");
    reveal_strlit("weeks");
    reveal_strlit("week");
    reveal_strlit("wks");
    reveal_strlit("wk");
    reveal_strlit("w");
    reveal_strlit("W");
    reveal_strlit("years");
    reveal_strlit("year");
    reveal_strlit("yrs");
    reveal_strlit("yr");
    reveal_strlit("y");
    reveal_strlit("Y");
    reveal_strlit("nanos");
    reveal_strlit("nsec");
    reveal_strlit("ns");
    reveal_strlit("micros");
    reveal_strlit("usec");
    reveal_strlit("us");
    reveal_strlit("millis");
    reveal_strlit("msec");
    reveal_strlit("ms");
    reveal_strlit("seconds");
    reveal_strlit("second");
    reveal_strlit("secs");
    reveal_strlit("sec");
    reveal_strlit("s");
    reveal_strlit("minutes");
    reveal_strlit("minute");
    reveal_strlit("mins");
    reveal_strlit("min");
    reveal_strlit("m");
    reveal_strlit("hours");
    reveal_strlit("hour");
    reveal_strlit("hrs");
    reveal_strlit("hr");
    reveal_strlit("h");
    reveal_strlit("H");
    assert(s.len() - p == 6);
    assert(!match_at(s, p, "months"@)) by {
        if match_at(s, p, "months"@) {
            assert(s.subrange(p, p + 6)[1] == s[p + 1]);
            assert(s.subrange(p, s.len() as int)[1] == s[p + 1]);
            assert(false);
        }
    };
    assert(!match_at(s, p, "month"@)) by {
        if match_at(s, p, "month"@) {
            assert(s.subrange(p, p + 5)[1] == s[p + 1]);
            assert(s.subrange(p, s.len() as int)[1] == s[p + 1]);
            assert(false);
        }
    };
    assert(!match_at(s, p, "mths"@)) by {
        if match_at(s, p, "mths"@) {
            assert(s.subrange(p, p + 4)[1] == s[p + 1]);
            assert(s.subrange(p, s.len() as int)[1] == s[p + 1]);
            assert(false);
        }
    };
    assert(!match_at(s, p, "mth"@)) by {
        if match_at(s, p, "mth"@) {
            assert(s.subrange(p, p + 3)[1] == s[p + 1]);
            assert(s.subrange(p, s.len() as int)[1] == s[p + 1]);
            assert(false);
        }
    };
    assert(!match_at(s, p, "M"@)) by {
        if match_at(s, p, "M"@) {
            assert(s.subrange(p, p + 1)[0] == s[p + 0]);
            assert(s.subrange(p, s.len() as int)[0] == s[p + 0]);
            assert(false);
        }
    };
    assert(!match_at(s, p, "days"@)) by {
        if match_at(s, p, "days"@) {
            assert(s.subrange(p, p + 4)[0] == s[p + 0]);
            assert(s.subrange(p, s.len() as int)[0] == s[p + 0]);
            assert(false);
        }
    };
    assert(!match_at(s, p, "day"@)) by {
        if match_at(s, p, "day"@) {
            assert(s.subrange(p, p + 3)[0] == s[p + 0]);
            assert(s.subrange(p, s.len() as int)[0] == s[p + 0]);
            assert(false);
        }
    };
    assert(!match_at(s, p, "dys"@)) by {
        if match_at(s, p, "dys"@) {
            assert(s.subrange(p, p + 3)[0] == s[p + 0]);
            assert(s.subrange(p, s.len() as int)[0] == s[p + 0]);
            assert(false);
        }
    };
    assert(!match_at(s, p, "dy"@)) by {
        if match_at(s, p, "dy"@) {
            assert(s.subrange(p, p + 2)[0] == s[p + 0]);
            assert(s.subrange(p, s.len() as int)[0] == s[p + 0]);
            assert(false);
        }
    };
    assert(!match_at(s, p, "d"@)) by {
        if match_at(s, p, "d"@) {
            assert(s.subrange(p, p + 1)[0] == s[p + 0]);
            assert(s.subrange(p, s.len() as int)[0] == s[p + 0]);
            assert(false);
        }
    };
    assert(!match_at(s, p, "D"@)) by {
        if match_at(s, p, "D"@) {
            assert(s.subrange(p, p + 1)[0] == s[p + 0]);
            assert(s.subrange(p, s.len() as int)[0] == s[p + 0]);
            assert(false);
        }
    };
    assert(!match_at(s, p, "weeks"@)) by {
        if match_at(s, p, "weeks"@) {
            assert(s.subrange(p, p + 5)[0] == s[p + 0]);
            assert(s.subrange(p, s.len() as int)[0] == s[p + 0]);
            assert(false);
        }
    };
    assert(!match_at(s, p, "week"@)) by {
        if match_at(s, p, "week"@) {
            assert(s.subrange(p, p + 4)[0] == s[p + 0]);
            assert(s.subrange(p, s.len() as int)[0] == s[p + 0]);
            assert(false);
        }
    };
    assert(!match_at(s, p, "wks"@)) by {
        if match_at(s, p, "wks"@) {
            assert(s.subrange(p, p + 3)[0] == s[p + 0]);
            assert(s.subrange(p, s.len() as int)[0] == s[p + 0]);
            assert(false);
        }
    };
    assert(!match_at(s, p, "wk"@)) by {
        if match_at(s, p, "wk"@) {
            assert(s.subrange(p, p + 2)[0] == s[p + 0]);
            assert(s.subrange(p, s.len() as int)[0] == s[p + 0]);
            assert(false);
        }
    };
    assert(!match_at(s, p, "w"@)) by {
        if match_at(s, p, "w"@) {
            assert(s.subrange(p, p + 1)[0] == s[p + 0]);
            assert(s.subrange(p, s.len() as int)[0] == s[p + 0]);
            assert(false);
        }
    };
    assert(!match_at(s, p, "W"@)) by {
        if match_at(s, p, "W"@) {
            assert(s.subrange(p, p + 1)[0] == s[p + 0]);
            assert(s.subrange(p, s.len() as int)[0] == s[p + 0]);
            assert(false);
        }
    };
    assert(!match_at(s, p, "years"@)) by {
        if match_at(s, p, "years"@) {
            assert(s.subrange(p, p + 5)[0] == s[p + 0]);
            assert(s.subrange(p, s.len() as int)[0] == s[p + 0]);
            assert(false);
        }
    };
    assert(!match_at(s, p, "year"@)) by {
        if match_at(s, p, "year"@) {
            assert(s.subrange(p, p + 4)[0] == s[p + 0]);
            assert(s.subrange(p, s.len() as int)[0] == s[p + 0]);
            assert(false);
        }
    };
    assert(!match_at(s, p, "yrs"@)) by {
        if match_at(s, p, "yrs"@) {
            assert(s.subrange(p, p + 3)[0] == s[p + 0]);
            assert(s.subrange(p, s.len() as int)[0] == s[p + 0]);
            assert(false);
        }
    };
    assert(!match_at(s, p, "yr"@)) by {
        if match_at(s, p, "yr"@) {
            assert(s.subrange(p, p + 2)[0] == s[p + 0]);
            assert(s.subrange(p, s.len() as int)[0] == s[p + 0]);
            assert(false);
        }
    };
    assert(!match_at(s, p, "y"@)) by {
        if match_at(s, p, "y"@) {
            assert(s.subrange(p, p + 1)[0] == s[p + 0]);
            assert(s.subrange(p, s.len() as int)[0] == s[p + 0]);
            assert(false);
        }
    };
    assert(!match_at(s, p, "Y"@)) by {
        if match_at(s, p, "Y"@) {
            assert(s.subrange(p, p + 1)[0] == s[p + 0]);
            assert(s.subrange(p, s.len() as int)[0] == s[p + 0]);
            assert(false);
        }
    };
    assert(!match_at(s, p, "nanos"@)) by {
        if match_at(s, p, "nanos"@) {
            assert(s.subrange(p, p + 5)[0] == s[p + 0]);
            assert(s.subrange(p, s.len() as int)[0] == s[p + 0]);
            assert(false);
        }
    };
    assert(!match_at(s, p, "nsec"@)) by {
        if match_at(s, p, "nsec"@) {
            assert(s.subrange(p, p + 4)[0] == s[p + 0]);
            assert(s.subrange(p, s.len() as int)[0] == s[p + 0]);
            assert(false);
        }
    };
    assert(!match_at(s, p, "ns"@)) by {
        if match_at(s, p, "ns"@) {
            assert(s.subrange(p, p + 2)[0] == s[p + 0]);
            assert(s.subrange(p, s.len() as int)[0] == s[p + 0]);
            assert(false);
        }
    };
    assert(match_at(s, p, "micros"@)) by {
        assert(s.subrange(p, p + 6) == s.subrange(p, s.len() as int));
    };
}

/// With `usec` as the whole tail at `p`, the resolver yields `Micros`.
proof fn lemma_tail_micros_usec(s: Seq<char>, p: int)
    requires
        0 <= p <= s.len(),
        s.subrange(p, s.len() as int) == "usec"@,
    ensures
        resolve_unit(s, p) == Some((Unit::Micros, s.len() as int)),
{
    reveal_strlit("months");
    reveal_strlit("month");
    reveal_strlit("mths");
    reveal_strlit("mth");
    reveal_strlit("M");
    reveal_strlit("days");
    reveal_strlit("day");
    reveal_strlit("dys");
    reveal_strlit("dy");
    reveal_strlit("d");
    reveal_strlit("D");
    reveal_strlit("weeks");
    reveal_strlit("week");
    reveal_strlit("wks");
    reveal_strlit("wk");
    reveal_strlit("w");
    reveal_strlit("W");
    reveal_strlit("years");
    reveal_strlit("year");
    reveal_strlit("yrs");
    reveal_strlit("yr");
    reveal_strlit("y");
    reveal_strlit("Y");
    reveal_strlit("nanos");
    reveal_strlit("nsec");
    reveal_strlit("ns");
    reveal_strlit("micros");
    reveal_strlit("usec");
    reveal_strlit("us");
    reveal_strlit("millis");
    reveal_strlit("msec");
    reveal_strlit("ms");
    reveal_strlit("seconds");
    reveal_strlit("second");
    reveal_strlit("secs");
    reveal_strlit("sec");
    reveal_strlit("s");
    reveal_strlit("minutes");
    reveal_strlit("minute");
    reveal_strlit("mins");
    reveal_strlit("min");
    reveal_strlit("m");
    reveal_strlit("hours");
    reveal_strlit("hour");
    reveal_strlit("hrs");
    reveal_strlit("hr");
    reveal_strlit("h");
    reveal_strlit("H");
    assert(s.len() - p == 4);
    assert(!match_at(s, p, "mths"@)) by {
        if match_at(s, p, "mths"@) {
            assert(s.subrange(p, p + 4)[0] == s[p + 0]);
            assert(s.subrange(p, s.len() as int)[0] == s[p + 0]);
            assert(false);
        }
    };
    assert(!match_at(s, p, "mth"@)) by {
        if match_at(s, p, "mth"@) {
            assert(s.subrange(p, p + 3)[0] == s[p + 0]);
            assert(s.subrange(p, s.len() as int)[0] == s[p + 0]);
            assert(false);
        }
    };
    assert(!match_at(s, p, "M"@)) by {
        if match_at(s, p, "M"@) {
            assert(s.subrange(p, p + 1)[0] == s[p + 0]);
            assert(s.subrange(p, s.len() as int)[0] == s[p + 0]);
            assert(false);
        }
    };
    assert(!match_at(s, p, "days"@)) by {
        if match_at(s, p, "days"@) {
            assert(s.subrange(p, p + 4)[0] == s[p + 0]);
            assert(s.subrange(p, s.len() as int)[0] == s[p + 0]);
            assert(false);
        }
    };
    assert(!match_at(s, p, "day"@)) by {
        if match_at(s, p, "day"@) {
            assert(s.subrange(p, p + 3)[0] == s[p + 0]);
            assert(s.subrange(p, s.len() as int)[0] == s[p + 0]);
            assert(false);
        }
    };
    assert(!match_at(s, p, "dys"@)) by {
        if match_at(s, p, "dys"@) {
            assert(s.subrange(p, p + 3)[0] == s[p + 0]);
            assert(s.subrange(p, s.len() as int)[0] == s[p + 0]);
            assert(false);
        }
    };
    assert(!match_at(s, p, "dy"@)) by {
        if match_at(s, p, "dy"@) {
            assert(s.subrange(p, p + 2)[0] == s[p + 0]);
            assert(s.subrange(p, s.len() as int)[0] == s[p + 0]);
            assert(false);
        }
    };
    assert(!match_at(s, p, "d"@)) by {
        if match_at(s, p, "d"@) {
            assert(s.subrange(p, p + 1)[0] == s[p + 0]);
            assert(s.subrange(p, s.len() as int)[0] == s[p + 0]);
            assert(false);
        }
    };
    assert(!match_at(s, p, "D"@)) by {
        if match_at(s, p, "D"@) {
            assert(s.subrange(p, p + 1)[0] == s[p + 0]);
            assert(s.subrange(p, s.len() as int)[0] == s[p + 0]);
            assert(false);
        }
    };
    assert(!match_at(s, p, "week"@)) by {
        if match_at(s, p, "week"@) {
            assert(s.subrange(p, p + 4)[0] == s[p + 0]);
            assert(s.subrange(p, s.len() as int)[0] == s[p + 0]);
            assert(false);
        }
    };
    assert(!match_at(s, p, "wks"@)) by {
        if match_at(s, p, "wks"@) {
            assert(s.subrange(p, p + 3)[0] == s[p + 0]);
            assert(s.subrange(p, s.len() as int)[0] == s[p + 0]);
            assert(false);
        }
    };
    assert(!match_at(s, p, "wk"@)) by {
        if match_at(s, p, "wk"@) {
            assert(s.subrange(p, p + 2)[0] == s[p + 0]);
            assert(s.subrange(p, s.len() as int)[0] == s[p + 0]);
            assert(false);
        }
    };
    assert(!match_at(s, p, "w"@)) by {
        if match_at(s, p, "w"@) {
            assert(s.subrange(p, p + 1)[0] == s[p + 0]);
            assert(s.subrange(p, s.len() as int)[0] == s[p + 0]);
            assert(false);
        }
    };
    assert(!match_at(s, p, "W"@)) by {
        if match_at(s, p, "W"@) {
            assert(s.subrange(p, p + 1)[0] == s[p + 0]);
            assert(s.subrange(p, s.len() as int)[0] == s[p + 0]);
            assert(false);
        }
    };
    assert(!match_at(s, p, "year"@)) by {
        if match_at(s, p, "year"@) {
            assert(s.subrange(p, p + 4)[0] == s[p + 0]);
            assert(s.subrange(p, s.len() as int)[0] == s[p + 0]);
            assert(false);
        }
    };
    assert(!match_at(s, p, "yrs"@)) by {
        if match_at(s, p, "yrs"@) {
            assert(s.subrange(p, p + 3)[0] == s[p + 0]);
            assert(s.subrange(p, s.len() as int)[0] == s[p + 0]);
            assert(false);
        }
    };
    assert(!match_at(s, p, "yr"@)) by {
        if match_at(s, p, "yr"@) {
            assert(s.subrange(p, p + 2)[0] == s[p + 0]);
            assert(s.subrange(p, s.len() as int)[0] == s[p + 0]);
            assert(false);
        }
    };
    assert(!match_at(s, p, "y"@)) by {
        if match_at(s, p, "y"@) {
            assert(s.subrange(p, p + 1)[0] == s[p + 0]);
            assert(s.subrange(p, s.len() as int)[0] == s[p + 0]);
            assert(false);
        }
    };
    assert(!match_at(s, p, "Y"@)) by {
        if match_at(s, p, "Y"@) {
            assert(s.subrange(p, p + 1)[0] == s[p + 0]);
            assert(s.subrange(p, s.len() as int)[0] == s[p + 0]);
            assert(false);
        }
    };
    assert(!match_at(s, p, "nsec"@)) by {
        if match_at(s, p, "nsec"@) {
            assert(s.subrange(p, p + 4)[0] == s[p + 0]);
            assert(s.subrange(p, s.len() as int)[0] == s[p + 0]);
            assert(false);
        }
    };
    assert(!match_at(s, p, "ns"@)) by {
        if match_at(s, p, "ns"@) {
            assert(s.subrange(p, p + 2)[0] == s[p + 0]);
            assert(s.subrange(p, s.len() as int)[0] == s[p + 0]);
            assert(false);
        }
    };
    assert(match_at(s, p, "usec"@)) by {
        assert(s.subrange(p, p + 4) == s.subrange(p, s.len() as int));
    };
}

/// With `us` as the whole tail at `p`, the resolver yields `Micros`.
proof fn lemma_tail_micros_us(s: Seq<char>, p: int)
    requires
        0 <= p <= s.len(),
        s.subrange(p, s.len() as int) == "us"@,
    ensures
        resolve_unit(s, p) == Some((Unit::Micros, s.len() as int)),
{
    reveal_strlit("months");
    reveal_strlit("month");
    reveal_strlit("mths");
    reveal_strlit("mth");
    reveal_strlit("M");
    reveal_strlit("days");
    reveal_strlit("day");
    reveal_strlit("dys");
    reveal_strlit("dy");
    reveal_strlit("d");
    reveal_strlit("D");
    reveal_strlit("weeks");
    reveal_strlit("week");
    reveal_strlit("wks");
    reveal_strlit("wk");
    reveal_strlit("w");
    reveal_strlit("W");
    reveal_strlit("years");
    reveal_strlit("year");
    reveal_strlit("yrs");
    reveal_strlit("yr");
    reveal_strlit("y");
    reveal_strlit("Y");
    reveal_strlit("nanos");
    reveal_strlit("nsec");
    reveal_strlit("ns");
    reveal_strlit("micros");
    reveal_strlit("usec");
    reveal_strlit("us");
    reveal_strlit("millis");
    reveal_strlit("msec");
    reveal_strlit("ms");
    reveal_strlit("seconds");
    reveal_strlit("second");
    reveal_strlit("secs");
    reveal_strlit("sec");
    reveal_strlit("s");
    reveal_strlit("minutes");
    reveal_strlit("minute");
    reveal_strlit("mins");
    reveal_strlit("min");
    reveal_strlit("m");
    reveal_strlit("hours");
    reveal_strlit("hour");
    reveal_strlit("hrs");
    reveal_strlit("hr");
    reveal_strlit("h");
    reveal_strlit("H");
    assert(s.len() - p == 2);
    assert(!match_at(s, p, "M"@)) by {
        if match_at(s, p, "M"@) {
            assert(s.subrange(p, p + 1)[0] == s[p + 0]);
            assert(s.subrange(p, s.len() as int)[0] == s[p + 0]);
            assert(false);
        }
    };
    assert(!match_at(s, p, "dy"@)) by {
        if match_at(s, p, "dy"@) {
            assert(s.subrange(p, p + 2)[0] == s[p + 0]);
            assert(s.subrange(p, s.len() as int)[0] == s[p + 0]);
            assert(false);
        }
    };
    assert(!match_at(s, p, "d"@)) by {
        if match_at(s, p, "d"@) {
            assert(s.subrange(p, p + 1)[0] == s[p + 0]);
            assert(s.subrange(p, s.len() as int)[0] == s[p + 0]);
            assert(false);
        }
    };
    assert(!match_at(s, p, "D"@)) by {
        if match_at(s, p, "D"@) {
            assert(s.subrange(p, p + 1)[0] == s[p + 0]);
            assert(s.subrange(p, s.len() as int)[0] == s[p + 0]);
            assert(false);
        }
    };
    assert(!match_at(s, p, "wk"@)) by {
        if match_at(s, p, "wk"@) {
            assert(s.subrange(p, p + 2)[0] == s[p + 0]);
            assert(s.subrange(p, s.len() as int)[0] == s[p + 0]);
            assert(false);
        }
    };
    assert(!match_at(s, p, "w"@)) by {
        if match_at(s, p, "w"@) {
            assert(s.subrange(p, p + 1)[0] == s[p + 0]);
            assert(s.subrange(p, s.len() as int)[0] == s[p + 0]);
            assert(false);
        }
    };
    assert(!match_at(s, p, "W"@)) by {
        if match_at(s, p, "W"@) {
            assert(s.subrange(p, p + 1)[0] == s[p + 0]);
            assert(s.subrange(p, s.len() as int)[0] == s[p + 0]);
            assert(false);
        }
    };
    assert(!match_at(s, p, "yr"@)) by {
        if match_at(s, p, "yr"@) {
            assert(s.subrange(p, p + 2)[0] == s[p + 0]);
            assert(s.subrange(p, s.len() as int)[0] == s[p + 0]);
            assert(false);
        }
    };
    assert(!match_at(s, p, "y"@)) by {
        if match_at(s, p, "y"@) {
            assert(s.subrange(p, p + 1)[0] == s[p + 0]);
            assert(s.subrange(p, s.len() as int)[0] == s[p + 0]);
            assert(false);
        }
    };
    assert(!match_at(s, p, "Y"@)) by {
        if match_at(s, p, "Y"@) {
            assert(s.subrange(p, p + 1)[0] == s[p + 0]);
            assert(s.subrange(p, s.len() as int)[0] == s[p + 0]);
            assert(false);
        }
    };
    assert(!match_at(s, p, "ns"@)) by {
        if match_at(s, p, "ns"@) {
            assert(s.subrange(p, p + 2)[0] == s[p + 0]);
            assert(s.subrange(p, s.len() as int)[0] == s[p + 0]);
            assert(false);
        }
    };
    assert(match_at(s, p, "us"@)) by {
        assert(s.subrange(p, p + 2) == s.subrange(p, s.len() as int));
    };
}

/// With `millis` as the whole tail at `p`, the resolver yields `Millis`.
proof fn lemma_tail_millis_millis(s: Seq<char>, p: int)
    requires
        0 <= p <= s.len(),
        s.subrange(p, s.len() as int) == "millis"@,
    ensures
        resolve_unit(s, p) == Some((Unit::Millis, s.len() as int)),
{
    reveal_strlit("months");
    reveal_strlit("month");
    reveal_strlit("mths");
    reveal_strlit("mth");
    reveal_strlit("M");
    reveal_strlit("days");
    reveal_strlit("day");
    reveal_strlit("dys");
    reveal_strlit("dy");
    reveal_strlit("d");
    reveal_strlit("D");
    reveal_strlit("weeks");
    reveal_strlit("week");
    reveal_strlit("wks");
    reveal_strlit("wk");
    reveal_strlit("w");
    reveal_strlit("W");
    reveal_strlit("years");
    reveal_strlit("year");
    reveal_strlit("yrs");
    reveal_strlit("yr");
    reveal_strlit("y");
    reveal_strlit("Y");
    reveal_strlit("nanos");
    reveal_strlit("nsec");
    reveal_strlit("ns");
    reveal_strlit("micros");
    reveal_strlit("usec");
    reveal_strlit("us");
    reveal_strlit("millis");
    reveal_strlit("msec");
    reveal_strlit("ms");
    reveal_strlit("seconds");
    reveal_strlit("second");
    reveal_strlit("secs");
    reveal_strlit("sec");
    reveal_strlit("s");
    reveal_strlit("minutes");
    reveal_strlit("minute");
    reveal_strlit("mins");
    reveal_strlit("min");
    reveal_strlit("m");
    reveal_strlit("hours");
    reveal_strlit("hour");
    reveal_strlit("hrs");
    reveal_strlit("hr");
    reveal_strlit("h");
    reveal_strlit("H");
    assert(s.len() - p == 6);
    assert(!match_at(s, p, "months"@)) by {
        if match_at(s, p, "months"@) {
            assert(s.subrange(p, p + 6)[1] == s[p + 1]);
            assert(s.subrange(p, s.len() as int)[1] == s[p + 1]);
            assert(false);
        }
    };
    assert(!match_at(s, p, "month"@)) by {
        if match_at(s, p, "month"@) {
            assert(s.subrange(p, p + 5)[1] == s[p + 1]);
            assert(s.subrange(p, s.len() as int)[1] == s[p + 1]);
            assert(false);
        }
    };
    assert(!match_at(s, p, "mths"@)) by {
        if match_at(s, p, "mths"@) {
            assert(s.subrange(p, p + 4)[1] == s[p + 1]);
            assert(s.subrange(p, s.len() as int)[1] == s[p + 1]);
            assert(false);
        }
    };
    assert(!match_at(s, p, "mth"@)) by {
        if match_at(s, p, "mth"@) {
            assert(s.subrange(p, p + 3)[1] == s[p + 1]);
            assert(s.subrange(p, s.len() as int)[1] == s[p + 1]);
            assert(false);
        }
    };
    assert(!match_at(s, p, "M"@)) by {
        if match_at(s, p, "M"@) {
            assert(s.subrange(p, p + 1)[0] == s[p + 0]);
            assert(s.subrange(p, s.len() as int)[0] == s[p + 0]);
            assert(false);
        }
    };
    assert(!match_at(s, p, "days"@)) by {
        if match_at(s, p, "days"@) {
            assert(s.subrange(p, p + 4)[0] == s[p + 0]);
            assert(s.subrange(p, s.len() as int)[0] == s[p + 0]);
            assert(false);
        }
    };
    assert(!match_at(s, p, "day"@)) by {
        if match_at(s, p, "day"@) {
            assert(s.subrange(p, p + 3)[0] == s[p + 0]);
            assert(s.subrange(p, s.len() as int)[0] == s[p + 0]);
            assert(false);
        }
    };
    assert(!match_at(s, p, "dys"@)) by {
        if match_at(s, p, "dys"@) {
            assert(s.subrange(p, p + 3)[0] == s[p + 0]);
            assert(s.subrange(p, s.len() as int)[0] == s[p + 0]);
            assert(false);
        }
    };
    assert(!match_at(s, p, "dy"@)) by {
        if match_at(s, p, "dy"@) {
            assert(s.subrange(p, p + 2)[0] == s[p + 0]);
            assert(s.subrange(p, s.len() as int)[0] == s[p + 0]);
            assert(false);
        }
    };
    assert(!match_at(s, p, "d"@)) by {
        if match_at(s, p, "d"@) {
            assert(s.subrange(p, p + 1)[0] == s[p + 0]);
            assert(s.subrange(p, s.len() as int)[0] == s[p + 0]);
            assert(false);
        }
    };
    assert(!match_at(s, p, "D"@)) by {
        if match_at(s, p, "D"@) {
            assert(s.subrange(p, p + 1)[0] == s[p + 0]);
            assert(s.subrange(p, s.len() as int)[0] == s[p + 0]);
            assert(false);
        }
    };
    assert(!match_at(s, p, "weeks"@)) by {
        if match_at(s, p, "weeks"@) {
            assert(s.subrange(p, p + 5)[0] == s[p + 0]);
            assert(s.subrange(p, s.len() as int)[0] == s[p + 0]);
            assert(false);
        }
    };
    assert(!match_at(s, p, "week"@)) by {
        if match_at(s, p, "week"@) {
            assert(s.subrange(p, p + 4)[0] == s[p + 0]);
            assert(s.subrange(p, s.len() as int)[0] == s[p + 0]);
            assert(false);
        }
    };
    assert(!match_at(s, p, "wks"@)) by {
        if match_at(s, p, "wks"@) {
            assert(s.subrange(p, p + 3)[0] == s[p + 0]);
            assert(s.subrange(p, s.len() as int)[0] == s[p + 0]);
            assert(false);
        }
    };
    assert(!match_at(s, p, "wk"@)) by {
        if match_at(s, p, "wk"@) {
            assert(s.subrange(p, p + 2)[0] == s[p + 0]);
            assert(s.subrange(p, s.len() as int)[0] == s[p + 0]);
            assert(false);
        }
    };
    assert(!match_at(s, p, "w"@)) by {
        if match_at(s, p, "w"@) {
            assert(s.subrange(p, p + 1)[0] == s[p + 0]);
            assert(s.subrange(p, s.len() as int)[0] == s[p + 0]);
            assert(false);
        }
    };
    assert(!match_at(s, p, "W"@)) by {
        if match_at(s, p, "W"@) {
            assert(s.subrange(p, p + 1)[0] == s[p + 0]);
            assert(s.subrange(p, s.len() as int)[0] == s[p + 0]);
            assert(false);
        }
    };
    assert(!match_at(s, p, "years"@)) by {
        if match_at(s, p, "years"@) {
            assert(s.subrange(p, p + 5)[0] == s[p + 0]);
            assert(s.subrange(p, s.len() as int)[0] == s[p + 0]);
            assert(false);
        }
    };
    assert(!match_at(s, p, "year"@)) by {
        if match_at(s, p, "year"@) {
            assert(s.subrange(p, p + 4)[0] == s[p + 0]);
            assert(s.subrange(p, s.len() as int)[0] == s[p + 0]);
            assert(false);
        }
    };
    assert(!match_at(s, p, "yrs"@)) by {
        if match_at(s, p, "yrs"@) {
            assert(s.subrange(p, p + 3)[0] == s[p + 0]);
            assert(s.subrange(p, s.len() as int)[0] == s[p + 0]);
            assert(false);
        }
    };
    assert(!match_at(s, p, "yr"@)) by {
        if match_at(s, p, "yr"@) {
            assert(s.subrange(p, p + 2)[0] == s[p + 0]);
            assert(s.subrange(p, s.len() as int)[0] == s[p + 0]);
            assert(false);
        }
    };
    assert(!match_at(s, p, "y"@)) by {
        if match_at(s, p, "y"@) {
            assert(s.subrange(p, p + 1)[0] == s[p + 0]);
            assert(s.subrange(p, s.len() as int)[0] == s[p + 0]);
            assert(false);
        }
    };
    assert(!match_at(s, p, "Y"@)) by {
        if match_at(s, p, "Y"@) {
            assert(s.subrange(p, p + 1)[0] == s[p + 0]);
            assert(s.subrange(p, s.len() as int)[0] == s[p + 0]);
            assert(false);
        }
    };
    assert(!match_at(s, p, "nanos"@)) by {
        if match_at(s, p, "nanos"@) {
            assert(s.subrange(p, p + 5)[0] == s[p + 0]);
            assert(s.subrange(p, s.len() as int)[0] == s[p + 0]);
            assert(false);
        }
    };
    assert(!match_at(s, p, "nsec"@)) by {
        if match_at(s, p, "nsec"@) {
            assert(s.subrange(p, p + 4)[0] == s[p + 0]);
            assert(s.subrange(p, s.len() as int)[0] == s[p + 0]);
            assert(false);
        }
    };
    assert(!match_at(s, p, "ns"@)) by {
        if match_at(s, p, "ns"@) {
            assert(s.subrange(p, p + 2)[0] == s[p + 0]);
            assert(s.subrange(p, s.len() as int)[0] == s[p + 0]);
            assert(false);
        }
    };
    assert(!match_at(s, p, "micros"@)) by {
        if match_at(s, p, "micros"@) {
            assert(s.subrange(p, p + 6)[2] == s[p + 2]);
            assert(s.subrange(p, s.len() as int)[2] == s[p + 2]);
            assert(false);
        }
    };
    assert(!match_at(s, p, "usec"@)) by {
        if match_at(s, p, "usec"@) {
            assert(s.subrange(p, p + 4)[0] == s[p + 0]);
            assert(s.subrange(p, s.len() as int)[0] == s[p + 0]);
            assert(false);
        }
    };
    assert(!match_at(s, p, "us"@)) by {
        if match_at(s, p, "us"@) {
            assert(s.subrange(p, p + 2)[0] == s[p + 0]);
            assert(s.subrange(p, s.len() as int)[0] == s[p + 0]);
            assert(false);
        }
    };
    assert(match_at(s, p, "millis"@)) by {
        assert(s.subrange(p, p + 6) == s.subrange(p, s.len() as int));
    };
}

/// With `msec` as the whole tail at `p`, the resolver yields `Millis`.
proof fn lemma_tail_millis_msec(s: Seq<char>, p: int)
    requires
        0 <= p <= s.len(),
        s.subrange(p, s.len() as int) == "msec"@,
    ensures
        resolve_unit(s, p) == Some((Unit::Millis, s.len() as int)),
{
    reveal_strlit("months");
    reveal_strlit("month");
    reveal_strlit("mths");
    reveal_strlit("mth");
    reveal_strlit("M");
    reveal_strlit("days");
    reveal_strlit("day");
    reveal_strlit("dys");
    reveal_strlit("dy");
    reveal_strlit("d");
    reveal_strlit("D");
    reveal_strlit("weeks");
    reveal_strlit("week");
    reveal_strlit("wks");
    reveal_strlit("wk");
    reveal_strlit("w");
    reveal_strlit("W");
    reveal_strlit("years");
    reveal_strlit("year");
    reveal_strlit("yrs");
    reveal_strlit("yr");
    reveal_strlit("y");
    reveal_strlit("Y");
    reveal_strlit("nanos");
    reveal_strlit("nsec");
    reveal_strlit("ns");
    reveal_strlit("micros");
    reveal_strlit("usec");
    reveal_strlit("us");
    reveal_strlit("millis");
    reveal_strlit("msec");
    reveal_strlit("ms");
    reveal_strlit("seconds");
    reveal_strlit("second");
    reveal_strlit("secs");
    reveal_strlit("sec");
    reveal_strlit("s");
    reveal_strlit("minutes");
    reveal_strlit("minute");
    reveal_strlit("mins");
    reveal_strlit("min");
    reveal_strlit("m");
    reveal_strlit("hours");
    reveal_strlit("hour");
    reveal_strlit("hrs");
    reveal_strlit("hr");
    reveal_strlit("h");
    reveal_strlit("H");
    assert(s.len() - p == 4);
    assert(!match_at(s, p, "mths"@)) by {
        if match_at(s, p, "mths"@) {
            assert(s.subrange(p, p + 4)[1] == s[p + 1]);
            assert(s.subrange(p, s.len() as int)[1] == s[p + 1]);
            assert(false);
        }
    };
    assert(!match_at(s, p, "mth"@)) by {
        if match_at(s, p, "mth"@) {
            assert(s.subrange(p, p + 3)[1] == s[p + 1]);
            assert(s.subrange(p, s.len() as int)[1] == s[p + 1]);
            assert(false);
        }
    };
    assert(!match_at(s, p, "M"@)) by {
        if match_at(s, p, "M"@) {
            assert(s.subrange(p, p + 1)[0] == s[p + 0]);
            assert(s.subrange(p, s.len() as int)[0] == s[p + 0]);
            assert(false);
        }
    };
    assert(!match_at(s, p, "days"@)) by {
        if match_at(s, p, "days"@) {
            assert(s.subrange(p, p + 4)[0] == s[p + 0]);
            assert(s.subrange(p, s.len() as int)[0] == s[p + 0]);
            assert(false);
        }
    };
    assert(!match_at(s, p, "day"@)) by {
        if match_at(s, p, "day"@) {
            assert(s.subrange(p, p + 3)[0] == s[p + 0]);
            assert(s.subrange(p, s.len() as int)[0] == s[p + 0]);
            assert(false);
        }
    };
    assert(!match_at(s, p, "dys"@)) by {
        if match_at(s, p, "dys"@) {
            assert(s.subrange(p, p + 3)[0] == s[p + 0]);
            assert(s.subrange(p, s.len() as int)[0] == s[p + 0]);
            assert(false);
        }
    };
    assert(!match_at(s, p, "dy"@)) by {
        if match_at(s, p, "dy"@) {
            assert(s.subrange(p, p + 2)[0] == s[p + 0]);
            assert(s.subrange(p, s.len() as int)[0] == s[p + 0]);
            assert(false);
        }
    };
    assert(!match_at(s, p, "d"@)) by {
        if match_at(s, p, "d"@) {
            assert(s.subrange(p, p + 1)[0] == s[p + 0]);
            assert(s.subrange(p, s.len() as int)[0] == s[p + 0]);
            assert(false);
        }
    };
    assert(!match_at(s, p, "D"@)) by {
        if match_at(s, p, "D"@) {
            assert(s.subrange(p, p + 1)[0] == s[p + 0]);
            assert(s.subrange(p, s.len() as int)[0] == s[p + 0]);
            assert(false);
        }
    };
    assert(!match_at(s, p, "week"@)) by {
        if match_at(s, p, "week"@) {
            assert(s.subrange(p, p + 4)[0] == s[p + 0]);
            assert(s.subrange(p, s.len() as int)[0] == s[p + 0]);
            assert(false);
        }
    };
    assert(!match_at(s, p, "wks"@)) by {
        if match_at(s, p, "wks"@) {
            assert(s.subrange(p, p + 3)[0] == s[p + 0]);
            assert(s.subrange(p, s.len() as int)[0] == s[p + 0]);
            assert(false);
        }
    };
    assert(!match_at(s, p, "wk"@)) by {
        if match_at(s, p, "wk"@) {
            assert(s.subrange(p, p + 2)[0] == s[p + 0]);
            assert(s.subrange(p, s.len() as int)[0] == s[p + 0]);
            assert(false);
        }
    };
    assert(!match_at(s, p, "w"@)) by {
        if match_at(s, p, "w"@) {
            assert(s.subrange(p, p + 1)[0] == s[p + 0]);
            assert(s.subrange(p, s.len() as int)[0] == s[p + 0]);
            assert(false);
        }
    };
    assert(!match_at(s, p, "W"@)) by {
        if match_at(s, p, "W"@) {
            assert(s.subrange(p, p + 1)[0] == s[p + 0]);
            assert(s.subrange(p, s.len() as int)[0] == s[p + 0]);
            assert(false);
        }
    };
    assert(!match_at(s, p, "year"@)) by {
        if match_at(s, p, "year"@) {
            assert(s.subrange(p, p + 4)[0] == s[p + 0]);
            assert(s.subrange(p, s.len() as int)[0] == s[p + 0]);
            assert(false);
        }
    };
    assert(!match_at(s, p, "yrs"@)) by {
        if match_at(s, p, "yrs"@) {
            assert(s.subrange(p, p + 3)[0] == s[p + 0]);
            assert(s.subrange(p, s.len() as int)[0] == s[p + 0]);
            assert(false);
        }
    };
    assert(!match_at(s, p, "yr"@)) by {
        if match_at(s, p, "yr"@) {
            assert(s.subrange(p, p + 2)[0] == s[p + 0]);
            assert(s.subrange(p, s.len() as int)[0] == s[p + 0]);
            assert(false);
        }
    };
    assert(!match_at(s, p, "y"@)) by {
        if match_at(s, p, "y"@) {
            assert(s.subrange(p, p + 1)[0] == s[p + 0]);
            assert(s.subrange(p, s.len() as int)[0] == s[p + 0]);
            assert(false);
        }
    };
    assert(!match_at(s, p, "Y"@)) by {
        if match_at(s, p, "Y"@) {
            assert(s.subrange(p, p + 1)[0] == s[p + 0]);
            assert(s.subrange(p, s.len() as int)[0] == s[p + 0]);
            assert(false);
        }
    };
    assert(!match_at(s, p, "nsec"@)) by {
        if match_at(s, p, "nsec"@) {
            assert(s.subrange(p, p + 4)[0] == s[p + 0]);
            assert(s.subrange(p, s.len() as int)[0] == s[p + 0]);
            assert(false);
        }
    };
    assert(!match_at(s, p, "ns"@)) by {
        if match_at(s, p, "ns"@) {
            assert(s.subrange(p, p + 2)[0] == s[p + 0]);
            assert(s.subrange(p, s.len() as int)[0] == s[p + 0]);
            assert(false);
        }
    };
    assert(!match_at(s, p, "usec"@)) by {
        if match_at(s, p, "usec"@) {
            assert(s.subrange(p, p + 4)[0] == s[p + 0]);
            assert(s.subrange(p, s.len() as int)[0] == s[p + 0]);
            assert(false);
        }
    };
    assert(!match_at(s, p, "us"@)) by {
        if match_at(s, p, "us"@) {
            assert(s.subrange(p, p + 2)[0] == s[p + 0]);
            assert(s.subrange(p, s.len() as int)[0] == s[p + 0]);
            assert(false);
        }
    };
    assert(match_at(s, p, "msec"@)) by {
        assert(s.subrange(p, p + 4) == s.subrange(p, s.len() as int));
    };
}

/// With `ms` as the whole tail at `p`, the resolver yields `Millis`.
proof fn lemma_tail_millis_ms(s: Seq<char>, p: int)
    requires
        0 <= p <= s.len(),
        s.subrange(p, s.len() as int) == "ms"@,
    ensures
        resolve_unit(s, p) == Some((Unit::Millis, s.len() as int)),
{
    reveal_strlit("months");
    reveal_strlit("month");
    reveal_strlit("mths");
    reveal_strlit("mth");
    reveal_strlit("M");
    reveal_strlit("days");
    reveal_strlit("day");
    reveal_strlit("dys");
    reveal_strlit("dy");
    reveal_strlit("d");
    reveal_strlit("D");
    reveal_strlit("weeks");
    reveal_strlit("week");
    reveal_strlit("wks");
    reveal_strlit("wk");
    reveal_strlit("w");
    reveal_strlit("W");
    reveal_strlit("years");
    reveal_strlit("year");
    reveal_strlit("yrs");
    reveal_strlit("yr");
    reveal_strlit("y");
    reveal_strlit("Y");
    reveal_strlit("nanos");
    reveal_strlit("nsec");
    reveal_strlit("ns");
    reveal_strlit("micros");
    reveal_strlit("usec");
    reveal_strlit("us");
    reveal_strlit("millis");
    reveal_strlit("msec");
    reveal_strlit("ms");
    reveal_strlit("seconds");
    reveal_strlit("second");
    reveal_strlit("secs");
    reveal_strlit("sec");
    reveal_strlit("s");
    reveal_strlit("minutes");
    reveal_strlit("minute");
    reveal_strlit("mins");
    reveal_strlit("min");
    reveal_strlit("m");
    reveal_strlit("hours");
    reveal_strlit("hour");
    reveal_strlit("hrs");
    reveal_strlit("hr");
    reveal_strlit("h");
    reveal_strlit("H");
    assert(s.len() - p == 2);
    assert(!match_at(s, p, "M"@)) by {
        if match_at(s, p, "M"@) {
            assert(s.subrange(p, p + 1)[0] == s[p + 0]);
            assert(s.subrange(p, s.len() as int)[0] == s[p + 0]);
            assert(false);
        }
    };
    assert(!match_at(s, p, "dy"@)) by {
        if match_at(s, p, "dy"@) {
            assert(s.subrange(p, p + 2)[0] == s[p + 0]);
            assert(s.subrange(p, s.len() as int)[0] == s[p + 0]);
            assert(false);
        }
    };
    assert(!match_at(s, p, "d"@)) by {
        if match_at(s, p, "d"@) {
            assert(s.subrange(p, p + 1)[0] == s[p + 0]);
            assert(s.subrange(p, s.len() as int)[0] == s[p + 0]);
            assert(false);
        }
    };
    assert(!match_at(s, p, "D"@)) by {
        if match_at(s, p, "D"@) {
            assert(s.subrange(p, p + 1)[0] == s[p + 0]);
            assert(s.subrange(p, s.len() as int)[0] == s[p + 0]);
            assert(false);
        }
    };
    assert(!match_at(s, p, "wk"@)) by {
        if match_at(s, p, "wk"@) {
            assert(s.subrange(p, p + 2)[0] == s[p + 0]);
            assert(s.subrange(p, s.len() as int)[0] == s[p + 0]);
            assert(false);
        }
    };
    assert(!match_at(s, p, "w"@)) by {
        if match_at(s, p, "w"@) {
            assert(s.subrange(p, p + 1)[0] == s[p + 0]);
            assert(s.subrange(p, s.len() as int)[0] == s[p + 0]);
            assert(false);
        }
    };
    assert(!match_at(s, p, "W"@)) by {
        if match_at(s, p, "W"@) {
            assert(s.subrange(p, p + 1)[0] == s[p + 0]);
            assert(s.subrange(p, s.len() as int)[0] == s[p + 0]);
            assert(false);
        }
    };
    assert(!match_at(s, p, "yr"@)) by {
        if match_at(s, p, "yr"@) {
            assert(s.subrange(p, p + 2)[0] == s[p + 0]);
            assert(s.subrange(p, s.len() as int)[0] == s[p + 0]);
            assert(false);
        }
    };
    assert(!match_at(s, p, "y"@)) by {
        if match_at(s, p, "y"@) {
            assert(s.subrange(p, p + 1)[0] == s[p + 0]);
            assert(s.subrange(p, s.len() as int)[0] == s[p + 0]);
            assert(false);
        }
    };
    assert(!match_at(s, p, "Y"@)) by {
        if match_at(s, p, "Y"@) {
            assert(s.subrange(p, p + 1)[0] == s[p + 0]);
            assert(s.subrange(p, s.len() as int)[0] == s[p + 0]);
            assert(false);
        }
    };
    assert(!match_at(s, p, "ns"@)) by {
        if match_at(s, p, "ns"@) {
            assert(s.subrange(p, p + 2)[0] == s[p + 0]);
            assert(s.subrange(p, s.len() as int)[0] == s[p + 0]);
            assert(false);
        }
    };
    assert(!match_at(s, p, "us"@)) by {
        if match_at(s, p, "us"@) {
            assert(s.subrange(p, p + 2)[0] == s[p + 0]);
            assert(s.subrange(p, s.len() as int)[0] == s[p + 0]);
            assert(false);
        }
    };
    assert(match_at(s, p, "ms"@)) by {
        assert(s.subrange(p, p + 2) == s.subrange(p, s.len() as int));
    };
}

/// With `seconds` as the whole tail at `p`, the resolver yields `Seconds`.
proof fn lemma_tail_seconds_seconds(s: Seq<char>, p: int)
    requires
        0 <= p <= s.len(),
        s.subrange(p, s.len() as int) == "seconds"@,
    ensures
        resolve_unit(s, p) == Some((Unit::Seconds, s.len() as int)),
{
    reveal_strlit("months");
    reveal_strlit("month");
    reveal_strlit("mths");
    reveal_strlit("mth");
    reveal_strlit("M");
    reveal_strlit("days");
    reveal_strlit("day");
    reveal_strlit("dys");
    reveal_strlit("dy");
    reveal_strlit("d");
    reveal_strlit("D");
    reveal_strlit("weeks");
    reveal_strlit("week");
    reveal_strlit("wks");
    reveal_strlit("wk");
    reveal_strlit("w");
    reveal_strlit("W");
    reveal_strlit("years");
    reveal_strlit("year");
    reveal_strlit("yrs");
    reveal_strlit("yr");
    reveal_strlit("y");
    reveal_strlit("Y");
    reveal_strlit("nanos");
    reveal_strlit("nsec");
    reveal_strlit("ns");
    reveal_strlit("micros");
    reveal_strlit("usec");
    reveal_strlit("us");
    reveal_strlit("millis");
    reveal_strlit("msec");
    reveal_strlit("ms");
    reveal_strlit("seconds");
    reveal_strlit("second");
    reveal_strlit("secs");
    reveal_strlit("sec");
    reveal_strlit("s");
    reveal_strlit("minutes");
    reveal_strlit("minute");
    reveal_strlit("mins");
    reveal_strlit("min");
    reveal_strlit("m");
    reveal_strlit("hours");
    reveal_strlit("hour");
    reveal_strlit("hrs");
    reveal_strlit("hr");
    reveal_strlit("h");
    reveal_strlit("H");
    assert(s.len() - p == 7);
    assert(!match_at(s, p, "months"@)) by {
        if match_at(s, p, "months"@) {
            assert(s.subrange(p, p + 6)[0] == s[p + 0]);
            assert(s.subrange(p, s.len() as int)[0] == s[p + 0]);
            assert(false);
        }
    };
    assert(!match_at(s, p, "month"@)) by {
        if match_at(s, p, "month"@) {
            assert(s.subrange(p, p + 5)[0] == s[p + 0]);
            assert(s.subrange(p, s.len() as int)[0] == s[p + 0]);
            assert(false);
        }
    };
    assert(!match_at(s, p, "mths"@)) by {
        if match_at(s, p, "mths"@) {
            assert(s.subrange(p, p + 4)[0] == s[p + 0]);
            assert(s.subrange(p, s.len() as int)[0] == s[p + 0]);
            assert(false);
        }
    };
    assert(!match_at(s, p, "mth"@)) by {
        if match_at(s, p, "mth"@) {
            assert(s.subrange(p, p + 3)[0] == s[p + 0]);
            assert(s.subrange(p, s.len() as int)[0] == s[p + 0]);
            assert(false);
        }
    };
    assert(!match_at(s, p, "M"@)) by {
        if match_at(s, p, "M"@) {
            assert(s.subrange(p, p + 1)[0] == s[p + 0]);
            assert(s.subrange(p, s.len() as int)[0] == s[p + 0]);
            assert(false);
        }
    };
    assert(!match_at(s, p, "days"@)) by {
        if match_at(s, p, "days"@) {
            assert(s.subrange(p, p + 4)[0] == s[p + 0]);
            assert(s.subrange(p, s.len() as int)[0] == s[p + 0]);
            assert(false);
        }
    };
    assert(!match_at(s, p, "day"@)) by {
        if match_at(s, p, "day"@) {
            assert(s.subrange(p, p + 3)[0] == s[p + 0]);
            assert(s.subrange(p, s.len() as int)[0] == s[p + 0]);
            assert(false);
        }
    };
    assert(!match_at(s, p, "dys"@)) by {
        if match_at(s, p, "dys"@) {
            assert(s.subrange(p, p + 3)[0] == s[p + 0]);
            assert(s.subrange(p, s.len() as int)[0] == s[p + 0]);
            assert(false);
        }
    };
    assert(!match_at(s, p, "dy"@)) by {
        if match_at(s, p, "dy"@) {
            assert(s.subrange(p, p + 2)[0] == s[p + 0]);
            assert(s.subrange(p, s.len() as int)[0] == s[p + 0]);
            assert(false);
        }
    };
    assert(!match_at(s, p, "d"@)) by {
        if match_at(s, p, "d"@) {
            assert(s.subrange(p, p + 1)[0] == s[p + 0]);
            assert(s.subrange(p, s.len() as int)[0] == s[p + 0]);
            assert(false);
        }
    };
    assert(!match_at(s, p, "D"@)) by {
        if match_at(s, p, "D"@) {
            assert(s.subrange(p, p + 1)[0] == s[p + 0]);
            assert(s.subrange(p, s.len() as int)[0] == s[p + 0]);
            assert(false);
        }
    };
    assert(!match_at(s, p, "weeks"@)) by {
        if match_at(s, p, "weeks"@) {
            assert(s.subrange(p, p + 5)[0] == s[p + 0]);
            assert(s.subrange(p, s.len() as int)[0] == s[p + 0]);
            assert(false);
        }
    };
    assert(!match_at(s, p, "week"@)) by {
        if match_at(s, p, "week"@) {
            assert(s.subrange(p, p + 4)[0] == s[p + 0]);
            assert(s.subrange(p, s.len() as int)[0] == s[p + 0]);
            assert(false);
        }
    };
    assert(!match_at(s, p, "wks"@)) by {
        if match_at(s, p, "wks"@) {
            assert(s.subrange(p, p + 3)[0] == s[p + 0]);
            assert(s.subrange(p, s.len() as int)[0] == s[p + 0]);
            assert(false);
        }
    };
    assert(!match_at(s, p, "wk"@)) by {
        if match_at(s, p, "wk"@) {
            assert(s.subrange(p, p + 2)[0] == s[p + 0]);
            assert(s.subrange(p, s.len() as int)[0] == s[p + 0]);
            assert(false);
        }
    };
    assert(!match_at(s, p, "w"@)) by {
        if match_at(s, p, "w"@) {
            assert(s.subrange(p, p + 1)[0] == s[p + 0]);
            assert(s.subrange(p, s.len() as int)[0] == s[p + 0]);
            assert(false);
        }
    };
    assert(!match_at(s, p, "W"@)) by {
        if match_at(s, p, "W"@) {
            assert(s.subrange(p, p + 1)[0] == s[p + 0]);
            assert(s.subrange(p, s.len() as int)[0] == s[p + 0]);
            assert(false);
        }
    };
    assert(!match_at(s, p, "years"@)) by {
        if match_at(s, p, "years"@) {
            assert(s.subrange(p, p + 5)[0] == s[p + 0]);
            assert(s.subrange(p, s.len() as int)[0] == s[p + 0]);
            assert(false);
        }
    };
    assert(!match_at(s, p, "year"@)) by {
        if match_at(s, p, "year"@) {
            assert(s.subrange(p, p + 4)[0] == s[p + 0]);
            assert(s.subrange(p, s.len() as int)[0] == s[p + 0]);
            assert(false);
        }
    };
    assert(!match_at(s, p, "yrs"@)) by {
        if match_at(s, p, "yrs"@) {
            assert(s.subrange(p, p + 3)[0] == s[p + 0]);
            assert(s.subrange(p, s.len() as int)[0] == s[p + 0]);
            assert(false);
        }
    };
    assert(!match_at(s, p, "yr"@)) by {
        if match_at(s, p, "yr"@) {
            assert(s.subrange(p, p + 2)[0] == s[p + 0]);
            assert(s.subrange(p, s.len() as int)[0] == s[p + 0]);
            assert(false);
        }
    };
    assert(!match_at(s, p, "y"@)) by {
        if match_at(s, p, "y"@) {
            assert(s.subrange(p, p + 1)[0] == s[p + 0]);
            assert(s.subrange(p, s.len() as int)[0] == s[p + 0]);
            assert(false);
        }
    };
    assert(!match_at(s, p, "Y"@)) by {
        if match_at(s, p, "Y"@) {
            assert(s.subrange(p, p + 1)[0] == s[p + 0]);
            assert(s.subrange(p, s.len() as int)[0] == s[p + 0]);
            assert(false);
        }
    };
    assert(!match_at(s, p, "nanos"@)) by {
        if match_at(s, p, "nanos"@) {
            assert(s.subrange(p, p + 5)[0] == s[p + 0]);
            assert(s.subrange(p, s.len() as int)[0] == s[p + 0]);
            assert(false);
        }
    };
    assert(!match_at(s, p, "nsec"@)) by {
        if match_at(s, p, "nsec"@) {
            assert(s.subrange(p, p + 4)[0] == s[p + 0]);
            assert(s.subrange(p, s.len() as int)[0] == s[p + 0]);
            assert(false);
        }
    };
    assert(!match_at(s, p, "ns"@)) by {
        if match_at(s, p, "ns"@) {
            assert(s.subrange(p, p + 2)[0] == s[p + 0]);
            assert(s.subrange(p, s.len() as int)[0] == s[p + 0]);
            assert(false);
        }
    };
    assert(!match_at(s, p, "micros"@)) by {
        if match_at(s, p, "micros"@) {
            assert(s.subrange(p, p + 6)[0] == s[p + 0]);
            assert(s.subrange(p, s.len() as int)[0] == s[p + 0]);
            assert(false);
        }
    };
    assert(!match_at(s, p, "usec"@)) by {
        if match_at(s, p, "usec"@) {
            assert(s.subrange(p, p + 4)[0] == s[p + 0]);
            assert(s.subrange(p, s.len() as int)[0] == s[p + 0]);
            assert(false);
        }
    };
    assert(!match_at(s, p, "us"@)) by {
        if match_at(s, p, "us"@) {
            assert(s.subrange(p, p + 2)[0] == s[p + 0]);
            assert(s.subrange(p, s.len() as int)[0] == s[p + 0]);
            assert(false);
        }
    };
    assert(!match_at(s, p, "millis"@)) by {
        if match_at(s, p, "millis"@) {
            assert(s.subrange(p, p + 6)[0] == s[p + 0]);
            assert(s.subrange(p, s.len() as int)[0] == s[p + 0]);
            assert(false);
        }
    };
    assert(!match_at(s, p, "msec"@)) by {
        if match_at(s, p, "msec"@) {
            assert(s.subrange(p, p + 4)[0] == s[p + 0]);
            assert(s.subrange(p, s.len() as int)[0] == s[p + 0]);
            assert(false);
        }
    };
    assert(!match_at(s, p, "ms"@)) by {
        if match_at(s, p, "ms"@) {
            assert(s.subrange(p, p + 2)[0] == s[p + 0]);
            assert(s.subrange(p, s.len() as int)[0] == s[p + 0]);
            assert(false);
        }
    };
    assert(match_at(s, p, "seconds"@)) by {
        assert(s.subrange(p, p + 7) == s.subrange(p, s.len() as int));
    };
}

/// With `second` as the whole tail at `p`, the resolver yields `Seconds`.
proof fn lemma_tail_seconds_second(s: Seq<char>, p: int)
    requires
        0 <= p <= s.len(),
        s.subrange(p, s.len() as int) == "second"@,
    ensures
        resolve_unit(s, p) == Some((Unit::Seconds, s.len() as int)),
{
    reveal_strlit("months");
    reveal_strlit("month");
    reveal_strlit("mths");
    reveal_strlit("mth");
    reveal_strlit("M");
    reveal_strlit("days");
    reveal_strlit("day");
    reveal_strlit("dys");
    reveal_strlit("dy");
    reveal_strlit("d");
    reveal_strlit("D");
    reveal_strlit("weeks");
    reveal_strlit("week");
    reveal_strlit("wks");
    reveal_strlit("wk");
    reveal_strlit("w");
    reveal_strlit("W");
    reveal_strlit("years");
    reveal_strlit("year");
    reveal_strlit("yrs");
    reveal_strlit("yr");
    reveal_strlit("y");
    reveal_strlit("Y");
    reveal_strlit("nanos");
    reveal_strlit("nsec");
    reveal_strlit("ns");
    reveal_strlit("micros");
    reveal_strlit("usec");
    reveal_strlit("us");
    reveal_strlit("millis");
    reveal_strlit("msec");
    reveal_strlit("ms");
    reveal_strlit("seconds");
    reveal_strlit("second");
    reveal_strlit("secs");
    reveal_strlit("sec");
    reveal_strlit("s");
    reveal_strlit("minutes");
    reveal_strlit("minute");
    reveal_strlit("mins");
    reveal_strlit("min");
    reveal_strlit("m");
    reveal_strlit("hours");
    reveal_strlit("hour");
    reveal_strlit("hrs");
    reveal_strlit("hr");
    reveal_strlit("h");
    reveal_strlit("H");
    assert(s.len() - p == 6);
    assert(!match_at(s, p, "months"@)) by {
        if match_at(s, p, "months"@) {
            assert(s.subrange(p, p + 6)[0] == s[p + 0]);
            assert(s.subrange(p, s.len() as int)[0] == s[p + 0]);
            assert(false);
        }
    };
    assert(!match_at(s, p, "month"@)) by {
        if match_at(s, p, "month"@) {
            assert(s.subrange(p, p + 5)[0] == s[p + 0]);
            assert(s.subrange(p, s.len() as int)[0] == s[p + 0]);
            assert(false);
        }
    };
    assert(!match_at(s, p, "mths"@)) by {
        if match_at(s, p, "mths"@) {
            assert(s.subrange(p, p + 4)[0] == s[p + 0]);
            assert(s.subrange(p, s.len() as int)[0] == s[p + 0]);
            assert(false);
        }
    };
    assert(!match_at(s, p, "mth"@)) by {
        if match_at(s, p, "mth"@) {
            assert(s.subrange(p, p + 3)[0] == s[p + 0]);
            assert(s.subrange(p, s.len() as int)[0] == s[p + 0]);
            assert(false);
        }
    };
    assert(!match_at(s, p, "M"@)) by {
        if match_at(s, p, "M"@) {
            assert(s.subrange(p, p + 1)[0] == s[p + 0]);
            assert(s.subrange(p, s.len() as int)[0] == s[p + 0]);
            assert(false);
        }
    };
    assert(!match_at(s, p, "days"@)) by {
        if match_at(s, p, "days"@) {
            assert(s.subrange(p, p + 4)[0] == s[p + 0]);
            assert(s.subrange(p, s.len() as int)[0] == s[p + 0]);
            assert(false);
        }
    };
    assert(!match_at(s, p, "day"@)) by {
        if match_at(s, p, "day"@) {
            assert(s.subrange(p, p + 3)[0] == s[p + 0]);
            assert(s.subrange(p, s.len() as int)[0] == s[p + 0]);
            assert(false);
        }
    };
    assert(!match_at(s, p, "dys"@)) by {
        if match_at(s, p, "dys"@) {
            assert(s.subrange(p, p + 3)[0] == s[p + 0]);
            assert(s.subrange(p, s.len() as int)[0] == s[p + 0]);
            assert(false);
        }
    };
    assert(!match_at(s, p, "dy"@)) by {
        if match_at(s, p, "dy"@) {
            assert(s.subrange(p, p + 2)[0] == s[p + 0]);
            assert(s.subrange(p, s.len() as int)[0] == s[p + 0]);
            assert(false);
        }
    };
    assert(!match_at(s, p, "d"@)) by {
        if match_at(s, p, "d"@) {
            assert(s.subrange(p, p + 1)[0] == s[p + 0]);
            assert(s.subrange(p, s.len() as int)[0] == s[p + 0]);
            assert(false);
        }
    };
    assert(!match_at(s, p, "D"@)) by {
        if match_at(s, p, "D"@) {
            assert(s.subrange(p, p + 1)[0] == s[p + 0]);
            assert(s.subrange(p, s.len() as int)[0] == s[p + 0]);
            assert(false);
        }
    };
    assert(!match_at(s, p, "weeks"@)) by {
        if match_at(s, p, "weeks"@) {
            assert(s.subrange(p, p + 5)[0] == s[p + 0]);
            assert(s.subrange(p, s.len() as int)[0] == s[p + 0]);
            assert(false);
        }
    };
    assert(!match_at(s, p, "week"@)) by {
        if match_at(s, p, "week"@) {
            assert(s.subrange(p, p + 4)[0] == s[p + 0]);
            assert(s.subrange(p, s.len() as int)[0] == s[p + 0]);
            assert(false);
        }
    };
    assert(!match_at(s, p, "wks"@)) by {
        if match_at(s, p, "wks"@) {
            assert(s.subrange(p, p + 3)[0] == s[p + 0]);
            assert(s.subrange(p, s.len() as int)[0] == s[p + 0]);
            assert(false);
        }
    };
    assert(!match_at(s, p, "wk"@)) by {
        if match_at(s, p, "wk"@) {
            assert(s.subrange(p, p + 2)[0] == s[p + 0]);
            assert(s.subrange(p, s.len() as int)[0] == s[p + 0]);
            assert(false);
        }
    };
    assert(!match_at(s, p, "w"@)) by {
        if match_at(s, p, "w"@) {
            assert(s.subrange(p, p + 1)[0] == s[p + 0]);
            assert(s.subrange(p, s.len() as int)[0] == s[p + 0]);
            assert(false);
        }
    };
    assert(!match_at(s, p, "W"@)) by {
        if match_at(s, p, "W"@) {
            assert(s.subrange(p, p + 1)[0] == s[p + 0]);
            assert(s.subrange(p, s.len() as int)[0] == s[p + 0]);
            assert(false);
        }
    };
    assert(!match_at(s, p, "years"@)) by {
        if match_at(s, p, "years"@) {
            assert(s.subrange(p, p + 5)[0] == s[p + 0]);
            assert(s.subrange(p, s.len() as int)[0] == s[p + 0]);
            assert(false);
        }
    };
    assert(!match_at(s, p, "year"@)) by {
        if match_at(s, p, "year"@) {
            assert(s.subrange(p, p + 4)[0] == s[p + 0]);
            assert(s.subrange(p, s.len() as int)[0] == s[p + 0]);
            assert(false);
        }
    };
    assert(!match_at(s, p, "yrs"@)) by {
        if match_at(s, p, "yrs"@) {
            assert(s.subrange(p, p + 3)[0] == s[p + 0]);
            assert(s.subrange(p, s.len() as int)[0] == s[p + 0]);
            assert(false);
        }
    };
    assert(!match_at(s, p, "yr"@)) by {
        if match_at(s, p, "yr"@) {
            assert(s.subrange(p, p + 2)[0] == s[p + 0]);
            assert(s.subrange(p, s.len() as int)[0] == s[p + 0]);
            assert(false);
        }
    };
    assert(!match_at(s, p, "y"@)) by {
        if match_at(s, p, "y"@) {
            assert(s.subrange(p, p + 1)[0] == s[p + 0]);
            assert(s.subrange(p, s.len() as int)[0] == s[p + 0]);
            assert(false);
        }
    };
    assert(!match_at(s, p, "Y"@)) by {
        if match_at(s, p, "Y"@) {
            assert(s.subrange(p, p + 1)[0] == s[p + 0]);
            assert(s.subrange(p, s.len() as int)[0] == s[p + 0]);
            assert(false);
        }
    };
    assert(!match_at(s, p, "nanos"@)) by {
        if match_at(s, p, "nanos"@) {
            assert(s.subrange(p, p + 5)[0] == s[p + 0]);
            assert(s.subrange(p, s.len() as int)[0] == s[p + 0]);
            assert(false);
        }
    };
    assert(!match_at(s, p, "nsec"@)) by {
        if match_at(s, p, "nsec"@) {
            assert(s.subrange(p, p + 4)[0] == s[p + 0]);
            assert(s.subrange(p, s.len() as int)[0] == s[p + 0]);
            assert(false);
        }
    };
    assert(!match_at(s, p, "ns"@)) by {
        if match_at(s, p, "ns"@) {
            assert(s.subrange(p, p + 2)[0] == s[p + 0]);
            assert(s.subrange(p, s.len() as int)[0] == s[p + 0]);
            assert(false);
        }
    };
    assert(!match_at(s, p, "micros"@)) by {
        if match_at(s, p, "micros"@) {
            assert(s.subrange(p, p + 6)[0] == s[p + 0]);
            assert(s.subrange(p, s.len() as int)[0] == s[p + 0]);
            assert(false);
        }
    };
    assert(!match_at(s, p, "usec"@)) by {
        if match_at(s, p, "usec"@) {
            assert(s.subrange(p, p + 4)[0] == s[p + 0]);
            assert(s.subrange(p, s.len() as int)[0] == s[p + 0]);
            assert(false);
        }
    };
    assert(!match_at(s, p, "us"@)) by {
        if match_at(s, p, "us"@) {
            assert(s.subrange(p, p + 2)[0] == s[p + 0]);
            assert(s.subrange(p, s.len() as int)[0] == s[p + 0]);
            assert(false);
        }
    };
    assert(!match_at(s, p, "millis"@)) by {
        if match_at(s, p, "millis"@) {
            assert(s.subrange(p, p + 6)[0] == s[p + 0]);
            assert(s.subrange(p, s.len() as int)[0] == s[p + 0]);
            assert(false);
        }
    };
    assert(!match_at(s, p, "msec"@)) by {
        if match_at(s, p, "msec"@) {
            assert(s.subrange(p, p + 4)[0] == s[p + 0]);
            assert(s.subrange(p, s.len() as int)[0] == s[p + 0]);
            assert(false);
        }
    };
    assert(!match_at(s, p, "ms"@)) by {
        if match_at(s, p, "ms"@) {
            assert(s.subrange(p, p + 2)[0] == s[p + 0]);
            assert(s.subrange(p, s.len() as int)[0] == s[p + 0]);
            assert(false);
        }
    };
    assert(match_at(s, p, "second"@)) by {
        assert(s.subrange(p, p + 6) == s.subrange(p, s.len() as int));
    };
}

/// With `secs` as the whole tail at `p`, the resolver yields `Seconds`.
proof fn lemma_tail_seconds_secs(s: Seq<char>, p: int)
    requires
        0 <= p <= s.len(),
        s.subrange(p, s.len() as int) == "secs"@,
    ensures
        resolve_unit(s, p) == Some((Unit::Seconds, s.len() as int)),
{
    reveal_strlit("months");
    reveal_strlit("month");
    reveal_strlit("mths");
    reveal_strlit("mth");
    reveal_strlit("M");
    reveal_strlit("days");
    reveal_strlit("day");
    reveal_strlit("dys");
    reveal_strlit("dy");
    reveal_strlit("d");
    reveal_strlit("D");
    reveal_strlit("weeks");
    reveal_strlit("week");
    reveal_strlit("wks");
    reveal_strlit("wk");
    reveal_strlit("w");
    reveal_strlit("W");
    reveal_strlit("years");
    reveal_strlit("year");
    reveal_strlit("yrs");
    reveal_strlit("yr");
    reveal_strlit("y");
    reveal_strlit("Y");
    reveal_strlit("nanos");
    reveal_strlit("nsec");
    reveal_strlit("ns");
    reveal_strlit("micros");
    reveal_strlit("usec");
    reveal_strlit("us");
    reveal_strlit("millis");
    reveal_strlit("msec");
    reveal_strlit("ms");
    reveal_strlit("seconds");
    reveal_strlit("second");
    reveal_strlit("secs");
    reveal_strlit("sec");
    reveal_strlit("s");
    reveal_strlit("minutes");
    reveal_strlit("minute");
    reveal_strlit("mins");
    reveal_strlit("min");
    reveal_strlit("m");
    reveal_strlit("hours");
    reveal_strlit("hour");
    reveal_strlit("hrs");
    reveal_strlit("hr");
    reveal_strlit("h");
    reveal_strlit("H");
    assert(s.len() - p == 4);
    assert(!match_at(s, p, "mths"@)) by {
        if match_at(s, p, "mths"@) {
            assert(s.subrange(p, p + 4)[0] == s[p + 0]);
            assert(s.subrange(p, s.len() as int)[0] == s[p + 0]);
            assert(false);
        }
    };
    assert(!match_at(s, p, "mth"@)) by {
        if match_at(s, p, "mth"@) {
            assert(s.subrange(p, p + 3)[0] == s[p + 0]);
            assert(s.subrange(p, s.len() as int)[0] == s[p + 0]);
            assert(false);
        }
    };
    assert(!match_at(s, p, "M"@)) by {
        if match_at(s, p, "M"@) {
            assert(s.subrange(p, p + 1)[0] == s[p + 0]);
            assert(s.subrange(p, s.len() as int)[0] == s[p + 0]);
            assert(false);
        }
    };
    assert(!match_at(s, p, "days"@)) by {
        if match_at(s, p, "days"@) {
            assert(s.subrange(p, p + 4)[0] == s[p + 0]);
            assert(s.subrange(p, s.len() as int)[0] == s[p + 0]);
            assert(false);
        }
    };
    assert(!match_at(s, p, "day"@)) by {
        if match_at(s, p, "day"@) {
            assert(s.subrange(p, p + 3)[0] == s[p + 0]);
            assert(s.subrange(p, s.len() as int)[0] == s[p + 0]);
            assert(false);
        }
    };
    assert(!match_at(s, p, "dys"@)) by {
        if match_at(s, p, "dys"@) {
            assert(s.subrange(p, p + 3)[0] == s[p + 0]);
            assert(s.subrange(p, s.len() as int)[0] == s[p + 0]);
            assert(false);
        }
    };
    assert(!match_at(s, p, "dy"@)) by {
        if match_at(s, p, "dy"@) {
            assert(s.subrange(p, p + 2)[0] == s[p + 0]);
            assert(s.subrange(p, s.len() as int)[0] == s[p + 0]);
            assert(false);
        }
    };
    assert(!match_at(s, p, "d"@)) by {
        if match_at(s, p, "d"@) {
            assert(s.subrange(p, p + 1)[0] == s[p + 0]);
            assert(s.subrange(p, s.len() as int)[0] == s[p + 0]);
            assert(false);
        }
    };
    assert(!match_at(s, p, "D"@)) by {
        if match_at(s, p, "D"@) {
            assert(s.subrange(p, p + 1)[0] == s[p + 0]);
            assert(s.subrange(p, s.len() as int)[0] == s[p + 0]);
            assert(false);
        }
    };
    assert(!match_at(s, p, "week"@)) by {
        if match_at(s, p, "week"@) {
            assert(s.subrange(p, p + 4)[0] == s[p + 0]);
            assert(s.subrange(p, s.len() as int)[0] == s[p + 0]);
            assert(false);
        }
    };
    assert(!match_at(s, p, "wks"@)) by {
        if match_at(s, p, "wks"@) {
            assert(s.subrange(p, p + 3)[0] == s[p + 0]);
            assert(s.subrange(p, s.len() as int)[0] == s[p + 0]);
            assert(false);
        }
    };
    assert(!match_at(s, p, "wk"@)) by {
        if match_at(s, p, "wk"@) {
            assert(s.subrange(p, p + 2)[0] == s[p + 0]);
            assert(s.subrange(p, s.len() as int)[0] == s[p + 0]);
            assert(false);
        }
    };
    assert(!match_at(s, p, "w"@)) by {
        if match_at(s, p, "w"@) {
            assert(s.subrange(p, p + 1)[0] == s[p + 0]);
            assert(s.subrange(p, s.len() as int)[0] == s[p + 0]);
            assert(false);
        }
    };
    assert(!match_at(s, p, "W"@)) by {
        if match_at(s, p, "W"@) {
            assert(s.subrange(p, p + 1)[0] == s[p + 0]);
            assert(s.subrange(p, s.len() as int)[0] == s[p + 0]);
            assert(false);
        }
    };
    assert(!match_at(s, p, "year"@)) by {
        if match_at(s, p, "year"@) {
            assert(s.subrange(p, p + 4)[0] == s[p + 0]);
            assert(s.subrange(p, s.len() as int)[0] == s[p + 0]);
            assert(false);
        }
    };
    assert(!match_at(s, p, "yrs"@)) by {
        if match_at(s, p, "yrs"@) {
            assert(s.subrange(p, p + 3)[0] == s[p + 0]);
            assert(s.subrange(p, s.len() as int)[0] == s[p + 0]);
            assert(false);
        }
    };
    assert(!match_at(s, p, "yr"@)) by {
        if match_at(s, p, "yr"@) {
            assert(s.subrange(p, p + 2)[0] == s[p + 0]);
            assert(s.subrange(p, s.len() as int)[0] == s[p + 0]);
            assert(false);
        }
    };
    assert(!match_at(s, p, "y"@)) by {
        if match_at(s, p, "y"@) {
            assert(s.subrange(p, p + 1)[0] == s[p + 0]);
            assert(s.subrange(p, s.len() as int)[0] == s[p + 0]);
            assert(false);
        }
    };
    assert(!match_at(s, p, "Y"@)) by {
        if match_at(s, p, "Y"@) {
            assert(s.subrange(p, p + 1)[0] == s[p + 0]);
            assert(s.subrange(p, s.len() as int)[0] == s[p + 0]);
            assert(false);
        }
    };
    assert(!match_at(s, p, "nsec"@)) by {
        if match_at(s, p, "nsec"@) {
            assert(s.subrange(p, p + 4)[0] == s[p + 0]);
            assert(s.subrange(p, s.len() as int)[0] == s[p + 0]);
            assert(false);
        }
    };
    assert(!match_at(s, p, "ns"@)) by {
        if match_at(s, p, "ns"@) {
            assert(s.subrange(p, p + 2)[0] == s[p + 0]);
            assert(s.subrange(p, s.len() as int)[0] == s[p + 0]);
            assert(false);
        }
    };
    assert(!match_at(s, p, "usec"@)) by {
        if match_at(s, p, "usec"@) {
            assert(s.subrange(p, p + 4)[0] == s[p + 0]);
            assert(s.subrange(p, s.len() as int)[0] == s[p + 0]);
            assert(false);
        }
    };
    assert(!match_at(s, p, "us"@)) by {
        if match_at(s, p, "us"@) {
            assert(s.subrange(p, p + 2)[0] == s[p + 0]);
            assert(s.subrange(p, s.len() as int)[0] == s[p + 0]);
            assert(false);
        }
    };
    assert(!match_at(s, p, "msec"@)) by {
        if match_at(s, p, "msec"@) {
            assert(s.subrange(p, p + 4)[0] == s[p + 0]);
            assert(s.subrange(p, s.len() as int)[0] == s[p + 0]);
            assert(false);
        }
    };
    assert(!match_at(s, p, "ms"@)) by {
        if match_at(s, p, "ms"@) {
            assert(s.subrange(p, p + 2)[0] == s[p + 0]);
            assert(s.subrange(p, s.len() as int)[0] == s[p + 0]);
            assert(false);
        }
    };
    assert(match_at(s, p, "secs"@)) by {
        assert(s.subrange(p, p + 4) == s.subrange(p, s.len() as int));
    };
}

/// With `sec` as the whole tail at `p`, the resolver yields `Seconds`.
proof fn lemma_tail_seconds_sec(s: Seq<char>, p: int)
    requires
        0 <= p <= s.len(),
        s.subrange(p, s.len() as int) == "sec"@,
    ensures
        resolve_unit(s, p) == Some((Unit::Seconds, s.len() as int)),
{
    reveal_strlit("months");
    reveal_strlit("month");
    reveal_strlit("mths");
    reveal_strlit("mth");
    reveal_strlit("M");
    reveal_strlit("days");
    reveal_strlit("day");
    reveal_strlit("dys");
    reveal_strlit("dy");
    reveal_strlit("d");
    reveal_strlit("D");
    reveal_strlit("weeks");
    reveal_strlit("week");
    reveal_strlit("wks");
    reveal_strlit("wk");
    reveal_strlit("w");
    reveal_strlit("W");
    reveal_strlit("years");
    reveal_strlit("year");
    reveal_strlit("yrs");
    reveal_strlit("yr");
    reveal_strlit("y");
    reveal_strlit("Y");
    reveal_strlit("nanos");
    reveal_strlit("nsec");
    reveal_strlit("ns");
    reveal_strlit("micros");
    reveal_strlit("usec");
    reveal_strlit("us");
    reveal_strlit("millis");
    reveal_strlit("msec");
    reveal_strlit("ms");
    reveal_strlit("seconds");
    reveal_strlit("second");
    reveal_strlit("secs");
    reveal_strlit("sec");
    reveal_strlit("s");
    reveal_strlit("minutes");
    reveal_strlit("minute");
    reveal_strlit("mins");
    reveal_strlit("min");
    reveal_strlit("m");
    reveal_strlit("hours");
    reveal_strlit("hour");
    reveal_strlit("hrs");
    reveal_strlit("hr");
    reveal_strlit("h");
    reveal_strlit("H");
    assert(s.len() - p == 3);
    assert(!match_at(s, p, "mth"@)) by {
        if match_at(s, p, "mth"@) {
            assert(s.subrange(p, p + 3)[0] == s[p + 0]);
            assert(s.subrange(p, s.len() as int)[0] == s[p + 0]);
            assert(false);
        }
    };
    assert(!match_at(s, p, "M"@)) by {
        if match_at(s, p, "M"@) {
            assert(s.subrange(p, p + 1)[0] == s[p + 0]);
            assert(s.subrange(p, s.len() as int)[0] == s[p + 0]);
            assert(false);
        }
    };
    assert(!match_at(s, p, "day"@)) by {
        if match_at(s, p, "day"@) {
            assert(s.subrange(p, p + 3)[0] == s[p + 0]);
            assert(s.subrange(p, s.len() as int)[0] == s[p + 0]);
            assert(false);
        }
    };
    assert(!match_at(s, p, "dys"@)) by {
        if match_at(s, p, "dys"@) {
            assert(s.subrange(p, p + 3)[0] == s[p + 0]);
            assert(s.subrange(p, s.len() as int)[0] == s[p + 0]);
            assert(false);
        }
    };
    assert(!match_at(s, p, "dy"@)) by {
        if match_at(s, p, "dy"@) {
            assert(s.subrange(p, p + 2)[0] == s[p + 0]);
            assert(s.subrange(p, s.len() as int)[0] == s[p + 0]);
            assert(false);
        }
    };
    assert(!match_at(s, p, "d"@)) by {
        if match_at(s, p, "d"@) {
            assert(s.subrange(p, p + 1)[0] == s[p + 0]);
            assert(s.subrange(p, s.len() as int)[0] == s[p + 0]);
            assert(false);
        }
    };
    assert(!match_at(s, p, "D"@)) by {
        if match_at(s, p, "D"@) {
            assert(s.subrange(p, p + 1)[0] == s[p + 0]);
            assert(s.subrange(p, s.len() as int)[0] == s[p + 0]);
            assert(false);
        }
    };
    assert(!match_at(s, p, "wks"@)) by {
        if match_at(s, p, "wks"@) {
            assert(s.subrange(p, p + 3)[0] == s[p + 0]);
            assert(s.subrange(p, s.len() as int)[0] == s[p + 0]);
            assert(false);
        }
    };
    assert(!match_at(s, p, "wk"@)) by {
        if match_at(s, p, "wk"@) {
            assert(s.subrange(p, p + 2)[0] == s[p + 0]);
            assert(s.subrange(p, s.len() as int)[0] == s[p + 0]);
            assert(false);
        }
    };
    assert(!match_at(s, p, "w"@)) by {
        if match_at(s, p, "w"@) {
            assert(s.subrange(p, p + 1)[0] == s[p + 0]);
            assert(s.subrange(p, s.len() as int)[0] == s[p + 0]);
            assert(false);
        }
    };
    assert(!match_at(s, p, "W"@)) by {
        if match_at(s, p, "W"@) {
            assert(s.subrange(p, p + 1)[0] == s[p + 0]);
            assert(s.subrange(p, s.len() as int)[0] == s[p + 0]);
            assert(false);
        }
    };
    assert(!match_at(s, p, "yrs"@)) by {
        if match_at(s, p, "yrs"@) {
            assert(s.subrange(p, p + 3)[0] == s[p + 0]);
            assert(s.subrange(p, s.len() as int)[0] == s[p + 0]);
            assert(false);
        }
    };
    assert(!match_at(s, p, "yr"@)) by {
        if match_at(s, p, "yr"@) {
            assert(s.subrange(p, p + 2)[0] == s[p + 0]);
            assert(s.subrange(p, s.len() as int)[0] == s[p + 0]);
            assert(false);
        }
    };
    assert(!match_at(s, p, "y"@)) by {
        if match_at(s, p, "y"@) {
            assert(s.subrange(p, p + 1)[0] == s[p + 0]);
            assert(s.subrange(p, s.len() as int)[0] == s[p + 0]);
            assert(false);
        }
    };
    assert(!match_at(s, p, "Y"@)) by {
        if match_at(s, p, "Y"@) {
            assert(s.subrange(p, p + 1)[0] == s[p + 0]);
            assert(s.subrange(p, s.len() as int)[0] == s[p + 0]);
            assert(false);
        }
    };
    assert(!match_at(s, p, "ns"@)) by {
        if match_at(s, p, "ns"@) {
            assert(s.subrange(p, p + 2)[0] == s[p + 0]);
            assert(s.subrange(p, s.len() as int)[0] == s[p + 0]);
            assert(false);
        }
    };
    assert(!match_at(s, p, "us"@)) by {
        if match_at(s, p, "us"@) {
            assert(s.subrange(p, p + 2)[0] == s[p + 0]);
            assert(s.subrange(p, s.len() as int)[0] == s[p + 0]);
            assert(false);
        }
    };
    assert(!match_at(s, p, "ms"@)) by {
        if match_at(s, p, "ms"@) {
            assert(s.subrange(p, p + 2)[0] == s[p + 0]);
            assert(s.subrange(p, s.len() as int)[0] == s[p + 0]);
            assert(false);
        }
    };
    assert(match_at(s, p, "sec"@)) by {
        assert(s.subrange(p, p + 3) == s.subrange(p, s.len() as int));
    };
}

/// With `s` as the whole tail at `p`, the resolver yields `Seconds`.
proof fn lemma_tail_seconds_s(s: Seq<char>, p: int)
    requires
        0 <= p <= s.len(),
        s.subrange(p, s.len() as int) == "s"@,
    ensures
        resolve_unit(s, p) == Some((Unit::Seconds, s.len() as int)),
{
    reveal_strlit("months");
    reveal_strlit("month");
    reveal_strlit("mths");
    reveal_strlit("mth");
    reveal_strlit("M");
    reveal_strlit("days");
    reveal_strlit("day");
    reveal_strlit("dys");
    reveal_strlit("dy");
    reveal_strlit("d");
    reveal_strlit("D");
    reveal_strlit("weeks");
    reveal_strlit("week");
    reveal_strlit("wks");
    reveal_strlit("wk");
    reveal_strlit("w");
    reveal_strlit("W");
    reveal_strlit("years");
    reveal_strlit("year");
    reveal_strlit("yrs");
    reveal_strlit("yr");
    reveal_strlit("y");
    reveal_strlit("Y");
    reveal_strlit("nanos");
    reveal_strlit("nsec");
    reveal_strlit("ns");
    reveal_strlit("micros");
    reveal_strlit("usec");
    reveal_strlit("us");
    reveal_strlit("millis");
    reveal_strlit("msec");
    reveal_strlit("ms");
    reveal_strlit("seconds");
    reveal_strlit("second");
    reveal_strlit("secs");
    reveal_strlit("sec");
    reveal_strlit("s");
    reveal_strlit("minutes");
    reveal_strlit("minute");
    reveal_strlit("mins");
    reveal_strlit("min");
    reveal_strlit("m");
    reveal_strlit("hours");
    reveal_strlit("hour");
    reveal_strlit("hrs");
    reveal_strlit("hr");
    reveal_strlit("h");
    reveal_strlit("H");
    assert(s.len() - p == 1);
    assert(!match_at(s, p, "M"@)) by {
        if match_at(s, p, "M"@) {
            assert(s.subrange(p, p + 1)[0] == s[p + 0]);
            assert(s.subrange(p, s.len() as int)[0] == s[p + 0]);
            assert(false);
        }
    };
    assert(!match_at(s, p, "d"@)) by {
        if match_at(s, p, "d"@) {
            assert(s.subrange(p, p + 1)[0] == s[p + 0]);
            assert(s.subrange(p, s.len() as int)[0] == s[p + 0]);
            assert(false);
        }
    };
    assert(!match_at(s, p, "D"@)) by {
        if match_at(s, p, "D"@) {
            assert(s.subrange(p, p + 1)[0] == s[p + 0]);
            assert(s.subrange(p, s.len() as int)[0] == s[p + 0]);
            assert(false);
        }
    };
    assert(!match_at(s, p, "w"@)) by {
        if match_at(s, p, "w"@) {
            assert(s.subrange(p, p + 1)[0] == s[p + 0]);
            assert(s.subrange(p, s.len() as int)[0] == s[p + 0]);
            assert(false);
        }
    };
    assert(!match_at(s, p, "W"@)) by {
        if match_at(s, p, "W"@) {
            assert(s.subrange(p, p + 1)[0] == s[p + 0]);
            assert(s.subrange(p, s.len() as int)[0] == s[p + 0]);
            assert(false);
        }
    };
    assert(!match_at(s, p, "y"@)) by {
        if match_at(s, p, "y"@) {
            assert(s.subrange(p, p + 1)[0] == s[p + 0]);
            assert(s.subrange(p, s.len() as int)[0] == s[p + 0]);
            assert(false);
        }
    };
    assert(!match_at(s, p, "Y"@)) by {
        if match_at(s, p, "Y"@) {
            assert(s.subrange(p, p + 1)[0] == s[p + 0]);
            assert(s.subrange(p, s.len() as int)[0] == s[p + 0]);
            assert(false);
        }
    };
    assert(match_at(s, p, "s"@)) by {
        assert(s.subrange(p, p + 1) == s.subrange(p, s.len() as int));
    };
}

/// With `minutes` as the whole tail at `p`, the resolver yields `Minutes`.
proof fn lemma_tail_minutes_minutes(s: Seq<char>, p: int)
    requires
        0 <= p <= s.len(),
        s.subrange(p, s.len() as int) == "minutes"@,
    ensures
        resolve_unit(s, p) == Some((Unit::Minutes, s.len() as int)),
{
    reveal_strlit("months");
    reveal_strlit("month");
    reveal_strlit("mths");
    reveal_strlit("mth");
    reveal_strlit("M");
    reveal_strlit("days");
    reveal_strlit("day");
    reveal_strlit("dys");
    reveal_strlit("dy");
    reveal_strlit("d");
    reveal_strlit("D");
    reveal_strlit("weeks");
    reveal_strlit("week");
    reveal_strlit("wks");
    reveal_strlit("wk");
    reveal_strlit("w");
    reveal_strlit("W");
    reveal_strlit("years");
    reveal_strlit("year");
    reveal_strlit("yrs");
    reveal_strlit("yr");
    reveal_strlit("y");
    reveal_strlit("Y");
    reveal_strlit("nanos");
    reveal_strlit("nsec");
    reveal_strlit("ns");
    reveal_strlit("micros");
    reveal_strlit("usec");
    reveal_strlit("us");
    reveal_strlit("millis");
    reveal_strlit("msec");
    reveal_strlit("ms");
    reveal_strlit("seconds");
    reveal_strlit("second");
    reveal_strlit("secs");
    reveal_strlit("sec");
    reveal_strlit("s");
    reveal_strlit("minutes");
    reveal_strlit("minute");
    reveal_strlit("mins");
    reveal_strlit("min");
    reveal_strlit("m");
    reveal_strlit("hours");
    reveal_strlit("hour");
    reveal_strlit("hrs");
    reveal_strlit("hr");
    reveal_strlit("h");
    reveal_strlit("H");
    assert(s.len() - p == 7);
    assert(!match_at(s, p, "months"@)) by {
        if match_at(s, p, "months"@) {
            assert(s.subrange(p, p + 6)[1] == s[p + 1]);
            assert(s.subrange(p, s.len() as int)[1] == s[p + 1]);
            assert(false);
        }
    };
    assert(!match_at(s, p, "month"@)) by {
        if match_at(s, p, "month"@) {
            assert(s.subrange(p, p + 5)[1] == s[p + 1]);
            assert(s.subrange(p, s.len() as int)[1] == s[p + 1]);
            assert(false);
        }
    };
    assert(!match_at(s, p, "mths"@)) by {
        if match_at(s, p, "mths"@) {
            assert(s.subrange(p, p + 4)[1] == s[p + 1]);
            assert(s.subrange(p, s.len() as int)[1] == s[p + 1]);
            assert(false);
        }
    };
    assert(!match_at(s, p, "mth"@)) by {
        if match_at(s, p, "mth"@) {
            assert(s.subrange(p, p + 3)[1] == s[p + 1]);
            assert(s.subrange(p, s.len() as int)[1] == s[p + 1]);
            assert(false);
        }
    };
    assert(!match_at(s, p, "M"@)) by {
        if match_at(s, p, "M"@) {
            assert(s.subrange(p, p + 1)[0] == s[p + 0]);
            assert(s.subrange(p, s.len() as int)[0] == s[p + 0]);
            assert(false);
        }
    };
    assert(!match_at(s, p, "days"@)) by {
        if match_at(s, p, "days"@) {
            assert(s.subrange(p, p + 4)[0] == s[p + 0]);
            assert(s.subrange(p, s.len() as int)[0] == s[p + 0]);
            assert(false);
        }
    };
    assert(!match_at(s, p, "day"@)) by {
        if match_at(s, p, "day"@) {
            assert(s.subrange(p, p + 3)[0] == s[p + 0]);
            assert(s.subrange(p, s.len() as int)[0] == s[p + 0]);
            assert(false);
        }
    };
    assert(!match_at(s, p, "dys"@)) by {
        if match_at(s, p, "dys"@) {
            assert(s.subrange(p, p + 3)[0] == s[p + 0]);
            assert(s.subrange(p, s.len() as int)[0] == s[p + 0]);
            assert(false);
        }
    };
    assert(!match_at(s, p, "dy"@)) by {
        if match_at(s, p, "dy"@) {
            assert(s.subrange(p, p + 2)[0] == s[p + 0]);
            assert(s.subrange(p, s.len() as int)[0] == s[p + 0]);
            assert(false);
        }
    };
    assert(!match_at(s, p, "d"@)) by {
        if match_at(s, p, "d"@) {
            assert(s.subrange(p, p + 1)[0] == s[p + 0]);
            assert(s.subrange(p, s.len() as int)[0] == s[p + 0]);
            assert(false);
        }
    };
    assert(!match_at(s, p, "D"@)) by {
        if match_at(s, p, "D"@) {
            assert(s.subrange(p, p + 1)[0] == s[p + 0]);
            assert(s.subrange(p, s.len() as int)[0] == s[p + 0]);
            assert(false);
        }
    };
    assert(!match_at(s, p, "weeks"@)) by {
        if match_at(s, p, "weeks"@) {
            assert(s.subrange(p, p + 5)[0] == s[p + 0]);
            assert(s.subrange(p, s.len() as int)[0] == s[p + 0]);
            assert(false);
        }
    };
    assert(!match_at(s, p, "week"@)) by {
        if match_at(s, p, "week"@) {
            assert(s.subrange(p, p + 4)[0] == s[p + 0]);
            assert(s.subrange(p, s.len() as int)[0] == s[p + 0]);
            assert(false);
        }
    };
    assert(!match_at(s, p, "wks"@)) by {
        if match_at(s, p, "wks"@) {
            assert(s.subrange(p, p + 3)[0] == s[p + 0]);
            assert(s.subrange(p, s.len() as int)[0] == s[p + 0]);
            assert(false);
        }
    };
    assert(!match_at(s, p, "wk"@)) by {
        if match_at(s, p, "wk"@) {
            assert(s.subrange(p, p + 2)[0] == s[p + 0]);
            assert(s.subrange(p, s.len() as int)[0] == s[p + 0]);
            assert(false);
        }
    };
    assert(!match_at(s, p, "w"@)) by {
        if match_at(s, p, "w"@) {
            assert(s.subrange(p, p + 1)[0] == s[p + 0]);
            assert(s.subrange(p, s.len() as int)[0] == s[p + 0]);
            assert(false);
        }
    };
    assert(!match_at(s, p, "W"@)) by {
        if match_at(s, p, "W"@) {
            assert(s.subrange(p, p + 1)[0] == s[p + 0]);
            assert(s.subrange(p, s.len() as int)[0] == s[p + 0]);
            assert(false);
        }
    };
    assert(!match_at(s, p, "years"@)) by {
        if match_at(s, p, "years"@) {
            assert(s.subrange(p, p + 5)[0] == s[p + 0]);
            assert(s.subrange(p, s.len() as int)[0] == s[p + 0]);
            assert(false);
        }
    };
    assert(!match_at(s, p, "year"@)) by {
        if match_at(s, p, "year"@) {
            assert(s.subrange(p, p + 4)[0] == s[p + 0]);
            assert(s.subrange(p, s.len() as int)[0] == s[p + 0]);
            assert(false);
        }
    };
    assert(!match_at(s, p, "yrs"@)) by {
        if match_at(s, p, "yrs"@) {
            assert(s.subrange(p, p + 3)[0] == s[p + 0]);
            assert(s.subrange(p, s.len() as int)[0] == s[p + 0]);
            assert(false);
        }
    };
    assert(!match_at(s, p, "yr"@)) by {
        if match_at(s, p, "yr"@) {
            assert(s.subrange(p, p + 2)[0] == s[p + 0]);
            assert(s.subrange(p, s.len() as int)[0] == s[p + 0]);
            assert(false);
        }
    };
    assert(!match_at(s, p, "y"@)) by {
        if match_at(s, p, "y"@) {
            assert(s.subrange(p, p + 1)[0] == s[p + 0]);
            assert(s.subrange(p, s.len() as int)[0] == s[p + 0]);
            assert(false);
        }
    };
    assert(!match_at(s, p, "Y"@)) by {
        if match_at(s, p, "Y"@) {
            assert(s.subrange(p, p + 1)[0] == s[p + 0]);
            assert(s.subrange(p, s.len() as int)[0] == s[p + 0]);
            assert(false);
        }
    };
    assert(!match_at(s, p, "nanos"@)) by {
        if match_at(s, p, "nanos"@) {
            assert(s.subrange(p, p + 5)[0] == s[p + 0]);
            assert(s.subrange(p, s.len() as int)[0] == s[p + 0]);
            assert(false);
        }
    };
    assert(!match_at(s, p, "nsec"@)) by {
        if match_at(s, p, "nsec"@) {
            assert(s.subrange(p, p + 4)[0] == s[p + 0]);
            assert(s.subrange(p, s.len() as int)[0] == s[p + 0]);
            assert(false);
        }
    };
    assert(!match_at(s, p, "ns"@)) by {
        if match_at(s, p, "ns"@) {
            assert(s.subrange(p, p + 2)[0] == s[p + 0]);
            assert(s.subrange(p, s.len() as int)[0] == s[p + 0]);
            assert(false);
        }
    };
    assert(!match_at(s, p, "micros"@)) by {
        if match_at(s, p, "micros"@) {
            assert(s.subrange(p, p + 6)[2] == s[p + 2]);
            assert(s.subrange(p, s.len() as int)[2] == s[p + 2]);
            assert(false);
        }
    };
    assert(!match_at(s, p, "usec"@)) by {
        if match_at(s, p, "usec"@) {
            assert(s.subrange(p, p + 4)[0] == s[p + 0]);
            assert(s.subrange(p, s.len() as int)[0] == s[p + 0]);
            assert(false);
        }
    };
    assert(!match_at(s, p, "us"@)) by {
        if match_at(s, p, "us"@) {
            assert(s.subrange(p, p + 2)[0] == s[p + 0]);
            assert(s.subrange(p, s.len() as int)[0] == s[p + 0]);
            assert(false);
        }
    };
    assert(!match_at(s, p, "millis"@)) by {
        if match_at(s, p, "millis"@) {
            assert(s.subrange(p, p + 6)[2] == s[p + 2]);
            assert(s.subrange(p, s.len() as int)[2] == s[p + 2]);
            assert(false);
        }
    };
    assert(!match_at(s, p, "msec"@)) by {
        if match_at(s, p, "msec"@) {
            assert(s.subrange(p, p + 4)[1] == s[p + 1]);
            assert(s.subrange(p, s.len() as int)[1] == s[p + 1]);
            assert(false);
        }
    };
    assert(!match_at(s, p, "ms"@)) by {
        if match_at(s, p, "ms"@) {
            assert(s.subrange(p, p + 2)[1] == s[p + 1]);
            assert(s.subrange(p, s.len() as int)[1] == s[p + 1]);
            assert(false);
        }
    };
    assert(!match_at(s, p, "seconds"@)) by {
        if match_at(s, p, "seconds"@) {
            assert(s.subrange(p, p + 7)[0] == s[p + 0]);
            assert(s.subrange(p, s.len() as int)[0] == s[p + 0]);
            assert(false);
        }
    };
    assert(!match_at(s, p, "second"@)) by {
        if match_at(s, p, "second"@) {
            assert(s.subrange(p, p + 6)[0] == s[p + 0]);
            assert(s.subrange(p, s.len() as int)[0] == s[p + 0]);
            assert(false);
        }
    };
    assert(!match_at(s, p, "secs"@)) by {
        if match_at(s, p, "secs"@) {
            assert(s.subrange(p, p + 4)[0] == s[p + 0]);
            assert(s.subrange(p, s.len() as int)[0] == s[p + 0]);
            assert(false);
        }
    };
    assert(!match_at(s, p, "sec"@)) by {
        if match_at(s, p, "sec"@) {
            assert(s.subrange(p, p + 3)[0] == s[p + 0]);
            assert(s.subrange(p, s.len() as int)[0] == s[p + 0]);
            assert(false);
        }
    };
    assert(!match_at(s, p, "s"@)) by {
        if match_at(s, p, "s"@) {
            assert(s.subrange(p, p + 1)[0] == s[p + 0]);
            assert(s.subrange(p, s.len() as int)[0] == s[p + 0]);
            assert(false);
        }
    };
    assert(match_at(s, p, "minutes"@)) by {
        assert(s.subrange(p, p + 7) == s.subrange(p, s.len() as int));
    };
}

/// With `minute` as the whole tail at `p`, the resolver yields `Minutes`.
proof fn lemma_tail_minutes_minute(s: Seq<char>, p: int)
    requires
        0 <= p <= s.len(),
        s.subrange(p, s.len() as int) == "minute"@,
    ensures
        resolve_unit(s, p) == Some((Unit::Minutes, s.len() as int)),
{
    reveal_strlit("months");
    reveal_strlit("month");
    reveal_strlit("mths");
    reveal_strlit("mth");
    reveal_strlit("M");
    reveal_strlit("days");
    reveal_strlit("day");
    reveal_strlit("dys");
    reveal_strlit("dy");
    reveal_strlit("d");
    reveal_strlit("D");
    reveal_strlit("weeks");
    reveal_strlit("week");
    reveal_strlit("wks");
    reveal_strlit("wk");
    reveal_strlit("w");
    reveal_strlit("W");
    reveal_strlit("years");
    reveal_strlit("year");
    reveal_strlit("yrs");
    reveal_strlit("yr");
    reveal_strlit("y");
    reveal_strlit("Y");
    reveal_strlit("nanos");
    reveal_strlit("nsec");
    reveal_strlit("ns");
    reveal_strlit("micros");
    reveal_strlit("usec");
    reveal_strlit("us");
    reveal_strlit("millis");
    reveal_strlit("msec");
    reveal_strlit("ms");
    reveal_strlit("seconds");
    reveal_strlit("second");
    reveal_strlit("secs");
    reveal_strlit("sec");
    reveal_strlit("s");
    reveal_strlit("minutes");
    reveal_strlit("minute");
    reveal_strlit("mins");
    reveal_strlit("min");
    reveal_strlit("m");
    reveal_strlit("hours");
    reveal_strlit("hour");
    reveal_strlit("hrs");
    reveal_strlit("hr");
    reveal_strlit("h");
    reveal_strlit("H");
    assert(s.len() - p == 6);
    assert(!match_at(s, p, "months"@)) by {
        if match_at(s, p, "months"@) {
            assert(s.subrange(p, p + 6)[1] == s[p + 1]);
            assert(s.subrange(p, s.len() as int)[1] == s[p + 1]);
            assert(false);
        }
    };
    assert(!match_at(s, p, "month"@)) by {
        if match_at(s, p, "month"@) {
            assert(s.subrange(p, p + 5)[1] == s[p + 1]);
            assert(s.subrange(p, s.len() as int)[1] == s[p + 1]);
            assert(false);
        }
    };
    assert(!match_at(s, p, "mths"@)) by {
        if match_at(s, p, "mths"@) {
            assert(s.subrange(p, p + 4)[1] == s[p + 1]);
            assert(s.subrange(p, s.len() as int)[1] == s[p + 1]);
            assert(false);
        }
    };
    assert(!match_at(s, p, "mth"@)) by {
        if match_at(s, p, "mth"@) {
            assert(s.subrange(p, p + 3)[1] == s[p + 1]);
            assert(s.subrange(p, s.len() as int)[1] == s[p + 1]);
            assert(false);
        }
    };
    assert(!match_at(s, p, "M"@)) by {
        if match_at(s, p, "M"@) {
            assert(s.subrange(p, p + 1)[0] == s[p + 0]);
            assert(s.subrange(p, s.len() as int)[0] == s[p + 0]);
            assert(false);
        }
    };
    assert(!match_at(s, p, "days"@)) by {
        if match_at(s, p, "days"@) {
            assert(s.subrange(p, p + 4)[0] == s[p + 0]);
            assert(s.subrange(p, s.len() as int)[0] == s[p + 0]);
            assert(false);
        }
    };
    assert(!match_at(s, p, "day"@)) by {
        if match_at(s, p, "day"@) {
            assert(s.subrange(p, p + 3)[0] == s[p + 0]);
            assert(s.subrange(p, s.len() as int)[0] == s[p + 0]);
            assert(false);
        }
    };
    assert(!match_at(s, p, "dys"@)) by {
        if match_at(s, p, "dys"@) {
            assert(s.subrange(p, p + 3)[0] == s[p + 0]);
            assert(s.subrange(p, s.len() as int)[0] == s[p + 0]);
            assert(false);
        }
    };
    assert(!match_at(s, p, "dy"@)) by {
        if match_at(s, p, "dy"@) {
            assert(s.subrange(p, p + 2)[0] == s[p + 0]);
            assert(s.subrange(p, s.len() as int)[0] == s[p + 0]);
            assert(false);
        }
    };
    assert(!match_at(s, p, "d"@)) by {
        if match_at(s, p, "d"@) {
            assert(s.subrange(p, p + 1)[0] == s[p + 0]);
            assert(s.subrange(p, s.len() as int)[0] == s[p + 0]);
            assert(false);
        }
    };
    assert(!match_at(s, p, "D"@)) by {
        if match_at(s, p, "D"@) {
            assert(s.subrange(p, p + 1)[0] == s[p + 0]);
            assert(s.subrange(p, s.len() as int)[0] == s[p + 0]);
            assert(false);
        }
    };
    assert(!match_at(s, p, "weeks"@)) by {
        if match_at(s, p, "weeks"@) {
            assert(s.subrange(p, p + 5)[0] == s[p + 0]);
            assert(s.subrange(p, s.len() as int)[0] == s[p + 0]);
            assert(false);
        }
    };
    assert(!match_at(s, p, "week"@)) by {
        if match_at(s, p, "week"@) {
            assert(s.subrange(p, p + 4)[0] == s[p + 0]);
            assert(s.subrange(p, s.len() as int)[0] == s[p + 0]);
            assert(false);
        }
    };
    assert(!match_at(s, p, "wks"@)) by {
        if match_at(s, p, "wks"@) {
            assert(s.subrange(p, p + 3)[0] == s[p + 0]);
            assert(s.subrange(p, s.len() as int)[0] == s[p + 0]);
            assert(false);
        }
    };
    assert(!match_at(s, p, "wk"@)) by {
        if match_at(s, p, "wk"@) {
            assert(s.subrange(p, p + 2)[0] == s[p + 0]);
            assert(s.subrange(p, s.len() as int)[0] == s[p + 0]);
            assert(false);
        }
    };
    assert(!match_at(s, p, "w"@)) by {
        if match_at(s, p, "w"@) {
            assert(s.subrange(p, p + 1)[0] == s[p + 0]);
            assert(s.subrange(p, s.len() as int)[0] == s[p + 0]);
            assert(false);
        }
    };
    assert(!match_at(s, p, "W"@)) by {
        if match_at(s, p, "W"@) {
            assert(s.subrange(p, p + 1)[0] == s[p + 0]);
            assert(s.subrange(p, s.len() as int)[0] == s[p + 0]);
            assert(false);
        }
    };
    assert(!match_at(s, p, "years"@)) by {
        if match_at(s, p, "years"@) {
            assert(s.subrange(p, p + 5)[0] == s[p + 0]);
            assert(s.subrange(p, s.len() as int)[0] == s[p + 0]);
            assert(false);
        }
    };
    assert(!match_at(s, p, "year"@)) by {
        if match_at(s, p, "year"@) {
            assert(s.subrange(p, p + 4)[0] == s[p + 0]);
            assert(s.subrange(p, s.len() as int)[0] == s[p + 0]);
            assert(false);
        }
    };
    assert(!match_at(s, p, "yrs"@)) by {
        if match_at(s, p, "yrs"@) {
            assert(s.subrange(p, p + 3)[0] == s[p + 0]);
            assert(s.subrange(p, s.len() as int)[0] == s[p + 0]);
            assert(false);
        }
    };
    assert(!match_at(s, p, "yr"@)) by {
        if match_at(s, p, "yr"@) {
            assert(s.subrange(p, p + 2)[0] == s[p + 0]);
            assert(s.subrange(p, s.len() as int)[0] == s[p + 0]);
            assert(false);
        }
    };
    assert(!match_at(s, p, "y"@)) by {
        if match_at(s, p, "y"@) {
            assert(s.subrange(p, p + 1)[0] == s[p + 0]);
            assert(s.subrange(p, s.len() as int)[0] == s[p + 0]);
            assert(false);
        }
    };
    assert(!match_at(s, p, "Y"@)) by {
        if match_at(s, p, "Y"@) {
            assert(s.subrange(p, p + 1)[0] == s[p + 0]);
            assert(s.subrange(p, s.len() as int)[0] == s[p + 0]);
            assert(false);
        }
    };
    assert(!match_at(s, p, "nanos"@)) by {
        if match_at(s, p, "nanos"@) {
            assert(s.subrange(p, p + 5)[0] == s[p + 0]);
            assert(s.subrange(p, s.len() as int)[0] == s[p + 0]);
            assert(false);
        }
    };
    assert(!match_at(s, p, "nsec"@)) by {
        if match_at(s, p, "nsec"@) {
            assert(s.subrange(p, p + 4)[0] == s[p + 0]);
            assert(s.subrange(p, s.len() as int)[0] == s[p + 0]);
            assert(false);
        }
    };
    assert(!match_at(s, p, "ns"@)) by {
        if match_at(s, p, "ns"@) {
            assert(s.subrange(p, p + 2)[0] == s[p + 0]);
            assert(s.subrange(p, s.len() as int)[0] == s[p + 0]);
            assert(false);
        }
    };
    assert(!match_at(s, p, "micros"@)) by {
        if match_at(s, p, "micros"@) {
            assert(s.subrange(p, p + 6)[2] == s[p + 2]);
            assert(s.subrange(p, s.len() as int)[2] == s[p + 2]);
            assert(false);
        }
    };
    assert(!match_at(s, p, "usec"@)) by {
        if match_at(s, p, "usec"@) {
            assert(s.subrange(p, p + 4)[0] == s[p + 0]);
            assert(s.subrange(p, s.len() as int)[0] == s[p + 0]);
            assert(false);
        }
    };
    assert(!match_at(s, p, "us"@)) by {
        if match_at(s, p, "us"@) {
            assert(s.subrange(p, p + 2)[0] == s[p + 0]);
            assert(s.subrange(p, s.len() as int)[0] == s[p + 0]);
            assert(false);
        }
    };
    assert(!match_at(s, p, "millis"@)) by {
        if match_at(s, p, "millis"@) {
            assert(s.subrange(p, p + 6)[2] == s[p + 2]);
            assert(s.subrange(p, s.len() as int)[2] == s[p + 2]);
            assert(false);
        }
    };
    assert(!match_at(s, p, "msec"@)) by {
        if match_at(s, p, "msec"@) {
            assert(s.subrange(p, p + 4)[1] == s[p + 1]);
            assert(s.subrange(p, s.len() as int)[1] == s[p + 1]);
            assert(false);
        }
    };
    assert(!match_at(s, p, "ms"@)) by {
        if match_at(s, p, "ms"@) {
            assert(s.subrange(p, p + 2)[1] == s[p + 1]);
            assert(s.subrange(p, s.len() as int)[1] == s[p + 1]);
            assert(false);
        }
    };
    assert(!match_at(s, p, "second"@)) by {
        if match_at(s, p, "second"@) {
            assert(s.subrange(p, p + 6)[0] == s[p + 0]);
            assert(s.subrange(p, s.len() as int)[0] == s[p + 0]);
            assert(false);
        }
    };
    assert(!match_at(s, p, "secs"@)) by {
        if match_at(s, p, "secs"@) {
            assert(s.subrange(p, p + 4)[0] == s[p + 0]);
            assert(s.subrange(p, s.len() as int)[0] == s[p + 0]);
            assert(false);
        }
    };
    assert(!match_at(s, p, "sec"@)) by {
        if match_at(s, p, "sec"@) {
            assert(s.subrange(p, p + 3)[0] == s[p + 0]);
            assert(s.subrange(p, s.len() as int)[0] == s[p + 0]);
            assert(false);
        }
    };
    assert(!match_at(s, p, "s"@)) by {
        if match_at(s, p, "s"@) {
            assert(s.subrange(p, p + 1)[0] == s[p + 0]);
            assert(s.subrange(p, s.len() as int)[0] == s[p + 0]);
            assert(false);
        }
    };
    assert(match_at(s, p, "minute"@)) by {
        assert(s.subrange(p, p + 6) == s.subrange(p, s.len() as int));
    };
}

/// With `mins` as the whole tail at `p`, the resolver yields `Minutes`.
proof fn lemma_tail_minutes_mins(s: Seq<char>, p: int)
    requires
        0 <= p <= s.len(),
        s.subrange(p, s.len() as int) == "mins"@,
    ensures
        resolve_unit(s, p) == Some((Unit::Minutes, s.len() as int)),
{
    reveal_strlit("months");
    reveal_strlit("month");
    reveal_strlit("mths");
    reveal_strlit("mth");
    reveal_strlit("M");
    reveal_strlit("days");
    reveal_strlit("day");
    reveal_strlit("dys");
    reveal_strlit("dy");
    reveal_strlit("d");
    reveal_strlit("D");
    reveal_strlit("weeks");
    reveal_strlit("week");
    reveal_strlit("wks");
    reveal_strlit("wk");
    reveal_strlit("w");
    reveal_strlit("W");
    reveal_strlit("years");
    reveal_strlit("year");
    reveal_strlit("yrs");
    reveal_strlit("yr");
    reveal_strlit("y");
    reveal_strlit("Y");
    reveal_strlit("nanos");
    reveal_strlit("nsec");
    reveal_strlit("ns");
    reveal_strlit("micros");
    reveal_strlit("usec");
    reveal_strlit("us");
    reveal_strlit("millis");
    reveal_strlit("msec");
    reveal_strlit("ms");
    reveal_strlit("seconds");
    reveal_strlit("second");
    reveal_strlit("secs");
    reveal_strlit("sec");
    reveal_strlit("s");
    reveal_strlit("minutes");
    reveal_strlit("minute");
    reveal_strlit("mins");
    reveal_strlit("min");
    reveal_strlit("m");
    reveal_strlit("hours");
    reveal_strlit("hour");
    reveal_strlit("hrs");
    reveal_strlit("hr");
    reveal_strlit("h");
    reveal_strlit("H");
    assert(s.len() - p == 4);
    assert(!match_at(s, p, "mths"@)) by {
        if match_at(s, p, "mths"@) {
            assert(s.subrange(p, p + 4)[1] == s[p + 1]);
            assert(s.subrange(p, s.len() as int)[1] == s[p + 1]);
            assert(false);
        }
    };
    assert(!match_at(s, p, "mth"@)) by {
        if match_at(s, p, "mth"@) {
            assert(s.subrange(p, p + 3)[1] == s[p + 1]);
            assert(s.subrange(p, s.len() as int)[1] == s[p + 1]);
            assert(false);
        }
    };
    assert(!match_at(s, p, "M"@)) by {
        if match_at(s, p, "M"@) {
            assert(s.subrange(p, p + 1)[0] == s[p + 0]);
            assert(s.subrange(p, s.len() as int)[0] == s[p + 0]);
            assert(false);
        }
    };
    assert(!match_at(s, p, "days"@)) by {
        if match_at(s, p, "days"@) {
            assert(s.subrange(p, p + 4)[0] == s[p + 0]);
            assert(s.subrange(p, s.len() as int)[0] == s[p + 0]);
            assert(false);
        }
    };
    assert(!match_at(s, p, "day"@)) by {
        if match_at(s, p, "day"@) {
            assert(s.subrange(p, p + 3)[0] == s[p + 0]);
            assert(s.subrange(p, s.len() as int)[0] == s[p + 0]);
            assert(false);
        }
    };
    assert(!match_at(s, p, "dys"@)) by {
        if match_at(s, p, "dys"@) {
            assert(s.subrange(p, p + 3)[0] == s[p + 0]);
            assert(s.subrange(p, s.len() as int)[0] == s[p + 0]);
            assert(false);
        }
    };
    assert(!match_at(s, p, "dy"@)) by {
        if match_at(s, p, "dy"@) {
            assert(s.subrange(p, p + 2)[0] == s[p + 0]);
            assert(s.subrange(p, s.len() as int)[0] == s[p + 0]);
            assert(false);
        }
    };
    assert(!match_at(s, p, "d"@)) by {
        if match_at(s, p, "d"@) {
            assert(s.subrange(p, p + 1)[0] == s[p + 0]);
            assert(s.subrange(p, s.len() as int)[0] == s[p + 0]);
            assert(false);
        }
    };
    assert(!match_at(s, p, "D"@)) by {
        if match_at(s, p, "D"@) {
            assert(s.subrange(p, p + 1)[0] == s[p + 0]);
            assert(s.subrange(p, s.len() as int)[0] == s[p + 0]);
            assert(false);
        }
    };
    assert(!match_at(s, p, "week"@)) by {
        if match_at(s, p, "week"@) {
            assert(s.subrange(p, p + 4)[0] == s[p + 0]);
            assert(s.subrange(p, s.len() as int)[0] == s[p + 0]);
            assert(false);
        }
    };
    assert(!match_at(s, p, "wks"@)) by {
        if match_at(s, p, "wks"@) {
            assert(s.subrange(p, p + 3)[0] == s[p + 0]);
            assert(s.subrange(p, s.len() as int)[0] == s[p + 0]);
            assert(false);
        }
    };
    assert(!match_at(s, p, "wk"@)) by {
        if match_at(s, p, "wk"@) {
            assert(s.subrange(p, p + 2)[0] == s[p + 0]);
            assert(s.subrange(p, s.len() as int)[0] == s[p + 0]);
            assert(false);
        }
    };
    assert(!match_at(s, p, "w"@)) by {
        if match_at(s, p, "w"@) {
            assert(s.subrange(p, p + 1)[0] == s[p + 0]);
            assert(s.subrange(p, s.len() as int)[0] == s[p + 0]);
            assert(false);
        }
    };
    assert(!match_at(s, p, "W"@)) by {
        if match_at(s, p, "W"@) {
            assert(s.subrange(p, p + 1)[0] == s[p + 0]);
            assert(s.subrange(p, s.len() as int)[0] == s[p + 0]);
            assert(false);
        }
    };
    assert(!match_at(s, p, "year"@)) by {
        if match_at(s, p, "year"@) {
            assert(s.subrange(p, p + 4)[0] == s[p + 0]);
            assert(s.subrange(p, s.len() as int)[0] == s[p + 0]);
            assert(false);
        }
    };
    assert(!match_at(s, p, "yrs"@)) by {
        if match_at(s, p, "yrs"@) {
            assert(s.subrange(p, p + 3)[0] == s[p + 0]);
            assert(s.subrange(p, s.len() as int)[0] == s[p + 0]);
            assert(false);
        }
    };
    assert(!match_at(s, p, "yr"@)) by {
        if match_at(s, p, "yr"@) {
            assert(s.subrange(p, p + 2)[0] == s[p + 0]);
            assert(s.subrange(p, s.len() as int)[0] == s[p + 0]);
            assert(false);
        }
    };
    assert(!match_at(s, p, "y"@)) by {
        if match_at(s, p, "y"@) {
            assert(s.subrange(p, p + 1)[0] == s[p + 0]);
            assert(s.subrange(p, s.len() as int)[0] == s[p + 0]);
            assert(false);
        }
    };
    assert(!match_at(s, p, "Y"@)) by {
        if match_at(s, p, "Y"@) {
            assert(s.subrange(p, p + 1)[0] == s[p + 0]);
            assert(s.subrange(p, s.len() as int)[0] == s[p + 0]);
            assert(false);
        }
    };
    assert(!match_at(s, p, "nsec"@)) by {
        if match_at(s, p, "nsec"@) {
            assert(s.subrange(p, p + 4)[0] == s[p + 0]);
            assert(s.subrange(p, s.len() as int)[0] == s[p + 0]);
            assert(false);
        }
    };
    assert(!match_at(s, p, "ns"@)) by {
        if match_at(s, p, "ns"@) {
            assert(s.subrange(p, p + 2)[0] == s[p + 0]);
            assert(s.subrange(p, s.len() as int)[0] == s[p + 0]);
            assert(false);
        }
    };
    assert(!match_at(s, p, "usec"@)) by {
        if match_at(s, p, "usec"@) {
            assert(s.subrange(p, p + 4)[0] == s[p + 0]);
            assert(s.subrange(p, s.len() as int)[0] == s[p + 0]);
            assert(false);
        }
    };
    assert(!match_at(s, p, "us"@)) by {
        if match_at(s, p, "us"@) {
            assert(s.subrange(p, p + 2)[0] == s[p + 0]);
            assert(s.subrange(p, s.len() as int)[0] == s[p + 0]);
            assert(false);
        }
    };
    assert(!match_at(s, p, "msec"@)) by {
        if match_at(s, p, "msec"@) {
            assert(s.subrange(p, p + 4)[1] == s[p + 1]);
            assert(s.subrange(p, s.len() as int)[1] == s[p + 1]);
            assert(false);
        }
    };
    assert(!match_at(s, p, "ms"@)) by {
        if match_at(s, p, "ms"@) {
            assert(s.subrange(p, p + 2)[1] == s[p + 1]);
            assert(s.subrange(p, s.len() as int)[1] == s[p + 1]);
            assert(false);
        }
    };
    assert(!match_at(s, p, "secs"@)) by {
        if match_at(s, p, "secs"@) {
            assert(s.subrange(p, p + 4)[0] == s[p + 0]);
            assert(s.subrange(p, s.len() as int)[0] == s[p + 0]);
            assert(false);
        }
    };
    assert(!match_at(s, p, "sec"@)) by {
        if match_at(s, p, "sec"@) {
            assert(s.subrange(p, p + 3)[0] == s[p + 0]);
            assert(s.subrange(p, s.len() as int)[0] == s[p + 0]);
            assert(false);
        }
    };
    assert(!match_at(s, p, "s"@)) by {
        if match_at(s, p, "s"@) {
            assert(s.subrange(p, p + 1)[0] == s[p + 0]);
            assert(s.subrange(p, s.len() as int)[0] == s[p + 0]);
            assert(false);
        }
    };
    assert(match_at(s, p, "mins"@)) by {
        assert(s.subrange(p, p + 4) == s.subrange(p, s.len() as int));
    };
}

/// With `min` as the whole tail at `p`, the resolver yields `Minutes`.
proof fn lemma_tail_minutes_min(s: Seq<char>, p: int)
    requires
        0 <= p <= s.len(),
        s.subrange(p, s.len() as int) == "min"@,
    ensures
        resolve_unit(s, p) == Some((Unit::Minutes, s.len() as int)),
{
    reveal_strlit("months");
    reveal_strlit("month");
    reveal_strlit("mths");
    reveal_strlit("mth");
    reveal_strlit("M");
    reveal_strlit("days");
    reveal_strlit("day");
    reveal_strlit("dys");
    reveal_strlit("dy");
    reveal_strlit("d");
    reveal_strlit("D");
    reveal_strlit("weeks");
    reveal_strlit("week");
    reveal_strlit("wks");
    reveal_strlit("wk");
    reveal_strlit("w");
    reveal_strlit("W");
    reveal_strlit("years");
    reveal_strlit("year");
    reveal_strlit("yrs");
    reveal_strlit("yr");
    reveal_strlit("y");
    reveal_strlit("Y");
    reveal_strlit("nanos");
    reveal_strlit("nsec");
    reveal_strlit("ns");
    reveal_strlit("micros");
    reveal_strlit("usec");
    reveal_strlit("us");
    reveal_strlit("millis");
    reveal_strlit("msec");
    reveal_strlit("ms");
    reveal_strlit("seconds");
    reveal_strlit("second");
    reveal_strlit("secs");
    reveal_strlit("sec");
    reveal_strlit("s");
    reveal_strlit("minutes");
    reveal_strlit("minute");
    reveal_strlit("mins");
    reveal_strlit("min");
    reveal_strlit("m");
    reveal_strlit("hours");
    reveal_strlit("hour");
    reveal_strlit("hrs");
    reveal_strlit("hr");
    reveal_strlit("h");
    reveal_strlit("H");
    assert(s.len() - p == 3);
    assert(!match_at(s, p, "mth"@)) by {
        if match_at(s, p, "mth"@) {
            assert(s.subrange(p, p + 3)[1] == s[p + 1]);
            assert(s.subrange(p, s.len() as int)[1] == s[p + 1]);
            assert(false);
        }
    };
    assert(!match_at(s, p, "M"@)) by {
        if match_at(s, p, "M"@) {
            assert(s.subrange(p, p + 1)[0] == s[p + 0]);
            assert(s.subrange(p, s.len() as int)[0] == s[p + 0]);
            assert(false);
        }
    };
    assert(!match_at(s, p, "day"@)) by {
        if match_at(s, p, "day"@) {
            assert(s.subrange(p, p + 3)[0] == s[p + 0]);
            assert(s.subrange(p, s.len() as int)[0] == s[p + 0]);
            assert(false);
        }
    };
    assert(!match_at(s, p, "dys"@)) by {
        if match_at(s, p, "dys"@) {
            assert(s.subrange(p, p + 3)[0] == s[p + 0]);
            assert(s.subrange(p, s.len() as int)[0] == s[p + 0]);
            assert(false);
        }
    };
    assert(!match_at(s, p, "dy"@)) by {
        if match_at(s, p, "dy"@) {
            assert(s.subrange(p, p + 2)[0] == s[p + 0]);
            assert(s.subrange(p, s.len() as int)[0] == s[p + 0]);
            assert(false);
        }
    };
    assert(!match_at(s, p, "d"@)) by {
        if match_at(s, p, "d"@) {
            assert(s.subrange(p, p + 1)[0] == s[p + 0]);
            assert(s.subrange(p, s.len() as int)[0] == s[p + 0]);
            assert(false);
        }
    };
    assert(!match_at(s, p, "D"@)) by {
        if match_at(s, p, "D"@) {
            assert(s.subrange(p, p + 1)[0] == s[p + 0]);
            assert(s.subrange(p, s.len() as int)[0] == s[p + 0]);
            assert(false);
        }
    };
    assert(!match_at(s, p, "wks"@)) by {
        if match_at(s, p, "wks"@) {
            assert(s.subrange(p, p + 3)[0] == s[p + 0]);
            assert(s.subrange(p, s.len() as int)[0] == s[p + 0]);
            assert(false);
        }
    };
    assert(!match_at(s, p, "wk"@)) by {
        if match_at(s, p, "wk"@) {
            assert(s.subrange(p, p + 2)[0] == s[p + 0]);
            assert(s.subrange(p, s.len() as int)[0] == s[p + 0]);
            assert(false);
        }
    };
    assert(!match_at(s, p, "w"@)) by {
        if match_at(s, p, "w"@) {
            assert(s.subrange(p, p + 1)[0] == s[p + 0]);
            assert(s.subrange(p, s.len() as int)[0] == s[p + 0]);
            assert(false);
        }
    };
    assert(!match_at(s, p, "W"@)) by {
        if match_at(s, p, "W"@) {
            assert(s.subrange(p, p + 1)[0] == s[p + 0]);
            assert(s.subrange(p, s.len() as int)[0] == s[p + 0]);
            assert(false);
        }
    };
    assert(!match_at(s, p, "yrs"@)) by {
        if match_at(s, p, "yrs"@) {
            assert(s.subrange(p, p + 3)[0] == s[p + 0]);
            assert(s.subrange(p, s.len() as int)[0] == s[p + 0]);
            assert(false);
        }
    };
    assert(!match_at(s, p, "yr"@)) by {
        if match_at(s, p, "yr"@) {
            assert(s.subrange(p, p + 2)[0] == s[p + 0]);
            assert(s.subrange(p, s.len() as int)[0] == s[p + 0]);
            assert(false);
        }
    };
    assert(!match_at(s, p, "y"@)) by {
        if match_at(s, p, "y"@) {
            assert(s.subrange(p, p + 1)[0] == s[p + 0]);
            assert(s.subrange(p, s.len() as int)[0] == s[p + 0]);
            assert(false);
        }
    };
    assert(!match_at(s, p, "Y"@)) by {
        if match_at(s, p, "Y"@) {
            assert(s.subrange(p, p + 1)[0] == s[p + 0]);
            assert(s.subrange(p, s.len() as int)[0] == s[p + 0]);
            assert(false);
        }
    };
    assert(!match_at(s, p, "ns"@)) by {
        if match_at(s, p, "ns"@) {
            assert(s.subrange(p, p + 2)[0] == s[p + 0]);
            assert(s.subrange(p, s.len() as int)[0] == s[p + 0]);
            assert(false);
        }
    };
    assert(!match_at(s, p, "us"@)) by {
        if match_at(s, p, "us"@) {
            assert(s.subrange(p, p + 2)[0] == s[p + 0]);
            assert(s.subrange(p, s.len() as int)[0] == s[p + 0]);
            assert(false);
        }
    };
    assert(!match_at(s, p, "ms"@)) by {
        if match_at(s, p, "ms"@) {
            assert(s.subrange(p, p + 2)[1] == s[p + 1]);
            assert(s.subrange(p, s.len() as int)[1] == s[p + 1]);
            assert(false);
        }
    };
    assert(!match_at(s, p, "sec"@)) by {
        if match_at(s, p, "sec"@) {
            assert(s.subrange(p, p + 3)[0] == s[p + 0]);
            assert(s.subrange(p, s.len() as int)[0] == s[p + 0]);
            assert(false);
        }
    };
    assert(!match_at(s, p, "s"@)) by {
        if match_at(s, p, "s"@) {
            assert(s.subrange(p, p + 1)[0] == s[p + 0]);
            assert(s.subrange(p, s.len() as int)[0] == s[p + 0]);
            assert(false);
        }
    };
    assert(match_at(s, p, "min"@)) by {
        assert(s.subrange(p, p + 3) == s.subrange(p, s.len() as int));
    };
}

/// With `m` as the whole tail at `p`, the resolver yields `Minutes`.
proof fn lemma_tail_minutes_m(s: Seq<char>, p: int)
    requires
        0 <= p <= s.len(),
        s.subrange(p, s.len() as int) == "m"@,
    ensures
        resolve_unit(s, p) == Some((Unit::Minutes, s.len() as int)),
{
    reveal_strlit("months");
    reveal_strlit("month");
    reveal_strlit("mths");
    reveal_strlit("mth");
    reveal_strlit("M");
    reveal_strlit("days");
    reveal_strlit("day");
    reveal_strlit("dys");
    reveal_strlit("dy");
    reveal_strlit("d");
    reveal_strlit("D");
    reveal_strlit("weeks");
    reveal_strlit("week");
    reveal_strlit("wks");
    reveal_strlit("wk");
    reveal_strlit("w");
    reveal_strlit("W");
    reveal_strlit("years");
    reveal_strlit("year");
    reveal_strlit("yrs");
    reveal_strlit("yr");
    reveal_strlit("y");
    reveal_strlit("Y");
    reveal_strlit("nanos");
    reveal_strlit("nsec");
    reveal_strlit("ns");
    reveal_strlit("micros");
    reveal_strlit("usec");
    reveal_strlit("us");
    reveal_strlit("millis");
    reveal_strlit("msec");
    reveal_strlit("ms");
    reveal_strlit("seconds");
    reveal_strlit("second");
    reveal_strlit("secs");
    reveal_strlit("sec");
    reveal_strlit("s");
    reveal_strlit("minutes");
    reveal_strlit("minute");
    reveal_strlit("mins");
    reveal_strlit("min");
    reveal_strlit("m");
    reveal_strlit("hours");
    reveal_strlit("hour");
    reveal_strlit("hrs");
    reveal_strlit("hr");
    reveal_strlit("h");
    reveal_strlit("H");
    assert(s.len() - p == 1);
    assert(!match_at(s, p, "M"@)) by {
        if match_at(s, p, "M"@) {
            assert(s.subrange(p, p + 1)[0] == s[p + 0]);
            assert(s.subrange(p, s.len() as int)[0] == s[p + 0]);
            assert(false);
        }
    };
    assert(!match_at(s, p, "d"@)) by {
        if match_at(s, p, "d"@) {
            assert(s.subrange(p, p + 1)[0] == s[p + 0]);
            assert(s.subrange(p, s.len() as int)[0] == s[p + 0]);
            assert(false);
        }
    };
    assert(!match_at(s, p, "D"@)) by {
        if match_at(s, p, "D"@) {
            assert(s.subrange(p, p + 1)[0] == s[p + 0]);
            assert(s.subrange(p, s.len() as int)[0] == s[p + 0]);
            assert(false);
        }
    };
    assert(!match_at(s, p, "w"@)) by {
        if match_at(s, p, "w"@) {
            assert(s.subrange(p, p + 1)[0] == s[p + 0]);
            assert(s.subrange(p, s.len() as int)[0] == s[p + 0]);
            assert(false);
        }
    };
    assert(!match_at(s, p, "W"@)) by {
        if match_at(s, p, "W"@) {
            assert(s.subrange(p, p + 1)[0] == s[p + 0]);
            assert(s.subrange(p, s.len() as int)[0] == s[p + 0]);
            assert(false);
        }
    };
    assert(!match_at(s, p, "y"@)) by {
        if match_at(s, p, "y"@) {
            assert(s.subrange(p, p + 1)[0] == s[p + 0]);
            assert(s.subrange(p, s.len() as int)[0] == s[p + 0]);
            assert(false);
        }
    };
    assert(!match_at(s, p, "Y"@)) by {
        if match_at(s, p, "Y"@) {
            assert(s.subrange(p, p + 1)[0] == s[p + 0]);
            assert(s.subrange(p, s.len() as int)[0] == s[p + 0]);
            assert(false);
        }
    };
    assert(!match_at(s, p, "s"@)) by {
        if match_at(s, p, "s"@) {
            assert(s.subrange(p, p + 1)[0] == s[p + 0]);
            assert(s.subrange(p, s.len() as int)[0] == s[p + 0]);
            assert(false);
        }
    };
    assert(match_at(s, p, "m"@)) by {
        assert(s.subrange(p, p + 1) == s.subrange(p, s.len() as int));
    };
}

/// With `hours` as the whole tail at `p`, the resolver yields `Hours`.
proof fn lemma_tail_hours_hours(s: Seq<char>, p: int)
    requires
        0 <= p <= s.len(),
        s.subrange(p, s.len() as int) == "hours"@,
    ensures
        resolve_unit(s, p) == Some((Unit::Hours, s.len() as int)),
{
    reveal_strlit("months");
    reveal_strlit("month");
    reveal_strlit("mths");
    reveal_strlit("mth");
    reveal_strlit("M");
    reveal_strlit("days");
    reveal_strlit("day");
    reveal_strlit("dys");
    reveal_strlit("dy");
    reveal_strlit("d");
    reveal_strlit("D");
    reveal_strlit("weeks");
    reveal_strlit("week");
    reveal_strlit("wks");
    reveal_strlit("wk");
    reveal_strlit("w");
    reveal_strlit("W");
    reveal_strlit("years");
    reveal_strlit("year");
    reveal_strlit("yrs");
    reveal_strlit("yr");
    reveal_strlit("y");
    reveal_strlit("Y");
    reveal_strlit("nanos");
    reveal_strlit("nsec");
    reveal_strlit("ns");
    reveal_strlit("micros");
    reveal_strlit("usec");
    reveal_strlit("us");
    reveal_strlit("millis");
    reveal_strlit("msec");
    reveal_strlit("ms");
    reveal_strlit("seconds");
    reveal_strlit("second");
    reveal_strlit("secs");
    reveal_strlit("sec");
    reveal_strlit("s");
    reveal_strlit("minutes");
    reveal_strlit("minute");
    reveal_strlit("mins");
    reveal_strlit("min");
    reveal_strlit("m");
    reveal_strlit("hours");
    reveal_strlit("hour");
    reveal_strlit("hrs");
    reveal_strlit("hr");
    reveal_strlit("h");
    reveal_strlit("H");
    assert(s.len() - p == 5);
    assert(!match_at(s, p, "month"@)) by {
        if match_at(s, p, "month"@) {
            assert(s.subrange(p, p + 5)[0] == s[p + 0]);
            assert(s.subrange(p, s.len() as int)[0] == s[p + 0]);
            assert(false);
        }
    };
    assert(!match_at(s, p, "mths"@)) by {
        if match_at(s, p, "mths"@) {
            assert(s.subrange(p, p + 4)[0] == s[p + 0]);
            assert(s.subrange(p, s.len() as int)[0] == s[p + 0]);
            assert(false);
        }
    };
    assert(!match_at(s, p, "mth"@)) by {
        if match_at(s, p, "mth"@) {
            assert(s.subrange(p, p + 3)[0] == s[p + 0]);
            assert(s.subrange(p, s.len() as int)[0] == s[p + 0]);
            assert(false);
        }
    };
    assert(!match_at(s, p, "M"@)) by {
        if match_at(s, p, "M"@) {
            assert(s.subrange(p, p + 1)[0] == s[p + 0]);
            assert(s.subrange(p, s.len() as int)[0] == s[p + 0]);
            assert(false);
        }
    };
    assert(!match_at(s, p, "days"@)) by {
        if match_at(s, p, "days"@) {
            assert(s.subrange(p, p + 4)[0] == s[p + 0]);
            assert(s.subrange(p, s.len() as int)[0] == s[p + 0]);
            assert(false);
        }
    };
    assert(!match_at(s, p, "day"@)) by {
        if match_at(s, p, "day"@) {
            assert(s.subrange(p, p + 3)[0] == s[p + 0]);
            assert(s.subrange(p, s.len() as int)[0] == s[p + 0]);
            assert(false);
        }
    };
    assert(!match_at(s, p, "dys"@)) by {
        if match_at(s, p, "dys"@) {
            assert(s.subrange(p, p + 3)[0] == s[p + 0]);
            assert(s.subrange(p, s.len() as int)[0] == s[p + 0]);
            assert(false);
        }
    };
    assert(!match_at(s, p, "dy"@)) by {
        if match_at(s, p, "dy"@) {
            assert(s.subrange(p, p + 2)[0] == s[p + 0]);
            assert(s.subrange(p, s.len() as int)[0] == s[p + 0]);
            assert(false);
        }
    };
    assert(!match_at(s, p, "d"@)) by {
        if match_at(s, p, "d"@) {
            assert(s.subrange(p, p + 1)[0] == s[p + 0]);
            assert(s.subrange(p, s.len() as int)[0] == s[p + 0]);
            assert(false);
        }
    };
    assert(!match_at(s, p, "D"@)) by {
        if match_at(s, p, "D"@) {
            assert(s.subrange(p, p + 1)[0] == s[p + 0]);
            assert(s.subrange(p, s.len() as int)[0] == s[p + 0]);
            assert(false);
        }
    };
    assert(!match_at(s, p, "weeks"@)) by {
        if match_at(s, p, "weeks"@) {
            assert(s.subrange(p, p + 5)[0] == s[p + 0]);
            assert(s.subrange(p, s.len() as int)[0] == s[p + 0]);
            assert(false);
        }
    };
    assert(!match_at(s, p, "week"@)) by {
        if match_at(s, p, "week"@) {
            assert(s.subrange(p, p + 4)[0] == s[p + 0]);
            assert(s.subrange(p, s.len() as int)[0] == s[p + 0]);
            assert(false);
        }
    };
    assert(!match_at(s, p, "wks"@)) by {
        if match_at(s, p, "wks"@) {
            assert(s.subrange(p, p + 3)[0] == s[p + 0]);
            assert(s.subrange(p, s.len() as int)[0] == s[p + 0]);
            assert(false);
        }
    };
    assert(!match_at(s, p, "wk"@)) by {
        if match_at(s, p, "wk"@) {
            assert(s.subrange(p, p + 2)[0] == s[p + 0]);
            assert(s.subrange(p, s.len() as int)[0] == s[p + 0]);
            assert(false);
        }
    };
    assert(!match_at(s, p, "w"@)) by {
        if match_at(s, p, "w"@) {
            assert(s.subrange(p, p + 1)[0] == s[p + 0]);
            assert(s.subrange(p, s.len() as int)[0] == s[p + 0]);
            assert(false);
        }
    };
    assert(!match_at(s, p, "W"@)) by {
        if match_at(s, p, "W"@) {
            assert(s.subrange(p, p + 1)[0] == s[p + 0]);
            assert(s.subrange(p, s.len() as int)[0] == s[p + 0]);
            assert(false);
        }
    };
    assert(!match_at(s, p, "years"@)) by {
        if match_at(s, p, "years"@) {
            assert(s.subrange(p, p + 5)[0] == s[p + 0]);
            assert(s.subrange(p, s.len() as int)[0] == s[p + 0]);
            assert(false);
        }
    };
    assert(!match_at(s, p, "year"@)) by {
        if match_at(s, p, "year"@) {
            assert(s.subrange(p, p + 4)[0] == s[p + 0]);
            assert(s.subrange(p, s.len() as int)[0] == s[p + 0]);
            assert(false);
        }
    };
    assert(!match_at(s, p, "yrs"@)) by {
        if match_at(s, p, "yrs"@) {
            assert(s.subrange(p, p + 3)[0] == s[p + 0]);
            assert(s.subrange(p, s.len() as int)[0] == s[p + 0]);
            assert(false);
        }
    };
    assert(!match_at(s, p, "yr"@)) by {
        if match_at(s, p, "yr"@) {
            assert(s.subrange(p, p + 2)[0] == s[p + 0]);
            assert(s.subrange(p, s.len() as int)[0] == s[p + 0]);
            assert(false);
        }
    };
    assert(!match_at(s, p, "y"@)) by {
        if match_at(s, p, "y"@) {
            assert(s.subrange(p, p + 1)[0] == s[p + 0]);
            assert(s.subrange(p, s.len() as int)[0] == s[p + 0]);
            assert(false);
        }
    };
    assert(!match_at(s, p, "Y"@)) by {
        if match_at(s, p, "Y"@) {
            assert(s.subrange(p, p + 1)[0] == s[p + 0]);
            assert(s.subrange(p, s.len() as int)[0] == s[p + 0]);
            assert(false);
        }
    };
    assert(!match_at(s, p, "nanos"@)) by {
        if match_at(s, p, "nanos"@) {
            assert(s.subrange(p, p + 5)[0] == s[p + 0]);
            assert(s.subrange(p, s.len() as int)[0] == s[p + 0]);
            assert(false);
        }
    };
    assert(!match_at(s, p, "nsec"@)) by {
        if match_at(s, p, "nsec"@) {
            assert(s.subrange(p, p + 4)[0] == s[p + 0]);
            assert(s.subrange(p, s.len() as int)[0] == s[p + 0]);
            assert(false);
        }
    };
    assert(!match_at(s, p, "ns"@)) by {
        if match_at(s, p, "ns"@) {
            assert(s.subrange(p, p + 2)[0] == s[p + 0]);
            assert(s.subrange(p, s.len() as int)[0] == s[p + 0]);
            assert(false);
        }
    };
    assert(!match_at(s, p, "usec"@)) by {
        if match_at(s, p, "usec"@) {
            assert(s.subrange(p, p + 4)[0] == s[p + 0]);
            assert(s.subrange(p, s.len() as int)[0] == s[p + 0]);
            assert(false);
        }
    };
    assert(!match_at(s, p, "us"@)) by {
        if match_at(s, p, "us"@) {
            assert(s.subrange(p, p + 2)[0] == s[p + 0]);
            assert(s.subrange(p, s.len() as int)[0] == s[p + 0]);
            assert(false);
        }
    };
    assert(!match_at(s, p, "msec"@)) by {
        if match_at(s, p, "msec"@) {
            assert(s.subrange(p, p + 4)[0] == s[p + 0]);
            assert(s.subrange(p, s.len() as int)[0] == s[p + 0]);
            assert(false);
        }
    };
    assert(!match_at(s, p, "ms"@)) by {
        if match_at(s, p, "ms"@) {
            assert(s.subrange(p, p + 2)[0] == s[p + 0]);
            assert(s.subrange(p, s.len() as int)[0] == s[p + 0]);
            assert(false);
        }
    };
    assert(!match_at(s, p, "secs"@)) by {
        if match_at(s, p, "secs"@) {
            assert(s.subrange(p, p + 4)[0] == s[p + 0]);
            assert(s.subrange(p, s.len() as int)[0] == s[p + 0]);
            assert(false);
        }
    };
    assert(!match_at(s, p, "sec"@)) by {
        if match_at(s, p, "sec"@) {
            assert(s.subrange(p, p + 3)[0] == s[p + 0]);
            assert(s.subrange(p, s.len() as int)[0] == s[p + 0]);
            assert(false);
        }
    };
    assert(!match_at(s, p, "s"@)) by {
        if match_at(s, p, "s"@) {
            assert(s.subrange(p, p + 1)[0] == s[p + 0]);
            assert(s.subrange(p, s.len() as int)[0] == s[p + 0]);
            assert(false);
        }
    };
    assert(!match_at(s, p, "mins"@)) by {
        if match_at(s, p, "mins"@) {
            assert(s.subrange(p, p + 4)[0] == s[p + 0]);
            assert(s.subrange(p, s.len() as int)[0] == s[p + 0]);
            assert(false);
        }
    };
    assert(!match_at(s, p, "min"@)) by {
        if match_at(s, p, "min"@) {
            assert(s.subrange(p, p + 3)[0] == s[p + 0]);
            assert(s.subrange(p, s.len() as int)[0] == s[p + 0]);
            assert(false);
        }
    };
    assert(!match_at(s, p, "m"@)) by {
        if match_at(s, p, "m"@) {
            assert(s.subrange(p, p + 1)[0] == s[p + 0]);
            assert(s.subrange(p, s.len() as int)[0] == s[p + 0]);
            assert(false);
        }
    };
    assert(match_at(s, p, "hours"@)) by {
        assert(s.subrange(p, p + 5) == s.subrange(p, s.len() as int));
    };
}

/// With `hour` as the whole tail at `p`, the resolver yields `Hours`.
proof fn lemma_tail_hours_hour(s: Seq<char>, p: int)
    requires
        0 <= p <= s.len(),
        s.subrange(p, s.len() as int) == "hour"@,
    ensures
        resolve_unit(s, p) == Some((Unit::Hours, s.len() as int)),
{
    reveal_strlit("months");
    reveal_strlit("month");
    reveal_strlit("mths");
    reveal_strlit("mth");
    reveal_strlit("M");
    reveal_strlit("days");
    reveal_strlit("day");
    reveal_strlit("dys");
    reveal_strlit("dy");
    reveal_strlit("d");
    reveal_strlit("D");
    reveal_strlit("weeks");
    reveal_strlit("week");
    reveal_strlit("wks");
    reveal_strlit("wk");
    reveal_strlit("w");
    reveal_strlit("W");
    reveal_strlit("years");
    reveal_strlit("year");
    reveal_strlit("yrs");
    reveal_strlit("yr");
    reveal_strlit("y");
    reveal_strlit("Y");
    reveal_strlit("nanos");
    reveal_strlit("nsec");
    reveal_strlit("ns");
    reveal_strlit("micros");
    reveal_strlit("usec");
    reveal_strlit("us");
    reveal_strlit("millis");
    reveal_strlit("msec");
    reveal_strlit("ms");
    reveal_strlit("seconds");
    reveal_strlit("second");
    reveal_strlit("secs");
    reveal_strlit("sec");
    reveal_strlit("s");
    reveal_strlit("minutes");
    reveal_strlit("minute");
    reveal_strlit("mins");
    reveal_strlit("min");
    reveal_strlit("m");
    reveal_strlit("hours");
    reveal_strlit("hour");
    reveal_strlit("hrs");
    reveal_strlit("hr");
    reveal_strlit("h");
    reveal_strlit("H");
    assert(s.len() - p == 4);
    assert(!match_at(s, p, "mths"@)) by {
        if match_at(s, p, "mths"@) {
            assert(s.subrange(p, p + 4)[0] == s[p + 0]);
            assert(s.subrange(p, s.len() as int)[0] == s[p + 0]);
            assert(false);
        }
    };
    assert(!match_at(s, p, "mth"@)) by {
        if match_at(s, p, "mth"@) {
            assert(s.subrange(p, p + 3)[0] == s[p + 0]);
            assert(s.subrange(p, s.len() as int)[0] == s[p + 0]);
            assert(false);
        }
    };
    assert(!match_at(s, p, "M"@)) by {
        if match_at(s, p, "M"@) {
            assert(s.subrange(p, p + 1)[0] == s[p + 0]);
            assert(s.subrange(p, s.len() as int)[0] == s[p + 0]);
            assert(false);
        }
    };
    assert(!match_at(s, p, "days"@)) by {
        if match_at(s, p, "days"@) {
            assert(s.subrange(p, p + 4)[0] == s[p + 0]);
            assert(s.subrange(p, s.len() as int)[0] == s[p + 0]);
            assert(false);
        }
    };
    assert(!match_at(s, p, "day"@)) by {
        if match_at(s, p, "day"@) {
            assert(s.subrange(p, p + 3)[0] == s[p + 0]);
            assert(s.subrange(p, s.len() as int)[0] == s[p + 0]);
            assert(false);
        }
    };
    assert(!match_at(s, p, "dys"@)) by {
        if match_at(s, p, "dys"@) {
            assert(s.subrange(p, p + 3)[0] == s[p + 0]);
            assert(s.subrange(p, s.len() as int)[0] == s[p + 0]);
            assert(false);
        }
    };
    assert(!match_at(s, p, "dy"@)) by {
        if match_at(s, p, "dy"@) {
            assert(s.subrange(p, p + 2)[0] == s[p + 0]);
            assert(s.subrange(p, s.len() as int)[0] == s[p + 0]);
            assert(false);
        }
    };
    assert(!match_at(s, p, "d"@)) by {
        if match_at(s, p, "d"@) {
            assert(s.subrange(p, p + 1)[0] == s[p + 0]);
            assert(s.subrange(p, s.len() as int)[0] == s[p + 0]);
            assert(false);
        }
    };
    assert(!match_at(s, p, "D"@)) by {
        if match_at(s, p, "D"@) {
            assert(s.subrange(p, p + 1)[0] == s[p + 0]);
            assert(s.subrange(p, s.len() as int)[0] == s[p + 0]);
            assert(false);
        }
    };
    assert(!match_at(s, p, "week"@)) by {
        if match_at(s, p, "week"@) {
            assert(s.subrange(p, p + 4)[0] == s[p + 0]);
            assert(s.subrange(p, s.len() as int)[0] == s[p + 0]);
            assert(false);
        }
    };
    assert(!match_at(s, p, "wks"@)) by {
        if match_at(s, p, "wks"@) {
            assert(s.subrange(p, p + 3)[0] == s[p + 0]);
            assert(s.subrange(p, s.len() as int)[0] == s[p + 0]);
            assert(false);
        }
    };
    assert(!match_at(s, p, "wk"@)) by {
        if match_at(s, p, "wk"@) {
            assert(s.subrange(p, p + 2)[0] == s[p + 0]);
            assert(s.subrange(p, s.len() as int)[0] == s[p + 0]);
            assert(false);
        }
    };
    assert(!match_at(s, p, "w"@)) by {
        if match_at(s, p, "w"@) {
            assert(s.subrange(p, p + 1)[0] == s[p + 0]);
            assert(s.subrange(p, s.len() as int)[0] == s[p + 0]);
            assert(false);
        }
    };
    assert(!match_at(s, p, "W"@)) by {
        if match_at(s, p, "W"@) {
            assert(s.subrange(p, p + 1)[0] == s[p + 0]);
            assert(s.subrange(p, s.len() as int)[0] == s[p + 0]);
            assert(false);
        }
    };
    assert(!match_at(s, p, "year"@)) by {
        if match_at(s, p, "year"@) {
            assert(s.subrange(p, p + 4)[0] == s[p + 0]);
            assert(s.subrange(p, s.len() as int)[0] == s[p + 0]);
            assert(false);
        }
    };
    assert(!match_at(s, p, "yrs"@)) by {
        if match_at(s, p, "yrs"@) {
            assert(s.subrange(p, p + 3)[0] == s[p + 0]);
            assert(s.subrange(p, s.len() as int)[0] == s[p + 0]);
            assert(false);
        }
    };
    assert(!match_at(s, p, "yr"@)) by {
        if match_at(s, p, "yr"@) {
            assert(s.subrange(p, p + 2)[0] == s[p + 0]);
            assert(s.subrange(p, s.len() as int)[0] == s[p + 0]);
            assert(false);
        }
    };
    assert(!match_at(s, p, "y"@)) by {
        if match_at(s, p, "y"@) {
            assert(s.subrange(p, p + 1)[0] == s[p + 0]);
            assert(s.subrange(p, s.len() as int)[0] == s[p + 0]);
            assert(false);
        }
    };
    assert(!match_at(s, p, "Y"@)) by {
        if match_at(s, p, "Y"@) {
            assert(s.subrange(p, p + 1)[0] == s[p + 0]);
            assert(s.subrange(p, s.len() as int)[0] == s[p + 0]);
            assert(false);
        }
    };
    assert(!match_at(s, p, "nsec"@)) by {
        if match_at(s, p, "nsec"@) {
            assert(s.subrange(p, p + 4)[0] == s[p + 0]);
            assert(s.subrange(p, s.len() as int)[0] == s[p + 0]);
            assert(false);
        }
    };
    assert(!match_at(s, p, "ns"@)) by {
        if match_at(s, p, "ns"@) {
            assert(s.subrange(p, p + 2)[0] == s[p + 0]);
            assert(s.subrange(p, s.len() as int)[0] == s[p + 0]);
            assert(false);
        }
    };
    assert(!match_at(s, p, "usec"@)) by {
        if match_at(s, p, "usec"@) {
            assert(s.subrange(p, p + 4)[0] == s[p + 0]);
            assert(s.subrange(p, s.len() as int)[0] == s[p + 0]);
            assert(false);
        }
    };
    assert(!match_at(s, p, "us"@)) by {
        if match_at(s, p, "us"@) {
            assert(s.subrange(p, p + 2)[0] == s[p + 0]);
            assert(s.subrange(p, s.len() as int)[0] == s[p + 0]);
            assert(false);
        }
    };
    assert(!match_at(s, p, "msec"@)) by {
        if match_at(s, p, "msec"@) {
            assert(s.subrange(p, p + 4)[0] == s[p + 0]);
            assert(s.subrange(p, s.len() as int)[0] == s[p + 0]);
            assert(false);
        }
    };
    assert(!match_at(s, p, "ms"@)) by {
        if match_at(s, p, "ms"@) {
            assert(s.subrange(p, p + 2)[0] == s[p + 0]);
            assert(s.subrange(p, s.len() as int)[0] == s[p + 0]);
            assert(false);
        }
    };
    assert(!match_at(s, p, "secs"@)) by {
        if match_at(s, p, "secs"@) {
            assert(s.subrange(p, p + 4)[0] == s[p + 0]);
            assert(s.subrange(p, s.len() as int)[0] == s[p + 0]);
            assert(false);
        }
    };
    assert(!match_at(s, p, "sec"@)) by {
        if match_at(s, p, "sec"@) {
            assert(s.subrange(p, p + 3)[0] == s[p + 0]);
            assert(s.subrange(p, s.len() as int)[0] == s[p + 0]);
            assert(false);
        }
    };
    assert(!match_at(s, p, "s"@)) by {
        if match_at(s, p, "s"@) {
            assert(s.subrange(p, p + 1)[0] == s[p + 0]);
            assert(s.subrange(p, s.len() as int)[0] == s[p + 0]);
            assert(false);
        }
    };
    assert(!match_at(s, p, "mins"@)) by {
        if match_at(s, p, "mins"@) {
            assert(s.subrange(p, p + 4)[0] == s[p + 0]);
            assert(s.subrange(p, s.len() as int)[0] == s[p + 0]);
            assert(false);
        }
    };
    assert(!match_at(s, p, "min"@)) by {
        if match_at(s, p, "min"@) {
            assert(s.subrange(p, p + 3)[0] == s[p + 0]);
            assert(s.subrange(p, s.len() as int)[0] == s[p + 0]);
            assert(false);
        }
    };
    assert(!match_at(s, p, "m"@)) by {
        if match_at(s, p, "m"@) {
            assert(s.subrange(p, p + 1)[0] == s[p + 0]);
            assert(s.subrange(p, s.len() as int)[0] == s[p + 0]);
            assert(false);
        }
    };
    assert(match_at(s, p, "hour"@)) by {
        assert(s.subrange(p, p + 4) == s.subrange(p, s.len() as int));
    };
}

/// With `hrs` as the whole tail at `p`, the resolver yields `Hours`.
proof fn lemma_tail_hours_hrs(s: Seq<char>, p: int)
    requires
        0 <= p <= s.len(),
        s.subrange(p, s.len() as int) == "hrs"@,
    ensures
        resolve_unit(s, p) == Some((Unit::Hours, s.len() as int)),
{
    reveal_strlit("months");
    reveal_strlit("month");
    reveal_strlit("mths");
    reveal_strlit("mth");
    reveal_strlit("M");
    reveal_strlit("days");
    reveal_strlit("day");
    reveal_strlit("dys");
    reveal_strlit("dy");
    reveal_strlit("d");
    reveal_strlit("D");
    reveal_strlit("weeks");
    reveal_strlit("week");
    reveal_strlit("wks");
    reveal_strlit("wk");
    reveal_strlit("w");
    reveal_strlit("W");
    reveal_strlit("years");
    reveal_strlit("year");
    reveal_strlit("yrs");
    reveal_strlit("yr");
    reveal_strlit("y");
    reveal_strlit("Y");
    reveal_strlit("nanos");
    reveal_strlit("nsec");
    reveal_strlit("ns");
    reveal_strlit("micros");
    reveal_strlit("usec");
    reveal_strlit("us");
    reveal_strlit("millis");
    reveal_strlit("msec");
    reveal_strlit("ms");
    reveal_strlit("seconds");
    reveal_strlit("second");
    reveal_strlit("secs");
    reveal_strlit("sec");
    reveal_strlit("s");
    reveal_strlit("minutes");
    reveal_strlit("minute");
    reveal_strlit("mins");
    reveal_strlit("min");
    reveal_strlit("m");
    reveal_strlit("hours");
    reveal_strlit("hour");
    reveal_strlit("hrs");
    reveal_strlit("hr");
    reveal_strlit("h");
    reveal_strlit("H");
    assert(s.len() - p == 3);
    assert(!match_at(s, p, "mth"@)) by {
        if match_at(s, p, "mth"@) {
            assert(s.subrange(p, p + 3)[0] == s[p + 0]);
            assert(s.subrange(p, s.len() as int)[0] == s[p + 0]);
            assert(false);
        }
    };
    assert(!match_at(s, p, "M"@)) by {
        if match_at(s, p, "M"@) {
            assert(s.subrange(p, p + 1)[0] == s[p + 0]);
            assert(s.subrange(p, s.len() as int)[0] == s[p + 0]);
            assert(false);
        }
    };
    assert(!match_at(s, p, "day"@)) by {
        if match_at(s, p, "day"@) {
            assert(s.subrange(p, p + 3)[0] == s[p + 0]);
            assert(s.subrange(p, s.len() as int)[0] == s[p + 0]);
            assert(false);
        }
    };
    assert(!match_at(s, p, "dys"@)) by {
        if match_at(s, p, "dys"@) {
            assert(s.subrange(p, p + 3)[0] == s[p + 0]);
            assert(s.subrange(p, s.len() as int)[0] == s[p + 0]);
            assert(false);
        }
    };
    assert(!match_at(s, p, "dy"@)) by {
        if match_at(s, p, "dy"@) {
            assert(s.subrange(p, p + 2)[0] == s[p + 0]);
            assert(s.subrange(p, s.len() as int)[0] == s[p + 0]);
            assert(false);
        }
    };
    assert(!match_at(s, p, "d"@)) by {
        if match_at(s, p, "d"@) {
            assert(s.subrange(p, p + 1)[0] == s[p + 0]);
            assert(s.subrange(p, s.len() as int)[0] == s[p + 0]);
            assert(false);
        }
    };
    assert(!match_at(s, p, "D"@)) by {
        if match_at(s, p, "D"@) {
            assert(s.subrange(p, p + 1)[0] == s[p + 0]);
            assert(s.subrange(p, s.len() as int)[0] == s[p + 0]);
            assert(false);
        }
    };
    assert(!match_at(s, p, "wks"@)) by {
        if match_at(s, p, "wks"@) {
            assert(s.subrange(p, p + 3)[0] == s[p + 0]);
            assert(s.subrange(p, s.len() as int)[0] == s[p + 0]);
            assert(false);
        }
    };
    assert(!match_at(s, p, "wk"@)) by {
        if match_at(s, p, "wk"@) {
            assert(s.subrange(p, p + 2)[0] == s[p + 0]);
            assert(s.subrange(p, s.len() as int)[0] == s[p + 0]);
            assert(false);
        }
    };
    assert(!match_at(s, p, "w"@)) by {
        if match_at(s, p, "w"@) {
            assert(s.subrange(p, p + 1)[0] == s[p + 0]);
            assert(s.subrange(p, s.len() as int)[0] == s[p + 0]);
            assert(false);
        }
    };
    assert(!match_at(s, p, "W"@)) by {
        if match_at(s, p, "W"@) {
            assert(s.subrange(p, p + 1)[0] == s[p + 0]);
            assert(s.subrange(p, s.len() as int)[0] == s[p + 0]);
            assert(false);
        }
    };
    assert(!match_at(s, p, "yrs"@)) by {
        if match_at(s, p, "yrs"@) {
            assert(s.subrange(p, p + 3)[0] == s[p + 0]);
            assert(s.subrange(p, s.len() as int)[0] == s[p + 0]);
            assert(false);
        }
    };
    assert(!match_at(s, p, "yr"@)) by {
        if match_at(s, p, "yr"@) {
            assert(s.subrange(p, p + 2)[0] == s[p + 0]);
            assert(s.subrange(p, s.len() as int)[0] == s[p + 0]);
            assert(false);
        }
    };
    assert(!match_at(s, p, "y"@)) by {
        if match_at(s, p, "y"@) {
            assert(s.subrange(p, p + 1)[0] == s[p + 0]);
            assert(s.subrange(p, s.len() as int)[0] == s[p + 0]);
            assert(false);
        }
    };
    assert(!match_at(s, p, "Y"@)) by {
        if match_at(s, p, "Y"@) {
            assert(s.subrange(p, p + 1)[0] == s[p + 0]);
            assert(s.subrange(p, s.len() as int)[0] == s[p + 0]);
            assert(false);
        }
    };
    assert(!match_at(s, p, "ns"@)) by {
        if match_at(s, p, "ns"@) {
            assert(s.subrange(p, p + 2)[0] == s[p + 0]);
            assert(s.subrange(p, s.len() as int)[0] == s[p + 0]);
            assert(false);
        }
    };
    assert(!match_at(s, p, "us"@)) by {
        if match_at(s, p, "us"@) {
            assert(s.subrange(p, p + 2)[0] == s[p + 0]);
            assert(s.subrange(p, s.len() as int)[0] == s[p + 0]);
            assert(false);
        }
    };
    assert(!match_at(s, p, "ms"@)) by {
        if match_at(s, p, "ms"@) {
            assert(s.subrange(p, p + 2)[0] == s[p + 0]);
            assert(s.subrange(p, s.len() as int)[0] == s[p + 0]);
            assert(false);
        }
    };
    assert(!match_at(s, p, "sec"@)) by {
        if match_at(s, p, "sec"@) {
            assert(s.subrange(p, p + 3)[0] == s[p + 0]);
            assert(s.subrange(p, s.len() as int)[0] == s[p + 0]);
            assert(false);
        }
    };
    assert(!match_at(s, p, "s"@)) by {
        if match_at(s, p, "s"@) {
            assert(s.subrange(p, p + 1)[0] == s[p + 0]);
            assert(s.subrange(p, s.len() as int)[0] == s[p + 0]);
            assert(false);
        }
    };
    assert(!match_at(s, p, "min"@)) by {
        if match_at(s, p, "min"@) {
            assert(s.subrange(p, p + 3)[0] == s[p + 0]);
            assert(s.subrange(p, s.len() as int)[0] == s[p + 0]);
            assert(false);
        }
    };
    assert(!match_at(s, p, "m"@)) by {
        if match_at(s, p, "m"@) {
            assert(s.subrange(p, p + 1)[0] == s[p + 0]);
            assert(s.subrange(p, s.len() as int)[0] == s[p + 0]);
            assert(false);
        }
    };
    assert(match_at(s, p, "hrs"@)) by {
        assert(s.subrange(p, p + 3) == s.subrange(p, s.len() as int));
    };
}

/// With `hr` as the whole tail at `p`, the resolver yields `Hours`.
proof fn lemma_tail_hours_hr(s: Seq<char>, p: int)
    requires
        0 <= p <= s.len(),
        s.subrange(p, s.len() as int) == "hr"@,
    ensures
        resolve_unit(s, p) == Some((Unit::Hours, s.len() as int)),
{
    reveal_strlit("months");
    reveal_strlit("month");
    reveal_strlit("mths");
    reveal_strlit("mth");
    reveal_strlit("M");
    reveal_strlit("days");
    reveal_strlit("day");
    reveal_strlit("dys");
    reveal_strlit("dy");
    reveal_strlit("d");
    reveal_strlit("D");
    reveal_strlit("weeks");
    reveal_strlit("week");
    reveal_strlit("wks");
    reveal_strlit("wk");
    reveal_strlit("w");
    reveal_strlit("W");
    reveal_strlit("years");
    reveal_strlit("year");
    reveal_strlit("yrs");
    reveal_strlit("yr");
    reveal_strlit("y");
    reveal_strlit("Y");
    reveal_strlit("nanos");
    reveal_strlit("nsec");
    reveal_strlit("ns");
    reveal_strlit("micros");
    reveal_strlit("usec");
    reveal_strlit("us");
    reveal_strlit("millis");
    reveal_strlit("msec");
    reveal_strlit("ms");
    reveal_strlit("seconds");
    reveal_strlit("second");
    reveal_strlit("secs");
    reveal_strlit("sec");
    reveal_strlit("s");
    reveal_strlit("minutes");
    reveal_strlit("minute");
    reveal_strlit("mins");
    reveal_strlit("min");
    reveal_strlit("m");
    reveal_strlit("hours");
    reveal_strlit("hour");
    reveal_strlit("hrs");
    reveal_strlit("hr");
    reveal_strlit("h");
    reveal_strlit("H");
    assert(s.len() - p == 2);
    assert(!match_at(s, p, "M"@)) by {
        if match_at(s, p, "M"@) {
            assert(s.subrange(p, p + 1)[0] == s[p + 0]);
            assert(s.subrange(p, s.len() as int)[0] == s[p + 0]);
            assert(false);
        }
    };
    assert(!match_at(s, p, "dy"@)) by {
        if match_at(s, p, "dy"@) {
            assert(s.subrange(p, p + 2)[0] == s[p + 0]);
            assert(s.subrange(p, s.len() as int)[0] == s[p + 0]);
            assert(false);
        }
    };
    assert(!match_at(s, p, "d"@)) by {
        if match_at(s, p, "d"@) {
            assert(s.subrange(p, p + 1)[0] == s[p + 0]);
            assert(s.subrange(p, s.len() as int)[0] == s[p + 0]);
            assert(false);
        }
    };
    assert(!match_at(s, p, "D"@)) by {
        if match_at(s, p, "D"@) {
            assert(s.subrange(p, p + 1)[0] == s[p + 0]);
            assert(s.subrange(p, s.len() as int)[0] == s[p + 0]);
            assert(false);
        }
    };
    assert(!match_at(s, p, "wk"@)) by {
        if match_at(s, p, "wk"@) {
            assert(s.subrange(p, p + 2)[0] == s[p + 0]);
            assert(s.subrange(p, s.len() as int)[0] == s[p + 0]);
            assert(false);
        }
    };
    assert(!match_at(s, p, "w"@)) by {
        if match_at(s, p, "w"@) {
            assert(s.subrange(p, p + 1)[0] == s[p + 0]);
            assert(s.subrange(p, s.len() as int)[0] == s[p + 0]);
            assert(false);
        }
    };
    assert(!match_at(s, p, "W"@)) by {
        if match_at(s, p, "W"@) {
            assert(s.subrange(p, p + 1)[0] == s[p + 0]);
            assert(s.subrange(p, s.len() as int)[0] == s[p + 0]);
            assert(false);
        }
    };
    assert(!match_at(s, p, "yr"@)) by {
        if match_at(s, p, "yr"@) {
            assert(s.subrange(p, p + 2)[0] == s[p + 0]);
            assert(s.subrange(p, s.len() as int)[0] == s[p + 0]);
            assert(false);
        }
    };
    assert(!match_at(s, p, "y"@)) by {
        if match_at(s, p, "y"@) {
            assert(s.subrange(p, p + 1)[0] == s[p + 0]);
            assert(s.subrange(p, s.len() as int)[0] == s[p + 0]);
            assert(false);
        }
    };
    assert(!match_at(s, p, "Y"@)) by {
        if match_at(s, p, "Y"@) {
            assert(s.subrange(p, p + 1)[0] == s[p + 0]);
            assert(s.subrange(p, s.len() as int)[0] == s[p + 0]);
            assert(false);
        }
    };
    assert(!match_at(s, p, "ns"@)) by {
        if match_at(s, p, "ns"@) {
            assert(s.subrange(p, p + 2)[0] == s[p + 0]);
            assert(s.subrange(p, s.len() as int)[0] == s[p + 0]);
            assert(false);
        }
    };
    assert(!match_at(s, p, "us"@)) by {
        if match_at(s, p, "us"@) {
            assert(s.subrange(p, p + 2)[0] == s[p + 0]);
            assert(s.subrange(p, s.len() as int)[0] == s[p + 0]);
            assert(false);
        }
    };
    assert(!match_at(s, p, "ms"@)) by {
        if match_at(s, p, "ms"@) {
            assert(s.subrange(p, p + 2)[0] == s[p + 0]);
            assert(s.subrange(p, s.len() as int)[0] == s[p + 0]);
            assert(false);
        }
    };
    assert(!match_at(s, p, "s"@)) by {
        if match_at(s, p, "s"@) {
            assert(s.subrange(p, p + 1)[0] == s[p + 0]);
            assert(s.subrange(p, s.len() as int)[0] == s[p + 0]);
            assert(false);
        }
    };
    assert(!match_at(s, p, "m"@)) by {
        if match_at(s, p, "m"@) {
            assert(s.subrange(p, p + 1)[0] == s[p + 0]);
            assert(s.subrange(p, s.len() as int)[0] == s[p + 0]);
            assert(false);
        }
    };
    assert(match_at(s, p, "hr"@)) by {
        assert(s.subrange(p, p + 2) == s.subrange(p, s.len() as int));
    };
}

/// With `h` as the whole tail at `p`, the resolver yields `Hours`.
proof fn lemma_tail_hours_h(s: Seq<char>, p: int)
    requires
        0 <= p <= s.len(),
        s.subrange(p, s.len() as int) == "h"@,
    ensures
        resolve_unit(s, p) == Some((Unit::Hours, s.len() as int)),
{
    reveal_strlit("months");
    reveal_strlit("month");
    reveal_strlit("mths");
    reveal_strlit("mth");
    reveal_strlit("M");
    reveal_strlit("days");
    reveal_strlit("day");
    reveal_strlit("dys");
    reveal_strlit("dy");
    reveal_strlit("d");
    reveal_strlit("D");
    reveal_strlit("weeks");
    reveal_strlit("week");
    reveal_strlit("wks");
    reveal_strlit("wk");
    reveal_strlit("w");
    reveal_strlit("W");
    reveal_strlit("years");
    reveal_strlit("year");
    reveal_strlit("yrs");
    reveal_strlit("yr");
    reveal_strlit("y");
    reveal_strlit("Y");
    reveal_strlit("nanos");
    reveal_strlit("nsec");
    reveal_strlit("ns");
    reveal_strlit("micros");
    reveal_strlit("usec");
    reveal_strlit("us");
    reveal_strlit("millis");
    reveal_strlit("msec");
    reveal_strlit("ms");
    reveal_strlit("seconds");
    reveal_strlit("second");
    reveal_strlit("secs");
    reveal_strlit("sec");
    reveal_strlit("s");
    reveal_strlit("minutes");
    reveal_strlit("minute");
    reveal_strlit("mins");
    reveal_strlit("min");
    reveal_strlit("m");
    reveal_strlit("hours");
    reveal_strlit("hour");
    reveal_strlit("hrs");
    reveal_strlit("hr");
    reveal_strlit("h");
    reveal_strlit("H");
    assert(s.len() - p == 1);
    assert(!match_at(s, p, "M"@)) by {
        if match_at(s, p, "M"@) {
            assert(s.subrange(p, p + 1)[0] == s[p + 0]);
            assert(s.subrange(p, s.len() as int)[0] == s[p + 0]);
            assert(false);
        }
    };
    assert(!match_at(s, p, "d"@)) by {
        if match_at(s, p, "d"@) {
            assert(s.subrange(p, p + 1)[0] == s[p + 0]);
            assert(s.subrange(p, s.len() as int)[0] == s[p + 0]);
            assert(false);
        }
    };
    assert(!match_at(s, p, "D"@)) by {
        if match_at(s, p, "D"@) {
            assert(s.subrange(p, p + 1)[0] == s[p + 0]);
            assert(s.subrange(p, s.len() as int)[0] == s[p + 0]);
            assert(false);
        }
    };
    assert(!match_at(s, p, "w"@)) by {
        if match_at(s, p, "w"@) {
            assert(s.subrange(p, p + 1)[0] == s[p + 0]);
            assert(s.subrange(p, s.len() as int)[0] == s[p + 0]);
            assert(false);
        }
    };
    assert(!match_at(s, p, "W"@)) by {
        if match_at(s, p, "W"@) {
            assert(s.subrange(p, p + 1)[0] == s[p + 0]);
            assert(s.subrange(p, s.len() as int)[0] == s[p + 0]);
            assert(false);
        }
    };
    assert(!match_at(s, p, "y"@)) by {
        if match_at(s, p, "y"@) {
            assert(s.subrange(p, p + 1)[0] == s[p + 0]);
            assert(s.subrange(p, s.len() as int)[0] == s[p + 0]);
            assert(false);
        }
    };
    assert(!match_at(s, p, "Y"@)) by {
        if match_at(s, p, "Y"@) {
            assert(s.subrange(p, p + 1)[0] == s[p + 0]);
            assert(s.subrange(p, s.len() as int)[0] == s[p + 0]);
            assert(false);
        }
    };
    assert(!match_at(s, p, "s"@)) by {
        if match_at(s, p, "s"@) {
            assert(s.subrange(p, p + 1)[0] == s[p + 0]);
            assert(s.subrange(p, s.len() as int)[0] == s[p + 0]);
            assert(false);
        }
    };
    assert(!match_at(s, p, "m"@)) by {
        if match_at(s, p, "m"@) {
            assert(s.subrange(p, p + 1)[0] == s[p + 0]);
            assert(s.subrange(p, s.len() as int)[0] == s[p + 0]);
            assert(false);
        }
    };
    assert(match_at(s, p, "h"@)) by {
        assert(s.subrange(p, p + 1) == s.subrange(p, s.len() as int));
    };
}

/// With `H` as the whole tail at `p`, the resolver yields `Hours`.
proof fn lemma_tail_hours_cap_h(s: Seq<char>, p: int)
    requires
        0 <= p <= s.len(),
        s.subrange(p, s.len() as int) == "H"@,
    ensures
        resolve_unit(s, p) == Some((Unit::Hours, s.len() as int)),
{
    reveal_strlit("months");
    reveal_strlit("month");
    reveal_strlit("mths");
    reveal_strlit("mth");
    reveal_strlit("M");
    reveal_strlit("days");
    reveal_strlit("day");
    reveal_strlit("dys");
    reveal_strlit("dy");
    reveal_strlit("d");
    reveal_strlit("D");
    reveal_strlit("weeks");
    reveal_strlit("week");
    reveal_strlit("wks");
    reveal_strlit("wk");
    reveal_strlit("w");
    reveal_strlit("W");
    reveal_strlit("years");
    reveal_strlit("year");
    reveal_strlit("yrs");
    reveal_strlit("yr");
    reveal_strlit("y");
    reveal_strlit("Y");
    reveal_strlit("nanos");
    reveal_strlit("nsec");
    reveal_strlit("ns");
    reveal_strlit("micros");
    reveal_strlit("usec");
    reveal_strlit("us");
    reveal_strlit("millis");
    reveal_strlit("msec");
    reveal_strlit("ms");
    reveal_strlit("seconds");
    reveal_strlit("second");
    reveal_strlit("secs");
    reveal_strlit("sec");
    reveal_strlit("s");
    reveal_strlit("minutes");
    reveal_strlit("minute");
    reveal_strlit("mins");
    reveal_strlit("min");
    reveal_strlit("m");
    reveal_strlit("hours");
    reveal_strlit("hour");
    reveal_strlit("hrs");
    reveal_strlit("hr");
    reveal_strlit("h");
    reveal_strlit("H");
    assert(s.len() - p == 1);
    assert(!match_at(s, p, "M"@)) by {
        if match_at(s, p, "M"@) {
            assert(s.subrange(p, p + 1)[0] == s[p + 0]);
            assert(s.subrange(p, s.len() as int)[0] == s[p + 0]);
            assert(false);
        }
    };
    assert(!match_at(s, p, "d"@)) by {
        if match_at(s, p, "d"@) {
            assert(s.subrange(p, p + 1)[0] == s[p + 0]);
            assert(s.subrange(p, s.len() as int)[0] == s[p + 0]);
            assert(false);
        }
    };
    assert(!match_at(s, p, "D"@)) by {
        if match_at(s, p, "D"@) {
            assert(s.subrange(p, p + 1)[0] == s[p + 0]);
            assert(s.subrange(p, s.len() as int)[0] == s[p + 0]);
            assert(false);
        }
    };
    assert(!match_at(s, p, "w"@)) by {
        if match_at(s, p, "w"@) {
            assert(s.subrange(p, p + 1)[0] == s[p + 0]);
            assert(s.subrange(p, s.len() as int)[0] == s[p + 0]);
            assert(false);
        }
    };
    assert(!match_at(s, p, "W"@)) by {
        if match_at(s, p, "W"@) {
            assert(s.subrange(p, p + 1)[0] == s[p + 0]);
            assert(s.subrange(p, s.len() as int)[0] == s[p + 0]);
            assert(false);
        }
    };
    assert(!match_at(s, p, "y"@)) by {
        if match_at(s, p, "y"@) {
            assert(s.subrange(p, p + 1)[0] == s[p + 0]);
            assert(s.subrange(p, s.len() as int)[0] == s[p + 0]);
            assert(false);
        }
    };
    assert(!match_at(s, p, "Y"@)) by {
        if match_at(s, p, "Y"@) {
            assert(s.subrange(p, p + 1)[0] == s[p + 0]);
            assert(s.subrange(p, s.len() as int)[0] == s[p + 0]);
            assert(false);
        }
    };
    assert(!match_at(s, p, "s"@)) by {
        if match_at(s, p, "s"@) {
            assert(s.subrange(p, p + 1)[0] == s[p + 0]);
            assert(s.subrange(p, s.len() as int)[0] == s[p + 0]);
            assert(false);
        }
    };
    assert(!match_at(s, p, "m"@)) by {
        if match_at(s, p, "m"@) {
            assert(s.subrange(p, p + 1)[0] == s[p + 0]);
            assert(s.subrange(p, s.len() as int)[0] == s[p + 0]);
            assert(false);
        }
    };
    assert(!match_at(s, p, "h"@)) by {
        if match_at(s, p, "h"@) {
            assert(s.subrange(p, p + 1)[0] == s[p + 0]);
            assert(s.subrange(p, s.len() as int)[0] == s[p + 0]);
            assert(false);
        }
    };
    assert(match_at(s, p, "H"@)) by {
        assert(s.subrange(p, p + 1) == s.subrange(p, s.len() as int));
    };
}

/// Any table suffix standing as the entire tail at `p` resolves to its unit,
/// with the match ending exactly at the end of the text.
pub proof fn lemma_resolve_table_tail(s: Seq<char>, p: int, sfx: Seq<char>, u: Unit)
    requires
        0 <= p <= s.len(),
        is_table_entry(sfx, u),
        s.subrange(p, s.len() as int) == sfx,
    ensures
        resolve_unit(s, p) == Some((u, s.len() as int)),
{
    if sfx == "months"@ && u == Unit::Months {
        lemma_tail_months_months(s, p);
    } else if sfx == "month"@ && u == Unit::Months {
        lemma_tail_months_month(s, p);
    } else if sfx == "mths"@ && u == Unit::Months {
        lemma_tail_months_mths(s, p);
    } else if sfx == "mth"@ && u == Unit::Months {
        lemma_tail_months_mth(s, p);
    } else if sfx == "M"@ && u == Unit::Months {
        lemma_tail_months_cap_m(s, p);
    } else if sfx == "days"@ && u == Unit::Days {
        lemma_tail_days_days(s, p);
    } else if sfx == "day"@ && u == Unit::Days {
        lemma_tail_days_day(s, p);
    } else if sfx == "dys"@ && u == Unit::Days {
        lemma_tail_days_dys(s, p);
    } else if sfx == "dy"@ && u == Unit::Days {
        lemma_tail_days_dy(s, p);
    } else if sfx == "d"@ && u == Unit::Days {
        lemma_tail_days_d(s, p);
    } else if sfx == "D"@ && u == Unit::Days {
        lemma_tail_days_cap_d(s, p);
    } else if sfx == "weeks"@ && u == Unit::Weeks {
        lemma_tail_weeks_weeks(s, p);
    } else if sfx == "week"@ && u == Unit::Weeks {
        lemma_tail_weeks_week(s, p);
    } else if sfx == "wks"@ && u == Unit::Weeks {
        lemma_tail_weeks_wks(s, p);
    } else if sfx == "wk"@ && u == Unit::Weeks {
        lemma_tail_weeks_wk(s, p);
    } else if sfx == "w"@ && u == Unit::Weeks {
        lemma_tail_weeks_w(s, p);
    } else if sfx == "W"@ && u == Unit::Weeks {
        lemma_tail_weeks_cap_w(s, p);
    } else if sfx == "years"@ && u == Unit::Years {
        lemma_tail_years_years(s, p);
    } else if sfx == "year"@ && u == Unit::Years {
        lemma_tail_years_year(s, p);
    } else if sfx == "yrs"@ && u == Unit::Years {
        lemma_tail_years_yrs(s, p);
    } else if sfx == "yr"@ && u == Unit::Years {
        lemma_tail_years_yr(s, p);
    } else if sfx == "y"@ && u == Unit::Years {
        lemma_tail_years_y(s, p);
    } else if sfx == "Y"@ && u == Unit::Years {
        lemma_tail_years_cap_y(s, p);
    } else if sfx == "nanos"@ && u == Unit::Nanos {
        lemma_tail_nanos_nanos(s, p);
    } else if sfx == "nsec"@ && u == Unit::Nanos {
        lemma_tail_nanos_nsec(s, p);
    } else if sfx == "ns"@ && u == Unit::Nanos {
        lemma_tail_nanos_ns(s, p);
    } else if sfx == "micros"@ && u == Unit::Micros {
        lemma_tail_micros_micros(s, p);
    } else if sfx == "usec"@ && u == Unit::Micros {
        lemma_tail_micros_usec(s, p);
    } else if sfx == "us"@ && u == Unit::Micros {
        lemma_tail_micros_us(s, p);
    } else if sfx == "millis"@ && u == Unit::Millis {
        lemma_tail_millis_millis(s, p);
    } else if sfx == "msec"@ && u == Unit::Millis {
        lemma_tail_millis_msec(s, p);
    } else if sfx == "ms"@ && u == Unit::Millis {
        lemma_tail_millis_ms(s, p);
    } else if sfx == "seconds"@ && u == Unit::Seconds {
        lemma_tail_seconds_seconds(s, p);
    } else if sfx == "second"@ && u == Unit::Seconds {
        lemma_tail_seconds_second(s, p);
    } else if sfx == "secs"@ && u == Unit::Seconds {
        lemma_tail_seconds_secs(s, p);
    } else if sfx == "sec"@ && u == Unit::Seconds {
        lemma_tail_seconds_sec(s, p);
    } else if sfx == "s"@ && u == Unit::Seconds {
        lemma_tail_seconds_s(s, p);
    } else if sfx == "minutes"@ && u == Unit::Minutes {
        lemma_tail_minutes_minutes(s, p);
    } else if sfx == "minute"@ && u == Unit::Minutes {
        lemma_tail_minutes_minute(s, p);
    } else if sfx == "mins"@ && u == Unit::Minutes {
        lemma_tail_minutes_mins(s, p);
    } else if sfx == "min"@ && u == Unit::Minutes {
        lemma_tail_minutes_min(s, p);
    } else if sfx == "m"@ && u == Unit::Minutes {
        lemma_tail_minutes_m(s, p);
    } else if sfx == "hours"@ && u == Unit::Hours {
        lemma_tail_hours_hours(s, p);
    } else if sfx == "hour"@ && u == Unit::Hours {
        lemma_tail_hours_hour(s, p);
    } else if sfx == "hrs"@ && u == Unit::Hours {
        lemma_tail_hours_hrs(s, p);
    } else if sfx == "hr"@ && u == Unit::Hours {
        lemma_tail_hours_hr(s, p);
    } else if sfx == "h"@ && u == Unit::Hours {
        lemma_tail_hours_h(s, p);
    } else if sfx == "H"@ && u == Unit::Hours {
        lemma_tail_hours_cap_h(s, p);
    } else {
        assert(false);
    }
}

/// Facts about every table suffix that the grammar's scanners lean on: it is
/// nonempty, starts with a letter that no numeric literal or blank contains,
/// and ends with a non-blank character.
pub proof fn lemma_table_suffix_shape(sfx: Seq<char>, u: Unit)
    requires
        is_table_entry(sfx, u),
    ensures
        sfx.len() >= 1,
        !crate::scan::is_digit(sfx[0]),
        sfx[0] != '.',
        sfx[0] != 'e',
        sfx[0] != 'E',
        !crate::scan::is_sep_space(sfx[0]),
        !crate::scan::is_trim_space(sfx[sfx.len() - 1]),
{
    reveal_strlit("months");
    reveal_strlit("month");
    reveal_strlit("mths");
    reveal_strlit("mth");
    reveal_strlit("M");
    reveal_strlit("days");
    reveal_strlit("day");
    reveal_strlit("dys");
    reveal_strlit("dy");
    reveal_strlit("d");
    reveal_strlit("D");
    reveal_strlit("weeks");
    reveal_strlit("week");
    reveal_strlit("wks");
    reveal_strlit("wk");
    reveal_strlit("w");
    reveal_strlit("W");
    reveal_strlit("years");
    reveal_strlit("year");
    reveal_strlit("yrs");
    reveal_strlit("yr");
    reveal_strlit("y");
    reveal_strlit("Y");
    reveal_strlit("nanos");
    reveal_strlit("nsec");
    reveal_strlit("ns");
    reveal_strlit("micros");
    reveal_strlit("usec");
    reveal_strlit("us");
    reveal_strlit("millis");
    reveal_strlit("msec");
    reveal_strlit("ms");
    reveal_strlit("seconds");
    reveal_strlit("second");
    reveal_strlit("secs");
    reveal_strlit("sec");
    reveal_strlit("s");
    reveal_strlit("minutes");
    reveal_strlit("minute");
    reveal_strlit("mins");
    reveal_strlit("min");
    reveal_strlit("m");
    reveal_strlit("hours");
    reveal_strlit("hour");
    reveal_strlit("hrs");
    reveal_strlit("hr");
    reveal_strlit("h");
    reveal_strlit("H");
}


/// With `months` at `p` and a blank right after it, the resolver yields `Months`.
proof fn lemma_mid_months_months(s: Seq<char>, p: int)
    requires
        0 <= p,
        p + 6 < s.len(),
        s.subrange(p, p + 6) == "months"@,
        crate::scan::is_sep_space(s[p + 6]),
    ensures
        resolve_unit(s, p) == Some((Unit::Months, p + 6)),
{
    reveal_strlit("months");
    reveal_strlit("month");
    reveal_strlit("mths");
    reveal_strlit("mth");
    reveal_strlit("M");
    reveal_strlit("days");
    reveal_strlit("day");
    reveal_strlit("dys");
    reveal_strlit("dy");
    reveal_strlit("d");
    reveal_strlit("D");
    reveal_strlit("weeks");
    reveal_strlit("week");
    reveal_strlit("wks");
    reveal_strlit("wk");
    reveal_strlit("w");
    reveal_strlit("W");
    reveal_strlit("years");
    reveal_strlit("year");
    reveal_strlit("yrs");
    reveal_strlit("yr");
    reveal_strlit("y");
    reveal_strlit("Y");
    reveal_strlit("nanos");
    reveal_strlit("nsec");
    reveal_strlit("ns");
    reveal_strlit("micros");
    reveal_strlit("usec");
    reveal_strlit("us");
    reveal_strlit("millis");
    reveal_strlit("msec");
    reveal_strlit("ms");
    reveal_strlit("seconds");
    reveal_strlit("second");
    reveal_strlit("secs");
    reveal_strlit("sec");
    reveal_strlit("s");
    reveal_strlit("minutes");
    reveal_strlit("minute");
    reveal_strlit("mins");
    reveal_strlit("min");
    reveal_strlit("m");
    reveal_strlit("hours");
    reveal_strlit("hour");
    reveal_strlit("hrs");
    reveal_strlit("hr");
    reveal_strlit("h");
    reveal_strlit("H");
    assert(match_at(s, p, "months"@));
}

/// With `month` at `p` and a blank right after it, the resolver yields `Months`.
proof fn lemma_mid_months_month(s: Seq<char>, p: int)
    requires
        0 <= p,
        p + 5 < s.len(),
        s.subrange(p, p + 5) == "month"@,
        crate::scan::is_sep_space(s[p + 5]),
    ensures
        resolve_unit(s, p) == Some((Unit::Months, p + 5)),
{
    reveal_strlit("months");
    reveal_strlit("month");
    reveal_strlit("mths");
    reveal_strlit("mth");
    reveal_strlit("M");
    reveal_strlit("days");
    reveal_strlit("day");
    reveal_strlit("dys");
    reveal_strlit("dy");
    reveal_strlit("d");
    reveal_strlit("D");
    reveal_strlit("weeks");
    reveal_strlit("week");
    reveal_strlit("wks");
    reveal_strlit("wk");
    reveal_strlit("w");
    reveal_strlit("W");
    reveal_strlit("years");
    reveal_strlit("year");
    reveal_strlit("yrs");
    reveal_strlit("yr");
    reveal_strlit("y");
    reveal_strlit("Y");
    reveal_strlit("nanos");
    reveal_strlit("nsec");
    reveal_strlit("ns");
    reveal_strlit("micros");
    reveal_strlit("usec");
    reveal_strlit("us");
    reveal_strlit("millis");
    reveal_strlit("msec");
    reveal_strlit("ms");
    reveal_strlit("seconds");
    reveal_strlit("second");
    reveal_strlit("secs");
    reveal_strlit("sec");
    reveal_strlit("s");
    reveal_strlit("minutes");
    reveal_strlit("minute");
    reveal_strlit("mins");
    reveal_strlit("min");
    reveal_strlit("m");
    reveal_strlit("hours");
    reveal_strlit("hour");
    reveal_strlit("hrs");
    reveal_strlit("hr");
    reveal_strlit("h");
    reveal_strlit("H");
    assert(!match_at(s, p, "months"@)) by {
        if match_at(s, p, "months"@) {
            assert(s.subrange(p, p + 6)[5] == s[p + 5]);
            assert(false);
        }
    };
    assert(match_at(s, p, "month"@));
}

/// With `mths` at `p` and a blank right after it, the resolver yields `Months`.
proof fn lemma_mid_months_mths(s: Seq<char>, p: int)
    requires
        0 <= p,
        p + 4 < s.len(),
        s.subrange(p, p + 4) == "mths"@,
        crate::scan::is_sep_space(s[p + 4]),
    ensures
        resolve_unit(s, p) == Some((Unit::Months, p + 4)),
{
    reveal_strlit("months");
    reveal_strlit("month");
    reveal_strlit("mths");
    reveal_strlit("mth");
    reveal_strlit("M");
    reveal_strlit("days");
    reveal_strlit("day");
    reveal_strlit("dys");
    reveal_strlit("dy");
    reveal_strlit("d");
    reveal_strlit("D");
    reveal_strlit("weeks");
    reveal_strlit("week");
    reveal_strlit("wks");
    reveal_strlit("wk");
    reveal_strlit("w");
    reveal_strlit("W");
    reveal_strlit("years");
    reveal_strlit("year");
    reveal_strlit("yrs");
    reveal_strlit("yr");
    reveal_strlit("y");
    reveal_strlit("Y");
    reveal_strlit("nanos");
    reveal_strlit("nsec");
    reveal_strlit("ns");
    reveal_strlit("micros");
    reveal_strlit("usec");
    reveal_strlit("us");
    reveal_strlit("millis");
    reveal_strlit("msec");
    reveal_strlit("ms");
    reveal_strlit("seconds");
    reveal_strlit("second");
    reveal_strlit("secs");
    reveal_strlit("sec");
    reveal_strlit("s");
    reveal_strlit("minutes");
    reveal_strlit("minute");
    reveal_strlit("mins");
    reveal_strlit("min");
    reveal_strlit("m");
    reveal_strlit("hours");
    reveal_strlit("hour");
    reveal_strlit("hrs");
    reveal_strlit("hr");
    reveal_strlit("h");
    reveal_strlit("H");
    assert(!match_at(s, p, "months"@)) by {
        if match_at(s, p, "months"@) {
            assert(s.subrange(p, p + 6)[1] == s[p + 1]);
            assert(s.subrange(p, p + 4)[1] == s[p + 1]);
            assert(false);
        }
    };
    assert(!match_at(s, p, "month"@)) by {
        if match_at(s, p, "month"@) {
            assert(s.subrange(p, p + 5)[1] == s[p + 1]);
            assert(s.subrange(p, p + 4)[1] == s[p + 1]);
            assert(false);
        }
    };
    assert(match_at(s, p, "mths"@));
}

/// With `mth` at `p` and a blank right after it, the resolver yields `Months`.
proof fn lemma_mid_months_mth(s: Seq<char>, p: int)
    requires
        0 <= p,
        p + 3 < s.len(),
        s.subrange(p, p + 3) == "mth"@,
        crate::scan::is_sep_space(s[p + 3]),
    ensures
        resolve_unit(s, p) == Some((Unit::Months, p + 3)),
{
    reveal_strlit("months");
    reveal_strlit("month");
    reveal_strlit("mths");
    reveal_strlit("mth");
    reveal_strlit("M");
    reveal_strlit("days");
    reveal_strlit("day");
    reveal_strlit("dys");
    reveal_strlit("dy");
    reveal_strlit("d");
    reveal_strlit("D");
    reveal_strlit("weeks");
    reveal_strlit("week");
    reveal_strlit("wks");
    reveal_strlit("wk");
    reveal_strlit("w");
    reveal_strlit("W");
    reveal_strlit("years");
    reveal_strlit("year");
    reveal_strlit("yrs");
    reveal_strlit("yr");
    reveal_strlit("y");
    reveal_strlit("Y");
    reveal_strlit("nanos");
    reveal_strlit("nsec");
    reveal_strlit("ns");
    reveal_strlit("micros");
    reveal_strlit("usec");
    reveal_strlit("us");
    reveal_strlit("millis");
    reveal_strlit("msec");
    reveal_strlit("ms");
    reveal_strlit("seconds");
    reveal_strlit("second");
    reveal_strlit("secs");
    reveal_strlit("sec");
    reveal_strlit("s");
    reveal_strlit("minutes");
    reveal_strlit("minute");
    reveal_strlit("mins");
    reveal_strlit("min");
    reveal_strlit("m");
    reveal_strlit("hours");
    reveal_strlit("hour");
    reveal_strlit("hrs");
    reveal_strlit("hr");
    reveal_strlit("h");
    reveal_strlit("H");
    assert(!match_at(s, p, "months"@)) by {
        if match_at(s, p, "months"@) {
            assert(s.subrange(p, p + 6)[1] == s[p + 1]);
            assert(s.subrange(p, p + 3)[1] == s[p + 1]);
            assert(false);
        }
    };
    assert(!match_at(s, p, "month"@)) by {
        if match_at(s, p, "month"@) {
            assert(s.subrange(p, p + 5)[1] == s[p + 1]);
            assert(s.subrange(p, p + 3)[1] == s[p + 1]);
            assert(false);
        }
    };
    assert(!match_at(s, p, "mths"@)) by {
        if match_at(s, p, "mths"@) {
            assert(s.subrange(p, p + 4)[3] == s[p + 3]);
            assert(false);
        }
    };
    assert(match_at(s, p, "mth"@));
}

/// With `M` at `p` and a blank right after it, the resolver yields `Months`.
proof fn lemma_mid_months_cap_m(s: Seq<char>, p: int)
    requires
        0 <= p,
        p + 1 < s.len(),
        s.subrange(p, p + 1) == "M"@,
        crate::scan::is_sep_space(s[p + 1]),
    ensures
        resolve_unit(s, p) == Some((Unit::Months, p + 1)),
{
    reveal_strlit("months");
    reveal_strlit("month");
    reveal_strlit("mths");
    reveal_strlit("mth");
    reveal_strlit("M");
    reveal_strlit("days");
    reveal_strlit("day");
    reveal_strlit("dys");
    reveal_strlit("dy");
    reveal_strlit("d");
    reveal_strlit("D");
    reveal_strlit("weeks");
    reveal_strlit("week");
    reveal_strlit("wks");
    reveal_strlit("wk");
    reveal_strlit("w");
    reveal_strlit("W");
    reveal_strlit("years");
    reveal_strlit("year");
    reveal_strlit("yrs");
    reveal_strlit("yr");
    reveal_strlit("y");
    reveal_strlit("Y");
    reveal_strlit("nanos");
    reveal_strlit("nsec");
    reveal_strlit("ns");
    reveal_strlit("micros");
    reveal_strlit("usec");
    reveal_strlit("us");
    reveal_strlit("millis");
    reveal_strlit("msec");
    reveal_strlit("ms");
    reveal_strlit("seconds");
    reveal_strlit("second");
    reveal_strlit("secs");
    reveal_strlit("sec");
    reveal_strlit("s");
    reveal_strlit("minutes");
    reveal_strlit("minute");
    reveal_strlit("mins");
    reveal_strlit("min");
    reveal_strlit("m");
    reveal_strlit("hours");
    reveal_strlit("hour");
    reveal_strlit("hrs");
    reveal_strlit("hr");
    reveal_strlit("h");
    reveal_strlit("H");
    assert(!match_at(s, p, "months"@)) by {
        if match_at(s, p, "months"@) {
            assert(s.subrange(p, p + 6)[0] == s[p + 0]);
            assert(s.subrange(p, p + 1)[0] == s[p + 0]);
            assert(false);
        }
    };
    assert(!match_at(s, p, "month"@)) by {
        if match_at(s, p, "month"@) {
            assert(s.subrange(p, p + 5)[0] == s[p + 0]);
            assert(s.subrange(p, p + 1)[0] == s[p + 0]);
            assert(false);
        }
    };
    assert(!match_at(s, p, "mths"@)) by {
        if match_at(s, p, "mths"@) {
            assert(s.subrange(p, p + 4)[0] == s[p + 0]);
            assert(s.subrange(p, p + 1)[0] == s[p + 0]);
            assert(false);
        }
    };
    assert(!match_at(s, p, "mth"@)) by {
        if match_at(s, p, "mth"@) {
            assert(s.subrange(p, p + 3)[0] == s[p + 0]);
            assert(s.subrange(p, p + 1)[0] == s[p + 0]);
            assert(false);
        }
    };
    assert(match_at(s, p, "M"@));
}

/// With `days` at `p` and a blank right after it, the resolver yields `Days`.
proof fn lemma_mid_days_days(s: Seq<char>, p: int)
    requires
        0 <= p,
        p + 4 < s.len(),
        s.subrange(p, p + 4) == "days"@,
        crate::scan::is_sep_space(s[p + 4]),
    ensures
        resolve_unit(s, p) == Some((Unit::Days, p + 4)),
{
    reveal_strlit("months");
    reveal_strlit("month");
    reveal_strlit("mths");
    reveal_strlit("mth");
    reveal_strlit("M");
    reveal_strlit("days");
    reveal_strlit("day");
    reveal_strlit("dys");
    reveal_strlit("dy");
    reveal_strlit("d");
    reveal_strlit("D");
    reveal_strlit("weeks");
    reveal_strlit("week");
    reveal_strlit("wks");
    reveal_strlit("wk");
    reveal_strlit("w");
    reveal_strlit("W");
    reveal_strlit("years");
    reveal_strlit("year");
    reveal_strlit("yrs");
    reveal_strlit("yr");
    reveal_strlit("y");
    reveal_strlit("Y");
    reveal_strlit("nanos");
    reveal_strlit("nsec");
    reveal_strlit("ns");
    reveal_strlit("micros");
    reveal_strlit("usec");
    reveal_strlit("us");
    reveal_strlit("millis");
    reveal_strlit("msec");
    reveal_strlit("ms");
    reveal_strlit("seconds");
    reveal_strlit("second");
    reveal_strlit("secs");
    reveal_strlit("sec");
    reveal_strlit("s");
    reveal_strlit("minutes");
    reveal_strlit("minute");
    reveal_strlit("mins");
    reveal_strlit("min");
    reveal_strlit("m");
    reveal_strlit("hours");
    reveal_strlit("hour");
    reveal_strlit("hrs");
    reveal_strlit("hr");
    reveal_strlit("h");
    reveal_strlit("H");
    assert(!match_at(s, p, "months"@)) by {
        if match_at(s, p, "months"@) {
            assert(s.subrange(p, p + 6)[0] == s[p + 0]);
            assert(s.subrange(p, p + 4)[0] == s[p + 0]);
            assert(false);
        }
    };
    assert(!match_at(s, p, "month"@)) by {
        if match_at(s, p, "month"@) {
            assert(s.subrange(p, p + 5)[0] == s[p + 0]);
            assert(s.subrange(p, p + 4)[0] == s[p + 0]);
            assert(false);
        }
    };
    assert(!match_at(s, p, "mths"@)) by {
        if match_at(s, p, "mths"@) {
            assert(s.subrange(p, p + 4)[0] == s[p + 0]);
            assert(s.subrange(p, p + 4)[0] == s[p + 0]);
            assert(false);
        }
    };
    assert(!match_at(s, p, "mth"@)) by {
        if match_at(s, p, "mth"@) {
            assert(s.subrange(p, p + 3)[0] == s[p + 0]);
            assert(s.subrange(p, p + 4)[0] == s[p + 0]);
            assert(false);
        }
    };
    assert(!match_at(s, p, "M"@)) by {
        if match_at(s, p, "M"@) {
            assert(s.subrange(p, p + 1)[0] == s[p + 0]);
            assert(s.subrange(p, p + 4)[0] == s[p + 0]);
            assert(false);
        }
    };
    assert(match_at(s, p, "days"@));
}

/// With `day` at `p` and a blank right after it, the resolver yields `Days`.
proof fn lemma_mid_days_day(s: Seq<char>, p: int)
    requires
        0 <= p,
        p + 3 < s.len(),
        s.subrange(p, p + 3) == "day"@,
        crate::scan::is_sep_space(s[p + 3]),
    ensures
        resolve_unit(s, p) == Some((Unit::Days, p + 3)),
{
    reveal_strlit("months");
    reveal_strlit("month");
    reveal_strlit("mths");
    reveal_strlit("mth");
    reveal_strlit("M");
    reveal_strlit("days");
    reveal_strlit("day");
    reveal_strlit("dys");
    reveal_strlit("dy");
    reveal_strlit("d");
    reveal_strlit("D");
    reveal_strlit("weeks");
    reveal_strlit("week");
    reveal_strlit("wks");
    reveal_strlit("wk");
    reveal_strlit("w");
    reveal_strlit("W");
    reveal_strlit("years");
    reveal_strlit("year");
    reveal_strlit("yrs");
    reveal_strlit("yr");
    reveal_strlit("y");
    reveal_strlit("Y");
    reveal_strlit("nanos");
    reveal_strlit("nsec");
    reveal_strlit("ns");
    reveal_strlit("micros");
    reveal_strlit("usec");
    reveal_strlit("us");
    reveal_strlit("millis");
    reveal_strlit("msec");
    reveal_strlit("ms");
    reveal_strlit("seconds");
    reveal_strlit("second");
    reveal_strlit("secs");
    reveal_strlit("sec");
    reveal_strlit("s");
    reveal_strlit("minutes");
    reveal_strlit("minute");
    reveal_strlit("mins");
    reveal_strlit("min");
    reveal_strlit("m");
    reveal_strlit("hours");
    reveal_strlit("hour");
    reveal_strlit("hrs");
    reveal_strlit("hr");
    reveal_strlit("h");
    reveal_strlit("H");
    assert(!match_at(s, p, "months"@)) by {
        if match_at(s, p, "months"@) {
            assert(s.subrange(p, p + 6)[0] == s[p + 0]);
            assert(s.subrange(p, p + 3)[0] == s[p + 0]);
            assert(false);
        }
    };
    assert(!match_at(s, p, "month"@)) by {
        if match_at(s, p, "month"@) {
            assert(s.subrange(p, p + 5)[0] == s[p + 0]);
            assert(s.subrange(p, p + 3)[0] == s[p + 0]);
            assert(false);
        }
    };
    assert(!match_at(s, p, "mths"@)) by {
        if match_at(s, p, "mths"@) {
            assert(s.subrange(p, p + 4)[0] == s[p + 0]);
            assert(s.subrange(p, p + 3)[0] == s[p + 0]);
            assert(false);
        }
    };
    assert(!match_at(s, p, "mth"@)) by {
        if match_at(s, p, "mth"@) {
            assert(s.subrange(p, p + 3)[0] == s[p + 0]);
            assert(s.subrange(p, p + 3)[0] == s[p + 0]);
            assert(false);
        }
    };
    assert(!match_at(s, p, "M"@)) by {
        if match_at(s, p, "M"@) {
            assert(s.subrange(p, p + 1)[0] == s[p + 0]);
            assert(s.subrange(p, p + 3)[0] == s[p + 0]);
            assert(false);
        }
    };
    assert(!match_at(s, p, "days"@)) by {
        if match_at(s, p, "days"@) {
            assert(s.subrange(p, p + 4)[3] == s[p + 3]);
            assert(false);
        }
    };
    assert(match_at(s, p, "day"@));
}

/// With `dys` at `p` and a blank right after it, the resolver yields `Days`.
proof fn lemma_mid_days_dys(s: Seq<char>, p: int)
    requires
        0 <= p,
        p + 3 < s.len(),
        s.subrange(p, p + 3) == "dys"@,
        crate::scan::is_sep_space(s[p + 3]),
    ensures
        resolve_unit(s, p) == Some((Unit::Days, p + 3)),
{
    reveal_strlit("months");
    reveal_strlit("month");
    reveal_strlit("mths");
    reveal_strlit("mth");
    reveal_strlit("M");
    reveal_strlit("days");
    reveal_strlit("day");
    reveal_strlit("dys");
    reveal_strlit("dy");
    reveal_strlit("d");
    reveal_strlit("D");
    reveal_strlit("weeks");
    reveal_strlit("week");
    reveal_strlit("wks");
    reveal_strlit("wk");
    reveal_strlit("w");
    reveal_strlit("W");
    reveal_strlit("years");
    reveal_strlit("year");
    reveal_strlit("yrs");
    reveal_strlit("yr");
    reveal_strlit("y");
    reveal_strlit("Y");
    reveal_strlit("nanos");
    reveal_strlit("nsec");
    reveal_strlit("ns");
    reveal_strlit("micros");
    reveal_strlit("usec");
    reveal_strlit("us");
    reveal_strlit("millis");
    reveal_strlit("msec");
    reveal_strlit("ms");
    reveal_strlit("seconds");
    reveal_strlit("second");
    reveal_strlit("secs");
    reveal_strlit("sec");
    reveal_strlit("s");
    reveal_strlit("minutes");
    reveal_strlit("minute");
    reveal_strlit("mins");
    reveal_strlit("min");
    reveal_strlit("m");
    reveal_strlit("hours");
    reveal_strlit("hour");
    reveal_strlit("hrs");
    reveal_strlit("hr");
    reveal_strlit("h");
    reveal_strlit("H");
    assert(!match_at(s, p, "months"@)) by {
        if match_at(s, p, "months"@) {
            assert(s.subrange(p, p + 6)[0] == s[p + 0]);
            assert(s.subrange(p, p + 3)[0] == s[p + 0]);
            assert(false);
        }
    };
    assert(!match_at(s, p, "month"@)) by {
        if match_at(s, p, "month"@) {
            assert(s.subrange(p, p + 5)[0] == s[p + 0]);
            assert(s.subrange(p, p + 3)[0] == s[p + 0]);
            assert(false);
        }
    };
    assert(!match_at(s, p, "mths"@)) by {
        if match_at(s, p, "mths"@) {
            assert(s.subrange(p, p + 4)[0] == s[p + 0]);
            assert(s.subrange(p, p + 3)[0] == s[p + 0]);
            assert(false);
        }
    };
    assert(!match_at(s, p, "mth"@)) by {
        if match_at(s, p, "mth"@) {
            assert(s.subrange(p, p + 3)[0] == s[p + 0]);
            assert(s.subrange(p, p + 3)[0] == s[p + 0]);
            assert(false);
        }
    };
    assert(!match_at(s, p, "M"@)) by {
        if match_at(s, p, "M"@) {
            assert(s.subrange(p, p + 1)[0] == s[p + 0]);
            assert(s.subrange(p, p + 3)[0] == s[p + 0]);
            assert(false);
        }
    };
    assert(!match_at(s, p, "days"@)) by {
        if match_at(s, p, "days"@) {
            assert(s.subrange(p, p + 4)[1] == s[p + 1]);
            assert(s.subrange(p, p + 3)[1] == s[p + 1]);
            assert(false);
        }
    };
    assert(!match_at(s, p, "day"@)) by {
        if match_at(s, p, "day"@) {
            assert(s.subrange(p, p + 3)[1] == s[p + 1]);
            assert(s.subrange(p, p + 3)[1] == s[p + 1]);
            assert(false);
        }
    };
    assert(match_at(s, p, "dys"@));
}

/// With `dy` at `p` and a blank right after it, the resolver yields `Days`.
proof fn lemma_mid_days_dy(s: Seq<char>, p: int)
    requires
        0 <= p,
        p + 2 < s.len(),
        s.subrange(p, p + 2) == "dy"@,
        crate::scan::is_sep_space(s[p + 2]),
    ensures
        resolve_unit(s, p) == Some((Unit::Days, p + 2)),
{
    reveal_strlit("months");
    reveal_strlit("month");
    reveal_strlit("mths");
    reveal_strlit("mth");
    reveal_strlit("M");
    reveal_strlit("days");
    reveal_strlit("day");
    reveal_strlit("dys");
    reveal_strlit("dy");
    reveal_strlit("d");
    reveal_strlit("D");
    reveal_strlit("weeks");
    reveal_strlit("week");
    reveal_strlit("wks");
    reveal_strlit("wk");
    reveal_strlit("w");
    reveal_strlit("W");
    reveal_strlit("years");
    reveal_strlit("year");
    reveal_strlit("yrs");
    reveal_strlit("yr");
    reveal_strlit("y");
    reveal_strlit("Y");
    reveal_strlit("nanos");
    reveal_strlit("nsec");
    reveal_strlit("ns");
    reveal_strlit("micros");
    reveal_strlit("usec");
    reveal_strlit("us");
    reveal_strlit("millis");
    reveal_strlit("msec");
    reveal_strlit("ms");
    reveal_strlit("seconds");
    reveal_strlit("second");
    reveal_strlit("secs");
    reveal_strlit("sec");
    reveal_strlit("s");
    reveal_strlit("minutes");
    reveal_strlit("minute");
    reveal_strlit("mins");
    reveal_strlit("min");
    reveal_strlit("m");
    reveal_strlit("hours");
    reveal_strlit("hour");
    reveal_strlit("hrs");
    reveal_strlit("hr");
    reveal_strlit("h");
    reveal_strlit("H");
    assert(!match_at(s, p, "months"@)) by {
        if match_at(s, p, "months"@) {
            assert(s.subrange(p, p + 6)[0] == s[p + 0]);
            assert(s.subrange(p, p + 2)[0] == s[p + 0]);
            assert(false);
        }
    };
    assert(!match_at(s, p, "month"@)) by {
        if match_at(s, p, "month"@) {
            assert(s.subrange(p, p + 5)[0] == s[p + 0]);
            assert(s.subrange(p, p + 2)[0] == s[p + 0]);
            assert(false);
        }
    };
    assert(!match_at(s, p, "mths"@)) by {
        if match_at(s, p, "mths"@) {
            assert(s.subrange(p, p + 4)[0] == s[p + 0]);
            assert(s.subrange(p, p + 2)[0] == s[p + 0]);
            assert(false);
        }
    };
    assert(!match_at(s, p, "mth"@)) by {
        if match_at(s, p, "mth"@) {
            assert(s.subrange(p, p + 3)[0] == s[p + 0]);
            assert(s.subrange(p, p + 2)[0] == s[p + 0]);
            assert(false);
        }
    };
    assert(!match_at(s, p, "M"@)) by {
        if match_at(s, p, "M"@) {
            assert(s.subrange(p, p + 1)[0] == s[p + 0]);
            assert(s.subrange(p, p + 2)[0] == s[p + 0]);
            assert(false);
        }
    };
    assert(!match_at(s, p, "days"@)) by {
        if match_at(s, p, "days"@) {
            assert(s.subrange(p, p + 4)[1] == s[p + 1]);
            assert(s.subrange(p, p + 2)[1] == s[p + 1]);
            assert(false);
        }
    };
    assert(!match_at(s, p, "day"@)) by {
        if match_at(s, p, "day"@) {
            assert(s.subrange(p, p + 3)[1] == s[p + 1]);
            assert(s.subrange(p, p + 2)[1] == s[p + 1]);
            assert(false);
        }
    };
    assert(!match_at(s, p, "dys"@)) by {
        if match_at(s, p, "dys"@) {
            assert(s.subrange(p, p + 3)[2] == s[p + 2]);
            assert(false);
        }
    };
    assert(match_at(s, p, "dy"@));
}

/// With `d` at `p` and a blank right after it, the resolver yields `Days`.
proof fn lemma_mid_days_d(s: Seq<char>, p: int)
    requires
        0 <= p,
        p + 1 < s.len(),
        s.subrange(p, p + 1) == "d"@,
        crate::scan::is_sep_space(s[p + 1]),
    ensures
        resolve_unit(s, p) == Some((Unit::Days, p + 1)),
{
    reveal_strlit("months");
    reveal_strlit("month");
    reveal_strlit("mths");
    reveal_strlit("mth");
    reveal_strlit("M");
    reveal_strlit("days");
    reveal_strlit("day");
    reveal_strlit("dys");
    reveal_strlit("dy");
    reveal_strlit("d");
    reveal_strlit("D");
    reveal_strlit("weeks");
    reveal_strlit("week");
    reveal_strlit("wks");
    reveal_strlit("wk");
    reveal_strlit("w");
    reveal_strlit("W");
    reveal_strlit("years");
    reveal_strlit("year");
    reveal_strlit("yrs");
    reveal_strlit("yr");
    reveal_strlit("y");
    reveal_strlit("Y");
    reveal_strlit("nanos");
    reveal_strlit("nsec");
    reveal_strlit("ns");
    reveal_strlit("micros");
    reveal_strlit("usec");
    reveal_strlit("us");
    reveal_strlit("millis");
    reveal_strlit("msec");
    reveal_strlit("ms");
    reveal_strlit("seconds");
    reveal_strlit("second");
    reveal_strlit("secs");
    reveal_strlit("sec");
    reveal_strlit("s");
    reveal_strlit("minutes");
    reveal_strlit("minute");
    reveal_strlit("mins");
    reveal_strlit("min");
    reveal_strlit("m");
    reveal_strlit("hours");
    reveal_strlit("hour");
    reveal_strlit("hrs");
    reveal_strlit("hr");
    reveal_strlit("h");
    reveal_strlit("H");
    assert(!match_at(s, p, "months"@)) by {
        if match_at(s, p, "months"@) {
            assert(s.subrange(p, p + 6)[0] == s[p + 0]);
            assert(s.subrange(p, p + 1)[0] == s[p + 0]);
            assert(false);
        }
    };
    assert(!match_at(s, p, "month"@)) by {
        if match_at(s, p, "month"@) {
            assert(s.subrange(p, p + 5)[0] == s[p + 0]);
            assert(s.subrange(p, p + 1)[0] == s[p + 0]);
            assert(false);
        }
    };
    assert(!match_at(s, p, "mths"@)) by {
        if match_at(s, p, "mths"@) {
            assert(s.subrange(p, p + 4)[0] == s[p + 0]);
            assert(s.subrange(p, p + 1)[0] == s[p + 0]);
            assert(false);
        }
    };
    assert(!match_at(s, p, "mth"@)) by {
        if match_at(s, p, "mth"@) {
            assert(s.subrange(p, p + 3)[0] == s[p + 0]);
            assert(s.subrange(p, p + 1)[0] == s[p + 0]);
            assert(false);
        }
    };
    assert(!match_at(s, p, "M"@)) by {
        if match_at(s, p, "M"@) {
            assert(s.subrange(p, p + 1)[0] == s[p + 0]);
            assert(s.subrange(p, p + 1)[0] == s[p + 0]);
            assert(false);
        }
    };
    assert(!match_at(s, p, "days"@)) by {
        if match_at(s, p, "days"@) {
            assert(s.subrange(p, p + 4)[1] == s[p + 1]);
            assert(false);
        }
    };
    assert(!match_at(s, p, "day"@)) by {
        if match_at(s, p, "day"@) {
            assert(s.subrange(p, p + 3)[1] == s[p + 1]);
            assert(false);
        }
    };
    assert(!match_at(s, p, "dys"@)) by {
        if match_at(s, p, "dys"@) {
            assert(s.subrange(p, p + 3)[1] == s[p + 1]);
            assert(false);
        }
    };
    assert(!match_at(s, p, "dy"@)) by {
        if match_at(s, p, "dy"@) {
            assert(s.subrange(p, p + 2)[1] == s[p + 1]);
            assert(false);
        }
    };
    assert(match_at(s, p, "d"@));
}

/// With `D` at `p` and a blank right after it, the resolver yields `Days`.
proof fn lemma_mid_days_cap_d(s: Seq<char>, p: int)
    requires
        0 <= p,
        p + 1 < s.len(),
        s.subrange(p, p + 1) == "D"@,
        crate::scan::is_sep_space(s[p + 1]),
    ensures
        resolve_unit(s, p) == Some((Unit::Days, p + 1)),
{
    reveal_strlit("months");
    reveal_strlit("month");
    reveal_strlit("mths");
    reveal_strlit("mth");
    reveal_strlit("M");
    reveal_strlit("days");
    reveal_strlit("day");
    reveal_strlit("dys");
    reveal_strlit("dy");
    reveal_strlit("d");
    reveal_strlit("D");
    reveal_strlit("weeks");
    reveal_strlit("week");
    reveal_strlit("wks");
    reveal_strlit("wk");
    reveal_strlit("w");
    reveal_strlit("W");
    reveal_strlit("years");
    reveal_strlit("year");
    reveal_strlit("yrs");
    reveal_strlit("yr");
    reveal_strlit("y");
    reveal_strlit("Y");
    reveal_strlit("nanos");
    reveal_strlit("nsec");
    reveal_strlit("ns");
    reveal_strlit("micros");
    reveal_strlit("usec");
    reveal_strlit("us");
    reveal_strlit("millis");
    reveal_strlit("msec");
    reveal_strlit("ms");
    reveal_strlit("seconds");
    reveal_strlit("second");
    reveal_strlit("secs");
    reveal_strlit("sec");
    reveal_strlit("s");
    reveal_strlit("minutes");
    reveal_strlit("minute");
    reveal_strlit("mins");
    reveal_strlit("min");
    reveal_strlit("m");
    reveal_strlit("hours");
    reveal_strlit("hour");
    reveal_strlit("hrs");
    reveal_strlit("hr");
    reveal_strlit("h");
    reveal_strlit("H");
    assert(!match_at(s, p, "months"@)) by {
        if match_at(s, p, "months"@) {
            assert(s.subrange(p, p + 6)[0] == s[p + 0]);
            assert(s.subrange(p, p + 1)[0] == s[p + 0]);
            assert(false);
        }
    };
    assert(!match_at(s, p, "month"@)) by {
        if match_at(s, p, "month"@) {
            assert(s.subrange(p, p + 5)[0] == s[p + 0]);
            assert(s.subrange(p, p + 1)[0] == s[p + 0]);
            assert(false);
        }
    };
    assert(!match_at(s, p, "mths"@)) by {
        if match_at(s, p, "mths"@) {
            assert(s.subrange(p, p + 4)[0] == s[p + 0]);
            assert(s.subrange(p, p + 1)[0] == s[p + 0]);
            assert(false);
        }
    };
    assert(!match_at(s, p, "mth"@)) by {
        if match_at(s, p, "mth"@) {
            assert(s.subrange(p, p + 3)[0] == s[p + 0]);
            assert(s.subrange(p, p + 1)[0] == s[p + 0]);
            assert(false);
        }
    };
    assert(!match_at(s, p, "M"@)) by {
        if match_at(s, p, "M"@) {
            assert(s.subrange(p, p + 1)[0] == s[p + 0]);
            assert(s.subrange(p, p + 1)[0] == s[p + 0]);
            assert(false);
        }
    };
    assert(!match_at(s, p, "days"@)) by {
        if match_at(s, p, "days"@) {
            assert(s.subrange(p, p + 4)[0] == s[p + 0]);
            assert(s.subrange(p, p + 1)[0] == s[p + 0]);
            assert(false);
        }
    };
    assert(!match_at(s, p, "day"@)) by {
        if match_at(s, p, "day"@) {
            assert(s.subrange(p, p + 3)[0] == s[p + 0]);
            assert(s.subrange(p, p + 1)[0] == s[p + 0]);
            assert(false);
        }
    };
    assert(!match_at(s, p, "dys"@)) by {
        if match_at(s, p, "dys"@) {
            assert(s.subrange(p, p + 3)[0] == s[p + 0]);
            assert(s.subrange(p, p + 1)[0] == s[p + 0]);
            assert(false);
        }
    };
    assert(!match_at(s, p, "dy"@)) by {
        if match_at(s, p, "dy"@) {
            assert(s.subrange(p, p + 2)[0] == s[p + 0]);
            assert(s.subrange(p, p + 1)[0] == s[p + 0]);
            assert(false);
        }
    };
    assert(!match_at(s, p, "d"@)) by {
        if match_at(s, p, "d"@) {
            assert(s.subrange(p, p + 1)[0] == s[p + 0]);
            assert(s.subrange(p, p + 1)[0] == s[p + 0]);
            assert(false);
        }
    };
    assert(match_at(s, p, "D"@));
}

/// With `weeks` at `p` and a blank right after it, the resolver yields `Weeks`.
proof fn lemma_mid_weeks_weeks(s: Seq<char>, p: int)
    requires
        0 <= p,
        p + 5 < s.len(),
        s.subrange(p, p + 5) == "weeks"@,
        crate::scan::is_sep_space(s[p + 5]),
    ensures
        resolve_unit(s, p) == Some((Unit::Weeks, p + 5)),
{
    reveal_strlit("months");
    reveal_strlit("month");
    reveal_strlit("mths");
    reveal_strlit("mth");
    reveal_strlit("M");
    reveal_strlit("days");
    reveal_strlit("day");
    reveal_strlit("dys");
    reveal_strlit("dy");
    reveal_strlit("d");
    reveal_strlit("D");
    reveal_strlit("weeks");
    reveal_strlit("week");
    reveal_strlit("wks");
    reveal_strlit("wk");
    reveal_strlit("w");
    reveal_strlit("W");
    reveal_strlit("years");
    reveal_strlit("year");
    reveal_strlit("yrs");
    reveal_strlit("yr");
    reveal_strlit("y");
    reveal_strlit("Y");
    reveal_strlit("nanos");
    reveal_strlit("nsec");
    reveal_strlit("ns");
    reveal_strlit("micros");
    reveal_strlit("usec");
    reveal_strlit("us");
    reveal_strlit("millis");
    reveal_strlit("msec");
    reveal_strlit("ms");
    reveal_strlit("seconds");
    reveal_strlit("second");
    reveal_strlit("secs");
    reveal_strlit("sec");
    reveal_strlit("s");
    reveal_strlit("minutes");
    reveal_strlit("minute");
    reveal_strlit("mins");
    reveal_strlit("min");
    reveal_strlit("m");
    reveal_strlit("hours");
    reveal_strlit("hour");
    reveal_strlit("hrs");
    reveal_strlit("hr");
    reveal_strlit("h");
    reveal_strlit("H");
    assert(!match_at(s, p, "months"@)) by {
        if match_at(s, p, "months"@) {
            assert(s.subrange(p, p + 6)[0] == s[p + 0]);
            assert(s.subrange(p, p + 5)[0] == s[p + 0]);
            assert(false);
        }
    };
    assert(!match_at(s, p, "month"@)) by {
        if match_at(s, p, "month"@) {
            assert(s.subrange(p, p + 5)[0] == s[p + 0]);
            assert(s.subrange(p, p + 5)[0] == s[p + 0]);
            assert(false);
        }
    };
    assert(!match_at(s, p, "mths"@)) by {
        if match_at(s, p, "mths"@) {
            assert(s.subrange(p, p + 4)[0] == s[p + 0]);
            assert(s.subrange(p, p + 5)[0] == s[p + 0]);
            assert(false);
        }
    };
    assert(!match_at(s, p, "mth"@)) by {
        if match_at(s, p, "mth"@) {
            assert(s.subrange(p, p + 3)[0] == s[p + 0]);
            assert(s.subrange(p, p + 5)[0] == s[p + 0]);
            assert(false);
        }
    };
    assert(!match_at(s, p, "M"@)) by {
        if match_at(s, p, "M"@) {
            assert(s.subrange(p, p + 1)[0] == s[p + 0]);
            assert(s.subrange(p, p + 5)[0] == s[p + 0]);
            assert(false);
        }
    };
    assert(!match_at(s, p, "days"@)) by {
        if match_at(s, p, "days"@) {
            assert(s.subrange(p, p + 4)[0] == s[p + 0]);
            assert(s.subrange(p, p + 5)[0] == s[p + 0]);
            assert(false);
        }
    };
    assert(!match_at(s, p, "day"@)) by {
        if match_at(s, p, "day"@) {
            assert(s.subrange(p, p + 3)[0] == s[p + 0]);
            assert(s.subrange(p, p + 5)[0] == s[p + 0]);
            assert(false);
        }
    };
    assert(!match_at(s, p, "dys"@)) by {
        if match_at(s, p, "dys"@) {
            assert(s.subrange(p, p + 3)[0] == s[p + 0]);
            assert(s.subrange(p, p + 5)[0] == s[p + 0]);
            assert(false);
        }
    };
    assert(!match_at(s, p, "dy"@)) by {
        if match_at(s, p, "dy"@) {
            assert(s.subrange(p, p + 2)[0] == s[p + 0]);
            assert(s.subrange(p, p + 5)[0] == s[p + 0]);
            assert(false);
        }
    };
    assert(!match_at(s, p, "d"@)) by {
        if match_at(s, p, "d"@) {
            assert(s.subrange(p, p + 1)[0] == s[p + 0]);
            assert(s.subrange(p, p + 5)[0] == s[p + 0]);
            assert(false);
        }
    };
    assert(!match_at(s, p, "D"@)) by {
        if match_at(s, p, "D"@) {
            assert(s.subrange(p, p + 1)[0] == s[p + 0]);
            assert(s.subrange(p, p + 5)[0] == s[p + 0]);
            assert(false);
        }
    };
    assert(match_at(s, p, "weeks"@));
}

/// With `week` at `p` and a blank right after it, the resolver yields `Weeks`.
proof fn lemma_mid_weeks_week(s: Seq<char>, p: int)
    requires
        0 <= p,
        p + 4 < s.len(),
        s.subrange(p, p + 4) == "week"@,
        crate::scan::is_sep_space(s[p + 4]),
    ensures
        resolve_unit(s, p) == Some((Unit::Weeks, p + 4)),
{
    reveal_strlit("months");
    reveal_strlit("month");
    reveal_strlit("mths");
    reveal_strlit("mth");
    reveal_strlit("M");
    reveal_strlit("days");
    reveal_strlit("day");
    reveal_strlit("dys");
    reveal_strlit("dy");
    reveal_strlit("d");
    reveal_strlit("D");
    reveal_strlit("weeks");
    reveal_strlit("week");
    reveal_strlit("wks");
    reveal_strlit("wk");
    reveal_strlit("w");
    reveal_strlit("W");
    reveal_strlit("years");
    reveal_strlit("year");
    reveal_strlit("yrs");
    reveal_strlit("yr");
    reveal_strlit("y");
    reveal_strlit("Y");
    reveal_strlit("nanos");
    reveal_strlit("nsec");
    reveal_strlit("ns");
    reveal_strlit("micros");
    reveal_strlit("usec");
    reveal_strlit("us");
    reveal_strlit("millis");
    reveal_strlit("msec");
    reveal_strlit("ms");
    reveal_strlit("seconds");
    reveal_strlit("second");
    reveal_strlit("secs");
    reveal_strlit("sec");
    reveal_strlit("s");
    reveal_strlit("minutes");
    reveal_strlit("minute");
    reveal_strlit("mins");
    reveal_strlit("min");
    reveal_strlit("m");
    reveal_strlit("hours");
    reveal_strlit("hour");
    reveal_strlit("hrs");
    reveal_strlit("hr");
    reveal_strlit("h");
    reveal_strlit("H");
    assert(!match_at(s, p, "months"@)) by {
        if match_at(s, p, "months"@) {
            assert(s.subrange(p, p + 6)[0] == s[p + 0]);
            assert(s.subrange(p, p + 4)[0] == s[p + 0]);
            assert(false);
        }
    };
    assert(!match_at(s, p, "month"@)) by {
        if match_at(s, p, "month"@) {
            assert(s.subrange(p, p + 5)[0] == s[p + 0]);
            assert(s.subrange(p, p + 4)[0] == s[p + 0]);
            assert(false);
        }
    };
    assert(!match_at(s, p, "mths"@)) by {
        if match_at(s, p, "mths"@) {
            assert(s.subrange(p, p + 4)[0] == s[p + 0]);
            assert(s.subrange(p, p + 4)[0] == s[p + 0]);
            assert(false);
        }
    };
    assert(!match_at(s, p, "mth"@)) by {
        if match_at(s, p, "mth"@) {
            assert(s.subrange(p, p + 3)[0] == s[p + 0]);
            assert(s.subrange(p, p + 4)[0] == s[p + 0]);
            assert(false);
        }
    };
    assert(!match_at(s, p, "M"@)) by {
        if match_at(s, p, "M"@) {
            assert(s.subrange(p, p + 1)[0] == s[p + 0]);
            assert(s.subrange(p, p + 4)[0] == s[p + 0]);
            assert(false);
        }
    };
    assert(!match_at(s, p, "days"@)) by {
        if match_at(s, p, "days"@) {
            assert(s.subrange(p, p + 4)[0] == s[p + 0]);
            assert(s.subrange(p, p + 4)[0] == s[p + 0]);
            assert(false);
        }
    };
    assert(!match_at(s, p, "day"@)) by {
        if match_at(s, p, "day"@) {
            assert(s.subrange(p, p + 3)[0] == s[p + 0]);
            assert(s.subrange(p, p + 4)[0] == s[p + 0]);
            assert(false);
        }
    };
    assert(!match_at(s, p, "dys"@)) by {
        if match_at(s, p, "dys"@) {
            assert(s.subrange(p, p + 3)[0] == s[p + 0]);
            assert(s.subrange(p, p + 4)[0] == s[p + 0]);
            assert(false);
        }
    };
    assert(!match_at(s, p, "dy"@)) by {
        if match_at(s, p, "dy"@) {
            assert(s.subrange(p, p + 2)[0] == s[p + 0]);
            assert(s.subrange(p, p + 4)[0] == s[p + 0]);
            assert(false);
        }
    };
    assert(!match_at(s, p, "d"@)) by {
        if match_at(s, p, "d"@) {
            assert(s.subrange(p, p + 1)[0] == s[p + 0]);
            assert(s.subrange(p, p + 4)[0] == s[p + 0]);
            assert(false);
        }
    };
    assert(!match_at(s, p, "D"@)) by {
        if match_at(s, p, "D"@) {
            assert(s.subrange(p, p + 1)[0] == s[p + 0]);
            assert(s.subrange(p, p + 4)[0] == s[p + 0]);
            assert(false);
        }
    };
    assert(!match_at(s, p, "weeks"@)) by {
        if match_at(s, p, "weeks"@) {
            assert(s.subrange(p, p + 5)[4] == s[p + 4]);
            assert(false);
        }
    };
    assert(match_at(s, p, "week"@));
}

/// With `wks` at `p` and a blank right after it, the resolver yields `Weeks`.
proof fn lemma_mid_weeks_wks(s: Seq<char>, p: int)
    requires
        0 <= p,
        p + 3 < s.len(),
        s.subrange(p, p + 3) == "wks"@,
        crate::scan::is_sep_space(s[p + 3]),
    ensures
        resolve_unit(s, p) == Some((Unit::Weeks, p + 3)),
{
    reveal_strlit("months");
    reveal_strlit("month");
    reveal_strlit("mths");
    reveal_strlit("mth");
    reveal_strlit("M");
    reveal_strlit("days");
    reveal_strlit("day");
    reveal_strlit("dys");
    reveal_strlit("dy");
    reveal_strlit("d");
    reveal_strlit("D");
    reveal_strlit("weeks");
    reveal_strlit("week");
    reveal_strlit("wks");
    reveal_strlit("wk");
    reveal_strlit("w");
    reveal_strlit("W");
    reveal_strlit("years");
    reveal_strlit("year");
    reveal_strlit("yrs");
    reveal_strlit("yr");
    reveal_strlit("y");
    reveal_strlit("Y");
    reveal_strlit("nanos");
    reveal_strlit("nsec");
    reveal_strlit("ns");
    reveal_strlit("micros");
    reveal_strlit("usec");
    reveal_strlit("us");
    reveal_strlit("millis");
    reveal_strlit("msec");
    reveal_strlit("ms");
    reveal_strlit("seconds");
    reveal_strlit("second");
    reveal_strlit("secs");
    reveal_strlit("sec");
    reveal_strlit("s");
    reveal_strlit("minutes");
    reveal_strlit("minute");
    reveal_strlit("mins");
    reveal_strlit("min");
    reveal_strlit("m");
    reveal_strlit("hours");
    reveal_strlit("hour");
    reveal_strlit("hrs");
    reveal_strlit("hr");
    reveal_strlit("h");
    reveal_strlit("H");
    assert(!match_at(s, p, "months"@)) by {
        if match_at(s, p, "months"@) {
            assert(s.subrange(p, p + 6)[0] == s[p + 0]);
            assert(s.subrange(p, p + 3)[0] == s[p + 0]);
            assert(false);
        }
    };
    assert(!match_at(s, p, "month"@)) by {
        if match_at(s, p, "month"@) {
            assert(s.subrange(p, p + 5)[0] == s[p + 0]);
            assert(s.subrange(p, p + 3)[0] == s[p + 0]);
            assert(false);
        }
    };
    assert(!match_at(s, p, "mths"@)) by {
        if match_at(s, p, "mths"@) {
            assert(s.subrange(p, p + 4)[0] == s[p + 0]);
            assert(s.subrange(p, p + 3)[0] == s[p + 0]);
            assert(false);
        }
    };
    assert(!match_at(s, p, "mth"@)) by {
        if match_at(s, p, "mth"@) {
            assert(s.subrange(p, p + 3)[0] == s[p + 0]);
            assert(s.subrange(p, p + 3)[0] == s[p + 0]);
            assert(false);
        }
    };
    assert(!match_at(s, p, "M"@)) by {
        if match_at(s, p, "M"@) {
            assert(s.subrange(p, p + 1)[0] == s[p + 0]);
            assert(s.subrange(p, p + 3)[0] == s[p + 0]);
            assert(false);
        }
    };
    assert(!match_at(s, p, "days"@)) by {
        if match_at(s, p, "days"@) {
            assert(s.subrange(p, p + 4)[0] == s[p + 0]);
            assert(s.subrange(p, p + 3)[0] == s[p + 0]);
            assert(false);
        }
    };
    assert(!match_at(s, p, "day"@)) by {
        if match_at(s, p, "day"@) {
            assert(s.subrange(p, p + 3)[0] == s[p + 0]);
            assert(s.subrange(p, p + 3)[0] == s[p + 0]);
            assert(false);
        }
    };
    assert(!match_at(s, p, "dys"@)) by {
        if match_at(s, p, "dys"@) {
            assert(s.subrange(p, p + 3)[0] == s[p + 0]);
            assert(s.subrange(p, p + 3)[0] == s[p + 0]);
            assert(false);
        }
    };
    assert(!match_at(s, p, "dy"@)) by {
        if match_at(s, p, "dy"@) {
            assert(s.subrange(p, p + 2)[0] == s[p + 0]);
            assert(s.subrange(p, p + 3)[0] == s[p + 0]);
            assert(false);
        }
    };
    assert(!match_at(s, p, "d"@)) by {
        if match_at(s, p, "d"@) {
            assert(s.subrange(p, p + 1)[0] == s[p + 0]);
            assert(s.subrange(p, p + 3)[0] == s[p + 0]);
            assert(false);
        }
    };
    assert(!match_at(s, p, "D"@)) by {
        if match_at(s, p, "D"@) {
            assert(s.subrange(p, p + 1)[0] == s[p + 0]);
            assert(s.subrange(p, p + 3)[0] == s[p + 0]);
            assert(false);
        }
    };
    assert(!match_at(s, p, "weeks"@)) by {
        if match_at(s, p, "weeks"@) {
            assert(s.subrange(p, p + 5)[1] == s[p + 1]);
            assert(s.subrange(p, p + 3)[1] == s[p + 1]);
            assert(false);
        }
    };
    assert(!match_at(s, p, "week"@)) by {
        if match_at(s, p, "week"@) {
            assert(s.subrange(p, p + 4)[1] == s[p + 1]);
            assert(s.subrange(p, p + 3)[1] == s[p + 1]);
            assert(false);
        }
    };
    assert(match_at(s, p, "wks"@));
}

/// With `wk` at `p` and a blank right after it, the resolver yields `Weeks`.
proof fn lemma_mid_weeks_wk(s: Seq<char>, p: int)
    requires
        0 <= p,
        p + 2 < s.len(),
        s.subrange(p, p + 2) == "wk"@,
        crate::scan::is_sep_space(s[p + 2]),
    ensures
        resolve_unit(s, p) == Some((Unit::Weeks, p + 2)),
{
    reveal_strlit("months");
    reveal_strlit("month");
    reveal_strlit("mths");
    reveal_strlit("mth");
    reveal_strlit("M");
    reveal_strlit("days");
    reveal_strlit("day");
    reveal_strlit("dys");
    reveal_strlit("dy");
    reveal_strlit("d");
    reveal_strlit("D");
    reveal_strlit("weeks");
    reveal_strlit("week");
    reveal_strlit("wks");
    reveal_strlit("wk");
    reveal_strlit("w");
    reveal_strlit("W");
    reveal_strlit("years");
    reveal_strlit("year");
    reveal_strlit("yrs");
    reveal_strlit("yr");
    reveal_strlit("y");
    reveal_strlit("Y");
    reveal_strlit("nanos");
    reveal_strlit("nsec");
    reveal_strlit("ns");
    reveal_strlit("micros");
    reveal_strlit("usec");
    reveal_strlit("us");
    reveal_strlit("millis");
    reveal_strlit("msec");
    reveal_strlit("ms");
    reveal_strlit("seconds");
    reveal_strlit("second");
    reveal_strlit("secs");
    reveal_strlit("sec");
    reveal_strlit("s");
    reveal_strlit("minutes");
    reveal_strlit("minute");
    reveal_strlit("mins");
    reveal_strlit("min");
    reveal_strlit("m");
    reveal_strlit("hours");
    reveal_strlit("hour");
    reveal_strlit("hrs");
    reveal_strlit("hr");
    reveal_strlit("h");
    reveal_strlit("H");
    assert(!match_at(s, p, "months"@)) by {
        if match_at(s, p, "months"@) {
            assert(s.subrange(p, p + 6)[0] == s[p + 0]);
            assert(s.subrange(p, p + 2)[0] == s[p + 0]);
            assert(false);
        }
    };
    assert(!match_at(s, p, "month"@)) by {
        if match_at(s, p, "month"@) {
            assert(s.subrange(p, p + 5)[0] == s[p + 0]);
            assert(s.subrange(p, p + 2)[0] == s[p + 0]);
            assert(false);
        }
    };
    assert(!match_at(s, p, "mths"@)) by {
        if match_at(s, p, "mths"@) {
            assert(s.subrange(p, p + 4)[0] == s[p + 0]);
            assert(s.subrange(p, p + 2)[0] == s[p + 0]);
            assert(false);
        }
    };
    assert(!match_at(s, p, "mth"@)) by {
        if match_at(s, p, "mth"@) {
            assert(s.subrange(p, p + 3)[0] == s[p + 0]);
            assert(s.subrange(p, p + 2)[0] == s[p + 0]);
            assert(false);
        }
    };
    assert(!match_at(s, p, "M"@)) by {
        if match_at(s, p, "M"@) {
            assert(s.subrange(p, p + 1)[0] == s[p + 0]);
            assert(s.subrange(p, p + 2)[0] == s[p + 0]);
            assert(false);
        }
    };
    assert(!match_at(s, p, "days"@)) by {
        if match_at(s, p, "days"@) {
            assert(s.subrange(p, p + 4)[0] == s[p + 0]);
            assert(s.subrange(p, p + 2)[0] == s[p + 0]);
            assert(false);
        }
    };
    assert(!match_at(s, p, "day"@)) by {
        if match_at(s, p, "day"@) {
            assert(s.subrange(p, p + 3)[0] == s[p + 0]);
            assert(s.subrange(p, p + 2)[0] == s[p + 0]);
            assert(false);
        }
    };
    assert(!match_at(s, p, "dys"@)) by {
        if match_at(s, p, "dys"@) {
            assert(s.subrange(p, p + 3)[0] == s[p + 0]);
            assert(s.subrange(p, p + 2)[0] == s[p + 0]);
            assert(false);
        }
    };
    assert(!match_at(s, p, "dy"@)) by {
        if match_at(s, p, "dy"@) {
            assert(s.subrange(p, p + 2)[0] == s[p + 0]);
            assert(s.subrange(p, p + 2)[0] == s[p + 0]);
            assert(false);
        }
    };
    assert(!match_at(s, p, "d"@)) by {
        if match_at(s, p, "d"@) {
            assert(s.subrange(p, p + 1)[0] == s[p + 0]);
            assert(s.subrange(p, p + 2)[0] == s[p + 0]);
            assert(false);
        }
    };
    assert(!match_at(s, p, "D"@)) by {
        if match_at(s, p, "D"@) {
            assert(s.subrange(p, p + 1)[0] == s[p + 0]);
            assert(s.subrange(p, p + 2)[0] == s[p + 0]);
            assert(false);
        }
    };
    assert(!match_at(s, p, "weeks"@)) by {
        if match_at(s, p, "weeks"@) {
            assert(s.subrange(p, p + 5)[1] == s[p + 1]);
            assert(s.subrange(p, p + 2)[1] == s[p + 1]);
            assert(false);
        }
    };
    assert(!match_at(s, p, "week"@)) by {
        if match_at(s, p, "week"@) {
            assert(s.subrange(p, p + 4)[1] == s[p + 1]);
            assert(s.subrange(p, p + 2)[1] == s[p + 1]);
            assert(false);
        }
    };
    assert(!match_at(s, p, "wks"@)) by {
        if match_at(s, p, "wks"@) {
            assert(s.subrange(p, p + 3)[2] == s[p + 2]);
            assert(false);
        }
    };
    assert(match_at(s, p, "wk"@));
}

/// With `w` at `p` and a blank right after it, the resolver yields `Weeks`.
proof fn lemma_mid_weeks_w(s: Seq<char>, p: int)
    requires
        0 <= p,
        p + 1 < s.len(),
        s.subrange(p, p + 1) == "w"@,
        crate::scan::is_sep_space(s[p + 1]),
    ensures
        resolve_unit(s, p) == Some((Unit::Weeks, p + 1)),
{
    reveal_strlit("months");
    reveal_strlit("month");
    reveal_strlit("mths");
    reveal_strlit("mth");
    reveal_strlit("M");
    reveal_strlit("days");
    reveal_strlit("day");
    reveal_strlit("dys");
    reveal_strlit("dy");
    reveal_strlit("d");
    reveal_strlit("D");
    reveal_strlit("weeks");
    reveal_strlit("week");
    reveal_strlit("wks");
    reveal_strlit("wk");
    reveal_strlit("w");
    reveal_strlit("W");
    reveal_strlit("years");
    reveal_strlit("year");
    reveal_strlit("yrs");
    reveal_strlit("yr");
    reveal_strlit("y");
    reveal_strlit("Y");
    reveal_strlit("nanos");
    reveal_strlit("nsec");
    reveal_strlit("ns");
    reveal_strlit("micros");
    reveal_strlit("usec");
    reveal_strlit("us");
    reveal_strlit("millis");
    reveal_strlit("msec");
    reveal_strlit("ms");
    reveal_strlit("seconds");
    reveal_strlit("second");
    reveal_strlit("secs");
    reveal_strlit("sec");
    reveal_strlit("s");
    reveal_strlit("minutes");
    reveal_strlit("minute");
    reveal_strlit("mins");
    reveal_strlit("min");
    reveal_strlit("m");
    reveal_strlit("hours");
    reveal_strlit("hour");
    reveal_strlit("hrs");
    reveal_strlit("hr");
    reveal_strlit("h");
    reveal_strlit("H");
    assert(!match_at(s, p, "months"@)) by {
        if match_at(s, p, "months"@) {
            assert(s.subrange(p, p + 6)[0] == s[p + 0]);
            assert(s.subrange(p, p + 1)[0] == s[p + 0]);
            assert(false);
        }
    };
    assert(!match_at(s, p, "month"@)) by {
        if match_at(s, p, "month"@) {
            assert(s.subrange(p, p + 5)[0] == s[p + 0]);
            assert(s.subrange(p, p + 1)[0] == s[p + 0]);
            assert(false);
        }
    };
    assert(!match_at(s, p, "mths"@)) by {
        if match_at(s, p, "mths"@) {
            assert(s.subrange(p, p + 4)[0] == s[p + 0]);
            assert(s.subrange(p, p + 1)[0] == s[p + 0]);
            assert(false);
        }
    };
    assert(!match_at(s, p, "mth"@)) by {
        if match_at(s, p, "mth"@) {
            assert(s.subrange(p, p + 3)[0] == s[p + 0]);
            assert(s.subrange(p, p + 1)[0] == s[p + 0]);
            assert(false);
        }
    };
    assert(!match_at(s, p, "M"@)) by {
        if match_at(s, p, "M"@) {
            assert(s.subrange(p, p + 1)[0] == s[p + 0]);
            assert(s.subrange(p, p + 1)[0] == s[p + 0]);
            assert(false);
        }
    };
    assert(!match_at(s, p, "days"@)) by {
        if match_at(s, p, "days"@) {
            assert(s.subrange(p, p + 4)[0] == s[p + 0]);
            assert(s.subrange(p, p + 1)[0] == s[p + 0]);
            assert(false);
        }
    };
    assert(!match_at(s, p, "day"@)) by {
        if match_at(s, p, "day"@) {
            assert(s.subrange(p, p + 3)[0] == s[p + 0]);
            assert(s.subrange(p, p + 1)[0] == s[p + 0]);
            assert(false);
        }
    };
    assert(!match_at(s, p, "dys"@)) by {
        if match_at(s, p, "dys"@) {
            assert(s.subrange(p, p + 3)[0] == s[p + 0]);
            assert(s.subrange(p, p + 1)[0] == s[p + 0]);
            assert(false);
        }
    };
    assert(!match_at(s, p, "dy"@)) by {
        if match_at(s, p, "dy"@) {
            assert(s.subrange(p, p + 2)[0] == s[p + 0]);
            assert(s.subrange(p, p + 1)[0] == s[p + 0]);
            assert(false);
        }
    };
    assert(!match_at(s, p, "d"@)) by {
        if match_at(s, p, "d"@) {
            assert(s.subrange(p, p + 1)[0] == s[p + 0]);
            assert(s.subrange(p, p + 1)[0] == s[p + 0]);
            assert(false);
        }
    };
    assert(!match_at(s, p, "D"@)) by {
        if match_at(s, p, "D"@) {
            assert(s.subrange(p, p + 1)[0] == s[p + 0]);
            assert(s.subrange(p, p + 1)[0] == s[p + 0]);
            assert(false);
        }
    };
    assert(!match_at(s, p, "weeks"@)) by {
        if match_at(s, p, "weeks"@) {
            assert(s.subrange(p, p + 5)[1] == s[p + 1]);
            assert(false);
        }
    };
    assert(!match_at(s, p, "week"@)) by {
        if match_at(s, p, "week"@) {
            assert(s.subrange(p, p + 4)[1] == s[p + 1]);
            assert(false);
        }
    };
    assert(!match_at(s, p, "wks"@)) by {
        if match_at(s, p, "wks"@) {
            assert(s.subrange(p, p + 3)[1] == s[p + 1]);
            assert(false);
        }
    };
    assert(!match_at(s, p, "wk"@)) by {
        if match_at(s, p, "wk"@) {
            assert(s.subrange(p, p + 2)[1] == s[p + 1]);
            assert(false);
        }
    };
    assert(match_at(s, p, "w"@));
}

/// With `W` at `p` and a blank right after it, the resolver yields `Weeks`.
proof fn lemma_mid_weeks_cap_w(s: Seq<char>, p: int)
    requires
        0 <= p,
        p + 1 < s.len(),
        s.subrange(p, p + 1) == "W"@,
        crate::scan::is_sep_space(s[p + 1]),
    ensures
        resolve_unit(s, p) == Some((Unit::Weeks, p + 1)),
{
    reveal_strlit("months");
    reveal_strlit("month");
    reveal_strlit("mths");
    reveal_strlit("mth");
    reveal_strlit("M");
    reveal_strlit("days");
    reveal_strlit("day");
    reveal_strlit("dys");
    reveal_strlit("dy");
    reveal_strlit("d");
    reveal_strlit("D");
    reveal_strlit("weeks");
    reveal_strlit("week");
    reveal_strlit("wks");
    reveal_strlit("wk");
    reveal_strlit("w");
    reveal_strlit("W");
    reveal_strlit("years");
    reveal_strlit("year");
    reveal_strlit("yrs");
    reveal_strlit("yr");
    reveal_strlit("y");
    reveal_strlit("Y");
    reveal_strlit("nanos");
    reveal_strlit("nsec");
    reveal_strlit("ns");
    reveal_strlit("micros");
    reveal_strlit("usec");
    reveal_strlit("us");
    reveal_strlit("millis");
    reveal_strlit("msec");
    reveal_strlit("ms");
    reveal_strlit("seconds");
    reveal_strlit("second");
    reveal_strlit("secs");
    reveal_strlit("sec");
    reveal_strlit("s");
    reveal_strlit("minutes");
    reveal_strlit("minute");
    reveal_strlit("mins");
    reveal_strlit("min");
    reveal_strlit("m");
    reveal_strlit("hours");
    reveal_strlit("hour");
    reveal_strlit("hrs");
    reveal_strlit("hr");
    reveal_strlit("h");
    reveal_strlit("H");
    assert(!match_at(s, p, "months"@)) by {
        if match_at(s, p, "months"@) {
            assert(s.subrange(p, p + 6)[0] == s[p + 0]);
            assert(s.subrange(p, p + 1)[0] == s[p + 0]);
            assert(false);
        }
    };
    assert(!match_at(s, p, "month"@)) by {
        if match_at(s, p, "month"@) {
            assert(s.subrange(p, p + 5)[0] == s[p + 0]);
            assert(s.subrange(p, p + 1)[0] == s[p + 0]);
            assert(false);
        }
    };
    assert(!match_at(s, p, "mths"@)) by {
        if match_at(s, p, "mths"@) {
            assert(s.subrange(p, p + 4)[0] == s[p + 0]);
            assert(s.subrange(p, p + 1)[0] == s[p + 0]);
            assert(false);
        }
    };
    assert(!match_at(s, p, "mth"@)) by {
        if match_at(s, p, "mth"@) {
            assert(s.subrange(p, p + 3)[0] == s[p + 0]);
            assert(s.subrange(p, p + 1)[0] == s[p + 0]);
            assert(false);
        }
    };
    assert(!match_at(s, p, "M"@)) by {
        if match_at(s, p, "M"@) {
            assert(s.subrange(p, p + 1)[0] == s[p + 0]);
            assert(s.subrange(p, p + 1)[0] == s[p + 0]);
            assert(false);
        }
    };
    assert(!match_at(s, p, "days"@)) by {
        if match_at(s, p, "days"@) {
            assert(s.subrange(p, p + 4)[0] == s[p + 0]);
            assert(s.subrange(p, p + 1)[0] == s[p + 0]);
            assert(false);
        }
    };
    assert(!match_at(s, p, "day"@)) by {
        if match_at(s, p, "day"@) {
            assert(s.subrange(p, p + 3)[0] == s[p + 0]);
            assert(s.subrange(p, p + 1)[0] == s[p + 0]);
            assert(false);
        }
    };
    assert(!match_at(s, p, "dys"@)) by {
        if match_at(s, p, "dys"@) {
            assert(s.subrange(p, p + 3)[0] == s[p + 0]);
            assert(s.subrange(p, p + 1)[0] == s[p + 0]);
            assert(false);
        }
    };
    assert(!match_at(s, p, "dy"@)) by {
        if match_at(s, p, "dy"@) {
            assert(s.subrange(p, p + 2)[0] == s[p + 0]);
            assert(s.subrange(p, p + 1)[0] == s[p + 0]);
            assert(false);
        }
    };
    assert(!match_at(s, p, "d"@)) by {
        if match_at(s, p, "d"@) {
            assert(s.subrange(p, p + 1)[0] == s[p + 0]);
            assert(s.subrange(p, p + 1)[0] == s[p + 0]);
            assert(false);
        }
    };
    assert(!match_at(s, p, "D"@)) by {
        if match_at(s, p, "D"@) {
            assert(s.subrange(p, p + 1)[0] == s[p + 0]);
            assert(s.subrange(p, p + 1)[0] == s[p + 0]);
            assert(false);
        }
    };
    assert(!match_at(s, p, "weeks"@)) by {
        if match_at(s, p, "weeks"@) {
            assert(s.subrange(p, p + 5)[0] == s[p + 0]);
            assert(s.subrange(p, p + 1)[0] == s[p + 0]);
            assert(false);
        }
    };
    assert(!match_at(s, p, "week"@)) by {
        if match_at(s, p, "week"@) {
            assert(s.subrange(p, p + 4)[0] == s[p + 0]);
            assert(s.subrange(p, p + 1)[0] == s[p + 0]);
            assert(false);
        }
    };
    assert(!match_at(s, p, "wks"@)) by {
        if match_at(s, p, "wks"@) {
            assert(s.subrange(p, p + 3)[0] == s[p + 0]);
            assert(s.subrange(p, p + 1)[0] == s[p + 0]);
            assert(false);
        }
    };
    assert(!match_at(s, p, "wk"@)) by {
        if match_at(s, p, "wk"@) {
            assert(s.subrange(p, p + 2)[0] == s[p + 0]);
            assert(s.subrange(p, p + 1)[0] == s[p + 0]);
            assert(false);
        }
    };
    assert(!match_at(s, p, "w"@)) by {
        if match_at(s, p, "w"@) {
            assert(s.subrange(p, p + 1)[0] == s[p + 0]);
            assert(s.subrange(p, p + 1)[0] == s[p + 0]);
            assert(false);
        }
    };
    assert(match_at(s, p, "W"@));
}

/// With `years` at `p` and a blank right after it, the resolver yields `Years`.
proof fn lemma_mid_years_years(s: Seq<char>, p: int)
    requires
        0 <= p,
        p + 5 < s.len(),
        s.subrange(p, p + 5) == "years"@,
        crate::scan::is_sep_space(s[p + 5]),
    ensures
        resolve_unit(s, p) == Some((Unit::Years, p + 5)),
{
    reveal_strlit("months");
    reveal_strlit("month");
    reveal_strlit("mths");
    reveal_strlit("mth");
    reveal_strlit("M");
    reveal_strlit("days");
    reveal_strlit("day");
    reveal_strlit("dys");
    reveal_strlit("dy");
    reveal_strlit("d");
    reveal_strlit("D");
    reveal_strlit("weeks");
    reveal_strlit("week");
    reveal_strlit("wks");
    reveal_strlit("wk");
    reveal_strlit("w");
    reveal_strlit("W");
    reveal_strlit("years");
    reveal_strlit("year");
    reveal_strlit("yrs");
    reveal_strlit("yr");
    reveal_strlit("y");
    reveal_strlit("Y");
    reveal_strlit("nanos");
    reveal_strlit("nsec");
    reveal_strlit("ns");
    reveal_strlit("micros");
    reveal_strlit("usec");
    reveal_strlit("us");
    reveal_strlit("millis");
    reveal_strlit("msec");
    reveal_strlit("ms");
    reveal_strlit("seconds");
    reveal_strlit("second");
    reveal_strlit("secs");
    reveal_strlit("sec");
    reveal_strlit("s");
    reveal_strlit("minutes");
    reveal_strlit("minute");
    reveal_strlit("mins");
    reveal_strlit("min");
    reveal_strlit("m");
    reveal_strlit("hours");
    reveal_strlit("hour");
    reveal_strlit("hrs");
    reveal_strlit("hr");
    reveal_strlit("h");
    reveal_strlit("H");
    assert(!match_at(s, p, "months"@)) by {
        if match_at(s, p, "months"@) {
            assert(s.subrange(p, p + 6)[0] == s[p + 0]);
            assert(s.subrange(p, p + 5)[0] == s[p + 0]);
            assert(false);
        }
    };
    assert(!match_at(s, p, "month"@)) by {
        if match_at(s, p, "month"@) {
            assert(s.subrange(p, p + 5)[0] == s[p + 0]);
            assert(s.subrange(p, p + 5)[0] == s[p + 0]);
            assert(false);
        }
    };
    assert(!match_at(s, p, "mths"@)) by {
        if match_at(s, p, "mths"@) {
            assert(s.subrange(p, p + 4)[0] == s[p + 0]);
            assert(s.subrange(p, p + 5)[0] == s[p + 0]);
            assert(false);
        }
    };
    assert(!match_at(s, p, "mth"@)) by {
        if match_at(s, p, "mth"@) {
            assert(s.subrange(p, p + 3)[0] == s[p + 0]);
            assert(s.subrange(p, p + 5)[0] == s[p + 0]);
            assert(false);
        }
    };
    assert(!match_at(s, p, "M"@)) by {
        if match_at(s, p, "M"@) {
            assert(s.subrange(p, p + 1)[0] == s[p + 0]);
            assert(s.subrange(p, p + 5)[0] == s[p + 0]);
            assert(false);
        }
    };
    assert(!match_at(s, p, "days"@)) by {
        if match_at(s, p, "days"@) {
            assert(s.subrange(p, p + 4)[0] == s[p + 0]);
            assert(s.subrange(p, p + 5)[0] == s[p + 0]);
            assert(false);
        }
    };
    assert(!match_at(s, p, "day"@)) by {
        if match_at(s, p, "day"@) {
            assert(s.subrange(p, p + 3)[0] == s[p + 0]);
            assert(s.subrange(p, p + 5)[0] == s[p + 0]);
            assert(false);
        }
    };
    assert(!match_at(s, p, "dys"@)) by {
        if match_at(s, p, "dys"@) {
            assert(s.subrange(p, p + 3)[0] == s[p + 0]);
            assert(s.subrange(p, p + 5)[0] == s[p + 0]);
            assert(false);
        }
    };
    assert(!match_at(s, p, "dy"@)) by {
        if match_at(s, p, "dy"@) {
            assert(s.subrange(p, p + 2)[0] == s[p + 0]);
            assert(s.subrange(p, p + 5)[0] == s[p + 0]);
            assert(false);
        }
    };
    assert(!match_at(s, p, "d"@)) by {
        if match_at(s, p, "d"@) {
            assert(s.subrange(p, p + 1)[0] == s[p + 0]);
            assert(s.subrange(p, p + 5)[0] == s[p + 0]);
            assert(false);
        }
    };
    assert(!match_at(s, p, "D"@)) by {
        if match_at(s, p, "D"@) {
            assert(s.subrange(p, p + 1)[0] == s[p + 0]);
            assert(s.subrange(p, p + 5)[0] == s[p + 0]);
            assert(false);
        }
    };
    assert(!match_at(s, p, "weeks"@)) by {
        if match_at(s, p, "weeks"@) {
            assert(s.subrange(p, p + 5)[0] == s[p + 0]);
            assert(s.subrange(p, p + 5)[0] == s[p + 0]);
            assert(false);
        }
    };
    assert(!match_at(s, p, "week"@)) by {
        if match_at(s, p, "week"@) {
            assert(s.subrange(p, p + 4)[0] == s[p + 0]);
            assert(s.subrange(p, p + 5)[0] == s[p + 0]);
            assert(false);
        }
    };
    assert(!match_at(s, p, "wks"@)) by {
        if match_at(s, p, "wks"@) {
            assert(s.subrange(p, p + 3)[0] == s[p + 0]);
            assert(s.subrange(p, p + 5)[0] == s[p + 0]);
            assert(false);
        }
    };
    assert(!match_at(s, p, "wk"@)) by {
        if match_at(s, p, "wk"@) {
            assert(s.subrange(p, p + 2)[0] == s[p + 0]);
            assert(s.subrange(p, p + 5)[0] == s[p + 0]);
            assert(false);
        }
    };
    assert(!match_at(s, p, "w"@)) by {
        if match_at(s, p, "w"@) {
            assert(s.subrange(p, p + 1)[0] == s[p + 0]);
            assert(s.subrange(p, p + 5)[0] == s[p + 0]);
            assert(false);
        }
    };
    assert(!match_at(s, p, "W"@)) by {
        if match_at(s, p, "W"@) {
            assert(s.subrange(p, p + 1)[0] == s[p + 0]);
            assert(s.subrange(p, p + 5)[0] == s[p + 0]);
            assert(false);
        }
    };
    assert(match_at(s, p, "years"@));
}

/// With `year` at `p` and a blank right after it, the resolver yields `Years`.
proof fn lemma_mid_years_year(s: Seq<char>, p: int)
    requires
        0 <= p,
        p + 4 < s.len(),
        s.subrange(p, p + 4) == "year"@,
        crate::scan::is_sep_space(s[p + 4]),
    ensures
        resolve_unit(s, p) == Some((Unit::Years, p + 4)),
{
    reveal_strlit("months");
    reveal_strlit("month");
    reveal_strlit("mths");
    reveal_strlit("mth");
    reveal_strlit("M");
    reveal_strlit("days");
    reveal_strlit("day");
    reveal_strlit("dys");
    reveal_strlit("dy");
    reveal_strlit("d");
    reveal_strlit("D");
    reveal_strlit("weeks");
    reveal_strlit("week");
    reveal_strlit("wks");
    reveal_strlit("wk");
    reveal_strlit("w");
    reveal_strlit("W");
    reveal_strlit("years");
    reveal_strlit("year");
    reveal_strlit("yrs");
    reveal_strlit("yr");
    reveal_strlit("y");
    reveal_strlit("Y");
    reveal_strlit("nanos");
    reveal_strlit("nsec");
    reveal_strlit("ns");
    reveal_strlit("micros");
    reveal_strlit("usec");
    reveal_strlit("us");
    reveal_strlit("millis");
    reveal_strlit("msec");
    reveal_strlit("ms");
    reveal_strlit("seconds");
    reveal_strlit("second");
    reveal_strlit("secs");
    reveal_strlit("sec");
    reveal_strlit("s");
    reveal_strlit("minutes");
    reveal_strlit("minute");
    reveal_strlit("mins");
    reveal_strlit("min");
    reveal_strlit("m");
    reveal_strlit("hours");
    reveal_strlit("hour");
    reveal_strlit("hrs");
    reveal_strlit("hr");
    reveal_strlit("h");
    reveal_strlit("H");
    assert(!match_at(s, p, "months"@)) by {
        if match_at(s, p, "months"@) {
            assert(s.subrange(p, p + 6)[0] == s[p + 0]);
            assert(s.subrange(p, p + 4)[0] == s[p + 0]);
            assert(false);
        }
    };
    assert(!match_at(s, p, "month"@)) by {
        if match_at(s, p, "month"@) {
            assert(s.subrange(p, p + 5)[0] == s[p + 0]);
            assert(s.subrange(p, p + 4)[0] == s[p + 0]);
            assert(false);
        }
    };
    assert(!match_at(s, p, "mths"@)) by {
        if match_at(s, p, "mths"@) {
            assert(s.subrange(p, p + 4)[0] == s[p + 0]);
            assert(s.subrange(p, p + 4)[0] == s[p + 0]);
            assert(false);
        }
    };
    assert(!match_at(s, p, "mth"@)) by {
        if match_at(s, p, "mth"@) {
            assert(s.subrange(p, p + 3)[0] == s[p + 0]);
            assert(s.subrange(p, p + 4)[0] == s[p + 0]);
            assert(false);
        }
    };
    assert(!match_at(s, p, "M"@)) by {
        if match_at(s, p, "M"@) {
            assert(s.subrange(p, p + 1)[0] == s[p + 0]);
            assert(s.subrange(p, p + 4)[0] == s[p + 0]);
            assert(false);
        }
    };
    assert(!match_at(s, p, "days"@)) by {
        if match_at(s, p, "days"@) {
            assert(s.subrange(p, p + 4)[0] == s[p + 0]);
            assert(s.subrange(p, p + 4)[0] == s[p + 0]);
            assert(false);
        }
    };
    assert(!match_at(s, p, "day"@)) by {
        if match_at(s, p, "day"@) {
            assert(s.subrange(p, p + 3)[0] == s[p + 0]);
            assert(s.subrange(p, p + 4)[0] == s[p + 0]);
            assert(false);
        }
    };
    assert(!match_at(s, p, "dys"@)) by {
        if match_at(s, p, "dys"@) {
            assert(s.subrange(p, p + 3)[0] == s[p + 0]);
            assert(s.subrange(p, p + 4)[0] == s[p + 0]);
            assert(false);
        }
    };
    assert(!match_at(s, p, "dy"@)) by {
        if match_at(s, p, "dy"@) {
            assert(s.subrange(p, p + 2)[0] == s[p + 0]);
            assert(s.subrange(p, p + 4)[0] == s[p + 0]);
            assert(false);
        }
    };
    assert(!match_at(s, p, "d"@)) by {
        if match_at(s, p, "d"@) {
            assert(s.subrange(p, p + 1)[0] == s[p + 0]);
            assert(s.subrange(p, p + 4)[0] == s[p + 0]);
            assert(false);
        }
    };
    assert(!match_at(s, p, "D"@)) by {
        if match_at(s, p, "D"@) {
            assert(s.subrange(p, p + 1)[0] == s[p + 0]);
            assert(s.subrange(p, p + 4)[0] == s[p + 0]);
            assert(false);
        }
    };
    assert(!match_at(s, p, "weeks"@)) by {
        if match_at(s, p, "weeks"@) {
            assert(s.subrange(p, p + 5)[0] == s[p + 0]);
            assert(s.subrange(p, p + 4)[0] == s[p + 0]);
            assert(false);
        }
    };
    assert(!match_at(s, p, "week"@)) by {
        if match_at(s, p, "week"@) {
            assert(s.subrange(p, p + 4)[0] == s[p + 0]);
            assert(s.subrange(p, p + 4)[0] == s[p + 0]);
            assert(false);
        }
    };
    assert(!match_at(s, p, "wks"@)) by {
        if match_at(s, p, "wks"@) {
            assert(s.subrange(p, p + 3)[0] == s[p + 0]);
            assert(s.subrange(p, p + 4)[0] == s[p + 0]);
            assert(false);
        }
    };
    assert(!match_at(s, p, "wk"@)) by {
        if match_at(s, p, "wk"@) {
            assert(s.subrange(p, p + 2)[0] == s[p + 0]);
            assert(s.subrange(p, p + 4)[0] == s[p + 0]);
            assert(false);
        }
    };
    assert(!match_at(s, p, "w"@)) by {
        if match_at(s, p, "w"@) {
            assert(s.subrange(p, p + 1)[0] == s[p + 0]);
            assert(s.subrange(p, p + 4)[0] == s[p + 0]);
            assert(false);
        }
    };
    assert(!match_at(s, p, "W"@)) by {
        if match_at(s, p, "W"@) {
            assert(s.subrange(p, p + 1)[0] == s[p + 0]);
            assert(s.subrange(p, p + 4)[0] == s[p + 0]);
            assert(false);
        }
    };
    assert(!match_at(s, p, "years"@)) by {
        if match_at(s, p, "years"@) {
            assert(s.subrange(p, p + 5)[4] == s[p + 4]);
            assert(false);
        }
    };
    assert(match_at(s, p, "year"@));
}

/// With `yrs` at `p` and a blank right after it, the resolver yields `Years`.
proof fn lemma_mid_years_yrs(s: Seq<char>, p: int)
    requires
        0 <= p,
        p + 3 < s.len(),
        s.subrange(p, p + 3) == "yrs"@,
        crate::scan::is_sep_space(s[p + 3]),
    ensures
        resolve_unit(s, p) == Some((Unit::Years, p + 3)),
{
    reveal_strlit("months");
    reveal_strlit("month");
    reveal_strlit("mths");
    reveal_strlit("mth");
    reveal_strlit("M");
    reveal_strlit("days");
    reveal_strlit("day");
    reveal_strlit("dys");
    reveal_strlit("dy");
    reveal_strlit("d");
    reveal_strlit("D");
    reveal_strlit("weeks");
    reveal_strlit("week");
    reveal_strlit("wks");
    reveal_strlit("wk");
    reveal_strlit("w");
    reveal_strlit("W");
    reveal_strlit("years");
    reveal_strlit("year");
    reveal_strlit("yrs");
    reveal_strlit("yr");
    reveal_strlit("y");
    reveal_strlit("Y");
    reveal_strlit("nanos");
    reveal_strlit("nsec");
    reveal_strlit("ns");
    reveal_strlit("micros");
    reveal_strlit("usec");
    reveal_strlit("us");
    reveal_strlit("millis");
    reveal_strlit("msec");
    reveal_strlit("ms");
    reveal_strlit("seconds");
    reveal_strlit("second");
    reveal_strlit("secs");
    reveal_strlit("sec");
    reveal_strlit("s");
    reveal_strlit("minutes");
    reveal_strlit("minute");
    reveal_strlit("mins");
    reveal_strlit("min");
    reveal_strlit("m");
    reveal_strlit("hours");
    reveal_strlit("hour");
    reveal_strlit("hrs");
    reveal_strlit("hr");
    reveal_strlit("h");
    reveal_strlit("H");
    assert(!match_at(s, p, "months"@)) by {
        if match_at(s, p, "months"@) {
            assert(s.subrange(p, p + 6)[0] == s[p + 0]);
            assert(s.subrange(p, p + 3)[0] == s[p + 0]);
            assert(false);
        }
    };
    assert(!match_at(s, p, "month"@)) by {
        if match_at(s, p, "month"@) {
            assert(s.subrange(p, p + 5)[0] == s[p + 0]);
            assert(s.subrange(p, p + 3)[0] == s[p + 0]);
            assert(false);
        }
    };
    assert(!match_at(s, p, "mths"@)) by {
        if match_at(s, p, "mths"@) {
            assert(s.subrange(p, p + 4)[0] == s[p + 0]);
            assert(s.subrange(p, p + 3)[0] == s[p + 0]);
            assert(false);
        }
    };
    assert(!match_at(s, p, "mth"@)) by {
        if match_at(s, p, "mth"@) {
            assert(s.subrange(p, p + 3)[0] == s[p + 0]);
            assert(s.subrange(p, p + 3)[0] == s[p + 0]);
            assert(false);
        }
    };
    assert(!match_at(s, p, "M"@)) by {
        if match_at(s, p, "M"@) {
            assert(s.subrange(p, p + 1)[0] == s[p + 0]);
            assert(s.subrange(p, p + 3)[0] == s[p + 0]);
            assert(false);
        }
    };
    assert(!match_at(s, p, "days"@)) by {
        if match_at(s, p, "days"@) {
            assert(s.subrange(p, p + 4)[0] == s[p + 0]);
            assert(s.subrange(p, p + 3)[0] == s[p + 0]);
            assert(false);
        }
    };
    assert(!match_at(s, p, "day"@)) by {
        if match_at(s, p, "day"@) {
            assert(s.subrange(p, p + 3)[0] == s[p + 0]);
            assert(s.subrange(p, p + 3)[0] == s[p + 0]);
            assert(false);
        }
    };
    assert(!match_at(s, p, "dys"@)) by {
        if match_at(s, p, "dys"@) {
            assert(s.subrange(p, p + 3)[0] == s[p + 0]);
            assert(s.subrange(p, p + 3)[0] == s[p + 0]);
            assert(false);
        }
    };
    assert(!match_at(s, p, "dy"@)) by {
        if match_at(s, p, "dy"@) {
            assert(s.subrange(p, p + 2)[0] == s[p + 0]);
            assert(s.subrange(p, p + 3)[0] == s[p + 0]);
            assert(false);
        }
    };
    assert(!match_at(s, p, "d"@)) by {
        if match_at(s, p, "d"@) {
            assert(s.subrange(p, p + 1)[0] == s[p + 0]);
            assert(s.subrange(p, p + 3)[0] == s[p + 0]);
            assert(false);
        }
    };
    assert(!match_at(s, p, "D"@)) by {
        if match_at(s, p, "D"@) {
            assert(s.subrange(p, p + 1)[0] == s[p + 0]);
            assert(s.subrange(p, p + 3)[0] == s[p + 0]);
            assert(false);
        }
    };
    assert(!match_at(s, p, "weeks"@)) by {
        if match_at(s, p, "weeks"@) {
            assert(s.subrange(p, p + 5)[0] == s[p + 0]);
            assert(s.subrange(p, p + 3)[0] == s[p + 0]);
            assert(false);
        }
    };
    assert(!match_at(s, p, "week"@)) by {
        if match_at(s, p, "week"@) {
            assert(s.subrange(p, p + 4)[0] == s[p + 0]);
            assert(s.subrange(p, p + 3)[0] == s[p + 0]);
            assert(false);
        }
    };
    assert(!match_at(s, p, "wks"@)) by {
        if match_at(s, p, "wks"@) {
            assert(s.subrange(p, p + 3)[0] == s[p + 0]);
            assert(s.subrange(p, p + 3)[0] == s[p + 0]);
            assert(false);
        }
    };
    assert(!match_at(s, p, "wk"@)) by {
        if match_at(s, p, "wk"@) {
            assert(s.subrange(p, p + 2)[0] == s[p + 0]);
            assert(s.subrange(p, p + 3)[0] == s[p + 0]);
            assert(false);
        }
    };
    assert(!match_at(s, p, "w"@)) by {
        if match_at(s, p, "w"@) {
            assert(s.subrange(p, p + 1)[0] == s[p + 0]);
            assert(s.subrange(p, p + 3)[0] == s[p + 0]);
            assert(false);
        }
    };
    assert(!match_at(s, p, "W"@)) by {
        if match_at(s, p, "W"@) {
            assert(s.subrange(p, p + 1)[0] == s[p + 0]);
            assert(s.subrange(p, p + 3)[0] == s[p + 0]);
            assert(false);
        }
    };
    assert(!match_at(s, p, "years"@)) by {
        if match_at(s, p, "years"@) {
            assert(s.subrange(p, p + 5)[1] == s[p + 1]);
            assert(s.subrange(p, p + 3)[1] == s[p + 1]);
            assert(false);
        }
    };
    assert(!match_at(s, p, "year"@)) by {
        if match_at(s, p, "year"@) {
            assert(s.subrange(p, p + 4)[1] == s[p + 1]);
            assert(s.subrange(p, p + 3)[1] == s[p + 1]);
            assert(false);
        }
    };
    assert(match_at(s, p, "yrs"@));
}

/// With `yr` at `p` and a blank right after it, the resolver yields `Years`.
proof fn lemma_mid_years_yr(s: Seq<char>, p: int)
    requires
        0 <= p,
        p + 2 < s.len(),
        s.subrange(p, p + 2) == "yr"@,
        crate::scan::is_sep_space(s[p + 2]),
    ensures
        resolve_unit(s, p) == Some((Unit::Years, p + 2)),
{
    reveal_strlit("months");
    reveal_strlit("month");
    reveal_strlit("mths");
    reveal_strlit("mth");
    reveal_strlit("M");
    reveal_strlit("days");
    reveal_strlit("day");
    reveal_strlit("dys");
    reveal_strlit("dy");
    reveal_strlit("d");
    reveal_strlit("D");
    reveal_strlit("weeks");
    reveal_strlit("week");
    reveal_strlit("wks");
    reveal_strlit("wk");
    reveal_strlit("w");
    reveal_strlit("W");
    reveal_strlit("years");
    reveal_strlit("year");
    reveal_strlit("yrs");
    reveal_strlit("yr");
    reveal_strlit("y");
    reveal_strlit("Y");
    reveal_strlit("nanos");
    reveal_strlit("nsec");
    reveal_strlit("ns");
    reveal_strlit("micros");
    reveal_strlit("usec");
    reveal_strlit("us");
    reveal_strlit("millis");
    reveal_strlit("msec");
    reveal_strlit("ms");
    reveal_strlit("seconds");
    reveal_strlit("second");
    reveal_strlit("secs");
    reveal_strlit("sec");
    reveal_strlit("s");
    reveal_strlit("minutes");
    reveal_strlit("minute");
    reveal_strlit("mins");
    reveal_strlit("min");
    reveal_strlit("m");
    reveal_strlit("hours");
    reveal_strlit("hour");
    reveal_strlit("hrs");
    reveal_strlit("hr");
    reveal_strlit("h");
    reveal_strlit("H");
    assert(!match_at(s, p, "months"@)) by {
        if match_at(s, p, "months"@) {
            assert(s.subrange(p, p + 6)[0] == s[p + 0]);
            assert(s.subrange(p, p + 2)[0] == s[p + 0]);
            assert(false);
        }
    };
    assert(!match_at(s, p, "month"@)) by {
        if match_at(s, p, "month"@) {
            assert(s.subrange(p, p + 5)[0] == s[p + 0]);
            assert(s.subrange(p, p + 2)[0] == s[p + 0]);
            assert(false);
        }
    };
    assert(!match_at(s, p, "mths"@)) by {
        if match_at(s, p, "mths"@) {
            assert(s.subrange(p, p + 4)[0] == s[p + 0]);
            assert(s.subrange(p, p + 2)[0] == s[p + 0]);
            assert(false);
        }
    };
    assert(!match_at(s, p, "mth"@)) by {
        if match_at(s, p, "mth"@) {
            assert(s.subrange(p, p + 3)[0] == s[p + 0]);
            assert(s.subrange(p, p + 2)[0] == s[p + 0]);
            assert(false);
        }
    };
    assert(!match_at(s, p, "M"@)) by {
        if match_at(s, p, "M"@) {
            assert(s.subrange(p, p + 1)[0] == s[p + 0]);
            assert(s.subrange(p, p + 2)[0] == s[p + 0]);
            assert(false);
        }
    };
    assert(!match_at(s, p, "days"@)) by {
        if match_at(s, p, "days"@) {
            assert(s.subrange(p, p + 4)[0] == s[p + 0]);
            assert(s.subrange(p, p + 2)[0] == s[p + 0]);
            assert(false);
        }
    };
    assert(!match_at(s, p, "day"@)) by {
        if match_at(s, p, "day"@) {
            assert(s.subrange(p, p + 3)[0] == s[p + 0]);
            assert(s.subrange(p, p + 2)[0] == s[p + 0]);
            assert(false);
        }
    };
    assert(!match_at(s, p, "dys"@)) by {
        if match_at(s, p, "dys"@) {
            assert(s.subrange(p, p + 3)[0] == s[p + 0]);
            assert(s.subrange(p, p + 2)[0] == s[p + 0]);
            assert(false);
        }
    };
    assert(!match_at(s, p, "dy"@)) by {
        if match_at(s, p, "dy"@) {
            assert(s.subrange(p, p + 2)[0] == s[p + 0]);
            assert(s.subrange(p, p + 2)[0] == s[p + 0]);
            assert(false);
        }
    };
    assert(!match_at(s, p, "d"@)) by {
        if match_at(s, p, "d"@) {
            assert(s.subrange(p, p + 1)[0] == s[p + 0]);
            assert(s.subrange(p, p + 2)[0] == s[p + 0]);
            assert(false);
        }
    };
    assert(!match_at(s, p, "D"@)) by {
        if match_at(s, p, "D"@) {
            assert(s.subrange(p, p + 1)[0] == s[p + 0]);
            assert(s.subrange(p, p + 2)[0] == s[p + 0]);
            assert(false);
        }
    };
    assert(!match_at(s, p, "weeks"@)) by {
        if match_at(s, p, "weeks"@) {
            assert(s.subrange(p, p + 5)[0] == s[p + 0]);
            assert(s.subrange(p, p + 2)[0] == s[p + 0]);
            assert(false);
        }
    };
    assert(!match_at(s, p, "week"@)) by {
        if match_at(s, p, "week"@) {
            assert(s.subrange(p, p + 4)[0] == s[p + 0]);
            assert(s.subrange(p, p + 2)[0] == s[p + 0]);
            assert(false);
        }
    };
    assert(!match_at(s, p, "wks"@)) by {
        if match_at(s, p, "wks"@) {
            assert(s.subrange(p, p + 3)[0] == s[p + 0]);
            assert(s.subrange(p, p + 2)[0] == s[p + 0]);
            assert(false);
        }
    };
    assert(!match_at(s, p, "wk"@)) by {
        if match_at(s, p, "wk"@) {
            assert(s.subrange(p, p + 2)[0] == s[p + 0]);
            assert(s.subrange(p, p + 2)[0] == s[p + 0]);
            assert(false);
        }
    };
    assert(!match_at(s, p, "w"@)) by {
        if match_at(s, p, "w"@) {
            assert(s.subrange(p, p + 1)[0] == s[p + 0]);
            assert(s.subrange(p, p + 2)[0] == s[p + 0]);
            assert(false);
        }
    };
    assert(!match_at(s, p, "W"@)) by {
        if match_at(s, p, "W"@) {
            assert(s.subrange(p, p + 1)[0] == s[p + 0]);
            assert(s.subrange(p, p + 2)[0] == s[p + 0]);
            assert(false);
        }
    };
    assert(!match_at(s, p, "years"@)) by {
        if match_at(s, p, "years"@) {
            assert(s.subrange(p, p + 5)[1] == s[p + 1]);
            assert(s.subrange(p, p + 2)[1] == s[p + 1]);
            assert(false);
        }
    };
    assert(!match_at(s, p, "year"@)) by {
        if match_at(s, p, "year"@) {
            assert(s.subrange(p, p + 4)[1] == s[p + 1]);
            assert(s.subrange(p, p + 2)[1] == s[p + 1]);
            assert(false);
        }
    };
    assert(!match_at(s, p, "yrs"@)) by {
        if match_at(s, p, "yrs"@) {
            assert(s.subrange(p, p + 3)[2] == s[p + 2]);
            assert(false);
        }
    };
    assert(match_at(s, p, "yr"@));
}

/// With `y` at `p` and a blank right after it, the resolver yields `Years`.
proof fn lemma_mid_years_y(s: Seq<char>, p: int)
    requires
        0 <= p,
        p + 1 < s.len(),
        s.subrange(p, p + 1) == "y"@,
        crate::scan::is_sep_space(s[p + 1]),
    ensures
        resolve_unit(s, p) == Some((Unit::Years, p + 1)),
{
    reveal_strlit("months");
    reveal_strlit("month");
    reveal_strlit("mths");
    reveal_strlit("mth");
    reveal_strlit("M");
    reveal_strlit("days");
    reveal_strlit("day");
    reveal_strlit("dys");
    reveal_strlit("dy");
    reveal_strlit("d");
    reveal_strlit("D");
    reveal_strlit("weeks");
    reveal_strlit("week");
    reveal_strlit("wks");
    reveal_strlit("wk");
    reveal_strlit("w");
    reveal_strlit("W");
    reveal_strlit("years");
    reveal_strlit("year");
    reveal_strlit("yrs");
    reveal_strlit("yr");
    reveal_strlit("y");
    reveal_strlit("Y");
    reveal_strlit("nanos");
    reveal_strlit("nsec");
    reveal_strlit("ns");
    reveal_strlit("micros");
    reveal_strlit("usec");
    reveal_strlit("us");
    reveal_strlit("millis");
    reveal_strlit("msec");
    reveal_strlit("ms");
    reveal_strlit("seconds");
    reveal_strlit("second");
    reveal_strlit("secs");
    reveal_strlit("sec");
    reveal_strlit("s");
    reveal_strlit("minutes");
    reveal_strlit("minute");
    reveal_strlit("mins");
    reveal_strlit("min");
    reveal_strlit("m");
    reveal_strlit("hours");
    reveal_strlit("hour");
    reveal_strlit("hrs");
    reveal_strlit("hr");
    reveal_strlit("h");
    reveal_strlit("H");
    assert(!match_at(s, p, "months"@)) by {
        if match_at(s, p, "months"@) {
            assert(s.subrange(p, p + 6)[0] == s[p + 0]);
            assert(s.subrange(p, p + 1)[0] == s[p + 0]);
            assert(false);
        }
    };
    assert(!match_at(s, p, "month"@)) by {
        if match_at(s, p, "month"@) {
            assert(s.subrange(p, p + 5)[0] == s[p + 0]);
            assert(s.subrange(p, p + 1)[0] == s[p + 0]);
            assert(false);
        }
    };
    assert(!match_at(s, p, "mths"@)) by {
        if match_at(s, p, "mths"@) {
            assert(s.subrange(p, p + 4)[0] == s[p + 0]);
            assert(s.subrange(p, p + 1)[0] == s[p + 0]);
            assert(false);
        }
    };
    assert(!match_at(s, p, "mth"@)) by {
        if match_at(s, p, "mth"@) {
            assert(s.subrange(p, p + 3)[0] == s[p + 0]);
            assert(s.subrange(p, p + 1)[0] == s[p + 0]);
            assert(false);
        }
    };
    assert(!match_at(s, p, "M"@)) by {
        if match_at(s, p, "M"@) {
            assert(s.subrange(p, p + 1)[0] == s[p + 0]);
            assert(s.subrange(p, p + 1)[0] == s[p + 0]);
            assert(false);
        }
    };
    assert(!match_at(s, p, "days"@)) by {
        if match_at(s, p, "days"@) {
            assert(s.subrange(p, p + 4)[0] == s[p + 0]);
            assert(s.subrange(p, p + 1)[0] == s[p + 0]);
            assert(false);
        }
    };
    assert(!match_at(s, p, "day"@)) by {
        if match_at(s, p, "day"@) {
            assert(s.subrange(p, p + 3)[0] == s[p + 0]);
            assert(s.subrange(p, p + 1)[0] == s[p + 0]);
            assert(false);
        }
    };
    assert(!match_at(s, p, "dys"@)) by {
        if match_at(s, p, "dys"@) {
            assert(s.subrange(p, p + 3)[0] == s[p + 0]);
            assert(s.subrange(p, p + 1)[0] == s[p + 0]);
            assert(false);
        }
    };
    assert(!match_at(s, p, "dy"@)) by {
        if match_at(s, p, "dy"@) {
            assert(s.subrange(p, p + 2)[0] == s[p + 0]);
            assert(s.subrange(p, p + 1)[0] == s[p + 0]);
            assert(false);
        }
    };
    assert(!match_at(s, p, "d"@)) by {
        if match_at(s, p, "d"@) {
            assert(s.subrange(p, p + 1)[0] == s[p + 0]);
            assert(s.subrange(p, p + 1)[0] == s[p + 0]);
            assert(false);
        }
    };
    assert(!match_at(s, p, "D"@)) by {
        if match_at(s, p, "D"@) {
            assert(s.subrange(p, p + 1)[0] == s[p + 0]);
            assert(s.subrange(p, p + 1)[0] == s[p + 0]);
            assert(false);
        }
    };
    assert(!match_at(s, p, "weeks"@)) by {
        if match_at(s, p, "weeks"@) {
            assert(s.subrange(p, p + 5)[0] == s[p + 0]);
            assert(s.subrange(p, p + 1)[0] == s[p + 0]);
            assert(false);
        }
    };
    assert(!match_at(s, p, "week"@)) by {
        if match_at(s, p, "week"@) {
            assert(s.subrange(p, p + 4)[0] == s[p + 0]);
            assert(s.subrange(p, p + 1)[0] == s[p + 0]);
            assert(false);
        }
    };
    assert(!match_at(s, p, "wks"@)) by {
        if match_at(s, p, "wks"@) {
            assert(s.subrange(p, p + 3)[0] == s[p + 0]);
            assert(s.subrange(p, p + 1)[0] == s[p + 0]);
            assert(false);
        }
    };
    assert(!match_at(s, p, "wk"@)) by {
        if match_at(s, p, "wk"@) {
            assert(s.subrange(p, p + 2)[0] == s[p + 0]);
            assert(s.subrange(p, p + 1)[0] == s[p + 0]);
            assert(false);
        }
    };
    assert(!match_at(s, p, "w"@)) by {
        if match_at(s, p, "w"@) {
            assert(s.subrange(p, p + 1)[0] == s[p + 0]);
            assert(s.subrange(p, p + 1)[0] == s[p + 0]);
            assert(false);
        }
    };
    assert(!match_at(s, p, "W"@)) by {
        if match_at(s, p, "W"@) {
            assert(s.subrange(p, p + 1)[0] == s[p + 0]);
            assert(s.subrange(p, p + 1)[0] == s[p + 0]);
            assert(false);
        }
    };
    assert(!match_at(s, p, "years"@)) by {
        if match_at(s, p, "years"@) {
            assert(s.subrange(p, p + 5)[1] == s[p + 1]);
            assert(false);
        }
    };
    assert(!match_at(s, p, "year"@)) by {
        if match_at(s, p, "year"@) {
            assert(s.subrange(p, p + 4)[1] == s[p + 1]);
            assert(false);
        }
    };
    assert(!match_at(s, p, "yrs"@)) by {
        if match_at(s, p, "yrs"@) {
            assert(s.subrange(p, p + 3)[1] == s[p + 1]);
            assert(false);
        }
    };
    assert(!match_at(s, p, "yr"@)) by {
        if match_at(s, p, "yr"@) {
            assert(s.subrange(p, p + 2)[1] == s[p + 1]);
            assert(false);
        }
    };
    assert(match_at(s, p, "y"@));
}

/// With `Y` at `p` and a blank right after it, the resolver yields `Years`.
proof fn lemma_mid_years_cap_y(s: Seq<char>, p: int)
    requires
        0 <= p,
        p + 1 < s.len(),
        s.subrange(p, p + 1) == "Y"@,
        crate::scan::is_sep_space(s[p + 1]),
    ensures
        resolve_unit(s, p) == Some((Unit::Years, p + 1)),
{
    reveal_strlit("months");
    reveal_strlit("month");
    reveal_strlit("mths");
    reveal_strlit("mth");
    reveal_strlit("M");
    reveal_strlit("days");
    reveal_strlit("day");
    reveal_strlit("dys");
    reveal_strlit("dy");
    reveal_strlit("d");
    reveal_strlit("D");
    reveal_strlit("weeks");
    reveal_strlit("week");
    reveal_strlit("wks");
    reveal_strlit("wk");
    reveal_strlit("w");
    reveal_strlit("W");
    reveal_strlit("years");
    reveal_strlit("year");
    reveal_strlit("yrs");
    reveal_strlit("yr");
    reveal_strlit("y");
    reveal_strlit("Y");
    reveal_strlit("nanos");
    reveal_strlit("nsec");
    reveal_strlit("ns");
    reveal_strlit("micros");
    reveal_strlit("usec");
    reveal_strlit("us");
    reveal_strlit("millis");
    reveal_strlit("msec");
    reveal_strlit("ms");
    reveal_strlit("seconds");
    reveal_strlit("second");
    reveal_strlit("secs");
    reveal_strlit("sec");
    reveal_strlit("s");
    reveal_strlit("minutes");
    reveal_strlit("minute");
    reveal_strlit("mins");
    reveal_strlit("min");
    reveal_strlit("m");
    reveal_strlit("hours");
    reveal_strlit("hour");
    reveal_strlit("hrs");
    reveal_strlit("hr");
    reveal_strlit("h");
    reveal_strlit("H");
    assert(!match_at(s, p, "months"@)) by {
        if match_at(s, p, "months"@) {
            assert(s.subrange(p, p + 6)[0] == s[p + 0]);
            assert(s.subrange(p, p + 1)[0] == s[p + 0]);
            assert(false);
        }
    };
    assert(!match_at(s, p, "month"@)) by {
        if match_at(s, p, "month"@) {
            assert(s.subrange(p, p + 5)[0] == s[p + 0]);
            assert(s.subrange(p, p + 1)[0] == s[p + 0]);
            assert(false);
        }
    };
    assert(!match_at(s, p, "mths"@)) by {
        if match_at(s, p, "mths"@) {
            assert(s.subrange(p, p + 4)[0] == s[p + 0]);
            assert(s.subrange(p, p + 1)[0] == s[p + 0]);
            assert(false);
        }
    };
    assert(!match_at(s, p, "mth"@)) by {
        if match_at(s, p, "mth"@) {
            assert(s.subrange(p, p + 3)[0] == s[p + 0]);
            assert(s.subrange(p, p + 1)[0] == s[p + 0]);
            assert(false);
        }
    };
    assert(!match_at(s, p, "M"@)) by {
        if match_at(s, p, "M"@) {
            assert(s.subrange(p, p + 1)[0] == s[p + 0]);
            assert(s.subrange(p, p + 1)[0] == s[p + 0]);
            assert(false);
        }
    };
    assert(!match_at(s, p, "days"@)) by {
        if match_at(s, p, "days"@) {
            assert(s.subrange(p, p + 4)[0] == s[p + 0]);
            assert(s.subrange(p, p + 1)[0] == s[p + 0]);
            assert(false);
        }
    };
    assert(!match_at(s, p, "day"@)) by {
        if match_at(s, p, "day"@) {
            assert(s.subrange(p, p + 3)[0] == s[p + 0]);
            assert(s.subrange(p, p + 1)[0] == s[p + 0]);
            assert(false);
        }
    };
    assert(!match_at(s, p, "dys"@)) by {
        if match_at(s, p, "dys"@) {
            assert(s.subrange(p, p + 3)[0] == s[p + 0]);
            assert(s.subrange(p, p + 1)[0] == s[p + 0]);
            assert(false);
        }
    };
    assert(!match_at(s, p, "dy"@)) by {
        if match_at(s, p, "dy"@) {
            assert(s.subrange(p, p + 2)[0] == s[p + 0]);
            assert(s.subrange(p, p + 1)[0] == s[p + 0]);
            assert(false);
        }
    };
    assert(!match_at(s, p, "d"@)) by {
        if match_at(s, p, "d"@) {
            assert(s.subrange(p, p + 1)[0] == s[p + 0]);
            assert(s.subrange(p, p + 1)[0] == s[p + 0]);
            assert(false);
        }
    };
    assert(!match_at(s, p, "D"@)) by {
        if match_at(s, p, "D"@) {
            assert(s.subrange(p, p + 1)[0] == s[p + 0]);
            assert(s.subrange(p, p + 1)[0] == s[p + 0]);
            assert(false);
        }
    };
    assert(!match_at(s, p, "weeks"@)) by {
        if match_at(s, p, "weeks"@) {
            assert(s.subrange(p, p + 5)[0] == s[p + 0]);
            assert(s.subrange(p, p + 1)[0] == s[p + 0]);
            assert(false);
        }
    };
    assert(!match_at(s, p, "week"@)) by {
        if match_at(s, p, "week"@) {
            assert(s.subrange(p, p + 4)[0] == s[p + 0]);
            assert(s.subrange(p, p + 1)[0] == s[p + 0]);
            assert(false);
        }
    };
    assert(!match_at(s, p, "wks"@)) by {
        if match_at(s, p, "wks"@) {
            assert(s.subrange(p, p + 3)[0] == s[p + 0]);
            assert(s.subrange(p, p + 1)[0] == s[p + 0]);
            assert(false);
        }
    };
    assert(!match_at(s, p, "wk"@)) by {
        if match_at(s, p, "wk"@) {
            assert(s.subrange(p, p + 2)[0] == s[p + 0]);
            assert(s.subrange(p, p + 1)[0] == s[p + 0]);
            assert(false);
        }
    };
    assert(!match_at(s, p, "w"@)) by {
        if match_at(s, p, "w"@) {
            assert(s.subrange(p, p + 1)[0] == s[p + 0]);
            assert(s.subrange(p, p + 1)[0] == s[p + 0]);
            assert(false);
        }
    };
    assert(!match_at(s, p, "W"@)) by {
        if match_at(s, p, "W"@) {
            assert(s.subrange(p, p + 1)[0] == s[p + 0]);
            assert(s.subrange(p, p + 1)[0] == s[p + 0]);
            assert(false);
        }
    };
    assert(!match_at(s, p, "years"@)) by {
        if match_at(s, p, "years"@) {
            assert(s.subrange(p, p + 5)[0] == s[p + 0]);
            assert(s.subrange(p, p + 1)[0] == s[p + 0]);
            assert(false);
        }
    };
    assert(!match_at(s, p, "year"@)) by {
        if match_at(s, p, "year"@) {
            assert(s.subrange(p, p + 4)[0] == s[p + 0]);
            assert(s.subrange(p, p + 1)[0] == s[p + 0]);
            assert(false);
        }
    };
    assert(!match_at(s, p, "yrs"@)) by {
        if match_at(s, p, "yrs"@) {
            assert(s.subrange(p, p + 3)[0] == s[p + 0]);
            assert(s.subrange(p, p + 1)[0] == s[p + 0]);
            assert(false);
        }
    };
    assert(!match_at(s, p, "yr"@)) by {
        if match_at(s, p, "yr"@) {
            assert(s.subrange(p, p + 2)[0] == s[p + 0]);
            assert(s.subrange(p, p + 1)[0] == s[p + 0]);
            assert(false);
        }
    };
    assert(!match_at(s, p, "y"@)) by {
        if match_at(s, p, "y"@) {
            assert(s.subrange(p, p + 1)[0] == s[p + 0]);
            assert(s.subrange(p, p + 1)[0] == s[p + 0]);
            assert(false);
        }
    };
    assert(match_at(s, p, "Y"@));
}

/// With `nanos` at `p` and a blank right after it, the resolver yields `Nanos`.
proof fn lemma_mid_nanos_nanos(s: Seq<char>, p: int)
    requires
        0 <= p,
        p + 5 < s.len(),
        s.subrange(p, p + 5) == "nanos"@,
        crate::scan::is_sep_space(s[p + 5]),
    ensures
        resolve_unit(s, p) == Some((Unit::Nanos, p + 5)),
{
    reveal_strlit("months");
    reveal_strlit("month");
    reveal_strlit("mths");
    reveal_strlit("mth");
    reveal_strlit("M");
    reveal_strlit("days");
    reveal_strlit("day");
    reveal_strlit("dys");
    reveal_strlit("dy");
    reveal_strlit("d");
    reveal_strlit("D");
    reveal_strlit("weeks");
    reveal_strlit("week");
    reveal_strlit("wks");
    reveal_strlit("wk");
    reveal_strlit("w");
    reveal_strlit("W");
    reveal_strlit("years");
    reveal_strlit("year");
    reveal_strlit("yrs");
    reveal_strlit("yr");
    reveal_strlit("y");
    reveal_strlit("Y");
    reveal_strlit("nanos");
    reveal_strlit("nsec");
    reveal_strlit("ns");
    reveal_strlit("micros");
    reveal_strlit("usec");
    reveal_strlit("us");
    reveal_strlit("millis");
    reveal_strlit("msec");
    reveal_strlit("ms");
    reveal_strlit("seconds");
    reveal_strlit("second");
    reveal_strlit("secs");
    reveal_strlit("sec");
    reveal_strlit("s");
    reveal_strlit("minutes");
    reveal_strlit("minute");
    reveal_strlit("mins");
    reveal_strlit("min");
    reveal_strlit("m");
    reveal_strlit("hours");
    reveal_strlit("hour");
    reveal_strlit("hrs");
    reveal_strlit("hr");
    reveal_strlit("h");
    reveal_strlit("H");
    assert(!match_at(s, p, "months"@)) by {
        if match_at(s, p, "months"@) {
            assert(s.subrange(p, p + 6)[0] == s[p + 0]);
            assert(s.subrange(p, p + 5)[0] == s[p + 0]);
            assert(false);
        }
    };
    assert(!match_at(s, p, "month"@)) by {
        if match_at(s, p, "month"@) {
            assert(s.subrange(p, p + 5)[0] == s[p + 0]);
            assert(s.subrange(p, p + 5)[0] == s[p + 0]);
            assert(false);
        }
    };
    assert(!match_at(s, p, "mths"@)) by {
        if match_at(s, p, "mths"@) {
            assert(s.subrange(p, p + 4)[0] == s[p + 0]);
            assert(s.subrange(p, p + 5)[0] == s[p + 0]);
            assert(false);
        }
    };
    assert(!match_at(s, p, "mth"@)) by {
        if match_at(s, p, "mth"@) {
            assert(s.subrange(p, p + 3)[0] == s[p + 0]);
            assert(s.subrange(p, p + 5)[0] == s[p + 0]);
            assert(false);
        }
    };
    assert(!match_at(s, p, "M"@)) by {
        if match_at(s, p, "M"@) {
            assert(s.subrange(p, p + 1)[0] == s[p + 0]);
            assert(s.subrange(p, p + 5)[0] == s[p + 0]);
            assert(false);
        }
    };
    assert(!match_at(s, p, "days"@)) by {
        if match_at(s, p, "days"@) {
            assert(s.subrange(p, p + 4)[0] == s[p + 0]);
            assert(s.subrange(p, p + 5)[0] == s[p + 0]);
            assert(false);
        }
    };
    assert(!match_at(s, p, "day"@)) by {
        if match_at(s, p, "day"@) {
            assert(s.subrange(p, p + 3)[0] == s[p + 0]);
            assert(s.subrange(p, p + 5)[0] == s[p + 0]);
            assert(false);
        }
    };
    assert(!match_at(s, p, "dys"@)) by {
        if match_at(s, p, "dys"@) {
            assert(s.subrange(p, p + 3)[0] == s[p + 0]);
            assert(s.subrange(p, p + 5)[0] == s[p + 0]);
            assert(false);
        }
    };
    assert(!match_at(s, p, "dy"@)) by {
        if match_at(s, p, "dy"@) {
            assert(s.subrange(p, p + 2)[0] == s[p + 0]);
            assert(s.subrange(p, p + 5)[0] == s[p + 0]);
            assert(false);
        }
    };
    assert(!match_at(s, p, "d"@)) by {
        if match_at(s, p, "d"@) {
            assert(s.subrange(p, p + 1)[0] == s[p + 0]);
            assert(s.subrange(p, p + 5)[0] == s[p + 0]);
            assert(false);
        }
    };
    assert(!match_at(s, p, "D"@)) by {
        if match_at(s, p, "D"@) {
            assert(s.subrange(p, p + 1)[0] == s[p + 0]);
            assert(s.subrange(p, p + 5)[0] == s[p + 0]);
            assert(false);
        }
    };
    assert(!match_at(s, p, "weeks"@)) by {
        if match_at(s, p, "weeks"@) {
            assert(s.subrange(p, p + 5)[0] == s[p + 0]);
            assert(s.subrange(p, p + 5)[0] == s[p + 0]);
            assert(false);
        }
    };
    assert(!match_at(s, p, "week"@)) by {
        if match_at(s, p, "week"@) {
            assert(s.subrange(p, p + 4)[0] == s[p + 0]);
            assert(s.subrange(p, p + 5)[0] == s[p + 0]);
            assert(false);
        }
    };
    assert(!match_at(s, p, "wks"@)) by {
        if match_at(s, p, "wks"@) {
            assert(s.subrange(p, p + 3)[0] == s[p + 0]);
            assert(s.subrange(p, p + 5)[0] == s[p + 0]);
            assert(false);
        }
    };
    assert(!match_at(s, p, "wk"@)) by {
        if match_at(s, p, "wk"@) {
            assert(s.subrange(p, p + 2)[0] == s[p + 0]);
            assert(s.subrange(p, p + 5)[0] == s[p + 0]);
            assert(false);
        }
    };
    assert(!match_at(s, p, "w"@)) by {
        if match_at(s, p, "w"@) {
            assert(s.subrange(p, p + 1)[0] == s[p + 0]);
            assert(s.subrange(p, p + 5)[0] == s[p + 0]);
            assert(false);
        }
    };
    assert(!match_at(s, p, "W"@)) by {
        if match_at(s, p, "W"@) {
            assert(s.subrange(p, p + 1)[0] == s[p + 0]);
            assert(s.subrange(p, p + 5)[0] == s[p + 0]);
            assert(false);
        }
    };
    assert(!match_at(s, p, "years"@)) by {
        if match_at(s, p, "years"@) {
            assert(s.subrange(p, p + 5)[0] == s[p + 0]);
            assert(s.subrange(p, p + 5)[0] == s[p + 0]);
            assert(false);
        }
    };
    assert(!match_at(s, p, "year"@)) by {
        if match_at(s, p, "year"@) {
            assert(s.subrange(p, p + 4)[0] == s[p + 0]);
            assert(s.subrange(p, p + 5)[0] == s[p + 0]);
            assert(false);
        }
    };
    assert(!match_at(s, p, "yrs"@)) by {
        if match_at(s, p, "yrs"@) {
            assert(s.subrange(p, p + 3)[0] == s[p + 0]);
            assert(s.subrange(p, p + 5)[0] == s[p + 0]);
            assert(false);
        }
    };
    assert(!match_at(s, p, "yr"@)) by {
        if match_at(s, p, "yr"@) {
            assert(s.subrange(p, p + 2)[0] == s[p + 0]);
            assert(s.subrange(p, p + 5)[0] == s[p + 0]);
            assert(false);
        }
    };
    assert(!match_at(s, p, "y"@)) by {
        if match_at(s, p, "y"@) {
            assert(s.subrange(p, p + 1)[0] == s[p + 0]);
            assert(s.subrange(p, p + 5)[0] == s[p + 0]);
            assert(false);
        }
    };
    assert(!match_at(s, p, "Y"@)) by {
        if match_at(s, p, "Y"@) {
            assert(s.subrange(p, p + 1)[0] == s[p + 0]);
            assert(s.subrange(p, p + 5)[0] == s[p + 0]);
            assert(false);
        }
    };
    assert(match_at(s, p, "nanos"@));
}

/// With `nsec` at `p` and a blank right after it, the resolver yields `Nanos`.
proof fn lemma_mid_nanos_nsec(s: Seq<char>, p: int)
    requires
        0 <= p,
        p + 4 < s.len(),
        s.subrange(p, p + 4) == "nsec"@,
        crate::scan::is_sep_space(s[p + 4]),
    ensures
        resolve_unit(s, p) == Some((Unit::Nanos, p + 4)),
{
    reveal_strlit("months");
    reveal_strlit("month");
    reveal_strlit("mths");
    reveal_strlit("mth");
    reveal_strlit("M");
    reveal_strlit("days");
    reveal_strlit("day");
    reveal_strlit("dys");
    reveal_strlit("dy");
    reveal_strlit("d");
    reveal_strlit("D");
    reveal_strlit("weeks");
    reveal_strlit("week");
    reveal_strlit("wks");
    reveal_strlit("wk");
    reveal_strlit("w");
    reveal_strlit("W");
    reveal_strlit("years");
    reveal_strlit("year");
    reveal_strlit("yrs");
    reveal_strlit("yr");
    reveal_strlit("y");
    reveal_strlit("Y");
    reveal_strlit("nanos");
    reveal_strlit("nsec");
    reveal_strlit("ns");
    reveal_strlit("micros");
    reveal_strlit("usec");
    reveal_strlit("us");
    reveal_strlit("millis");
    reveal_strlit("msec");
    reveal_strlit("ms");
    reveal_strlit("seconds");
    reveal_strlit("second");
    reveal_strlit("secs");
    reveal_strlit("sec");
    reveal_strlit("s");
    reveal_strlit("minutes");
    reveal_strlit("minute");
    reveal_strlit("mins");
    reveal_strlit("min");
    reveal_strlit("m");
    reveal_strlit("hours");
    reveal_strlit("hour");
    reveal_strlit("hrs");
    reveal_strlit("hr");
    reveal_strlit("h");
    reveal_strlit("H");
    assert(!match_at(s, p, "months"@)) by {
        if match_at(s, p, "months"@) {
            assert(s.subrange(p, p + 6)[0] == s[p + 0]);
            assert(s.subrange(p, p + 4)[0] == s[p + 0]);
            assert(false);
        }
    };
    assert(!match_at(s, p, "month"@)) by {
        if match_at(s, p, "month"@) {
            assert(s.subrange(p, p + 5)[0] == s[p + 0]);
            assert(s.subrange(p, p + 4)[0] == s[p + 0]);
            assert(false);
        }
    };
    assert(!match_at(s, p, "mths"@)) by {
        if match_at(s, p, "mths"@) {
            assert(s.subrange(p, p + 4)[0] == s[p + 0]);
            assert(s.subrange(p, p + 4)[0] == s[p + 0]);
            assert(false);
        }
    };
    assert(!match_at(s, p, "mth"@)) by {
        if match_at(s, p, "mth"@) {
            assert(s.subrange(p, p + 3)[0] == s[p + 0]);
            assert(s.subrange(p, p + 4)[0] == s[p + 0]);
            assert(false);
        }
    };
    assert(!match_at(s, p, "M"@)) by {
        if match_at(s, p, "M"@) {
            assert(s.subrange(p, p + 1)[0] == s[p + 0]);
            assert(s.subrange(p, p + 4)[0] == s[p + 0]);
            assert(false);
        }
    };
    assert(!match_at(s, p, "days"@)) by {
        if match_at(s, p, "days"@) {
            assert(s.subrange(p, p + 4)[0] == s[p + 0]);
            assert(s.subrange(p, p + 4)[0] == s[p + 0]);
            assert(false);
        }
    };
    assert(!match_at(s, p, "day"@)) by {
        if match_at(s, p, "day"@) {
            assert(s.subrange(p, p + 3)[0] == s[p + 0]);
            assert(s.subrange(p, p + 4)[0] == s[p + 0]);
            assert(false);
        }
    };
    assert(!match_at(s, p, "dys"@)) by {
        if match_at(s, p, "dys"@) {
            assert(s.subrange(p, p + 3)[0] == s[p + 0]);
            assert(s.subrange(p, p + 4)[0] == s[p + 0]);
            assert(false);
        }
    };
    assert(!match_at(s, p, "dy"@)) by {
        if match_at(s, p, "dy"@) {
            assert(s.subrange(p, p + 2)[0] == s[p + 0]);
            assert(s.subrange(p, p + 4)[0] == s[p + 0]);
            assert(false);
        }
    };
    assert(!match_at(s, p, "d"@)) by {
        if match_at(s, p, "d"@) {
            assert(s.subrange(p, p + 1)[0] == s[p + 0]);
            assert(s.subrange(p, p + 4)[0] == s[p + 0]);
            assert(false);
        }
    };
    assert(!match_at(s, p, "D"@)) by {
        if match_at(s, p, "D"@) {
            assert(s.subrange(p, p + 1)[0] == s[p + 0]);
            assert(s.subrange(p, p + 4)[0] == s[p + 0]);
            assert(false);
        }
    };
    assert(!match_at(s, p, "weeks"@)) by {
        if match_at(s, p, "weeks"@) {
            assert(s.subrange(p, p + 5)[0] == s[p + 0]);
            assert(s.subrange(p, p + 4)[0] == s[p + 0]);
            assert(false);
        }
    };
    assert(!match_at(s, p, "week"@)) by {
        if match_at(s, p, "week"@) {
            assert(s.subrange(p, p + 4)[0] == s[p + 0]);
            assert(s.subrange(p, p + 4)[0] == s[p + 0]);
            assert(false);
        }
    };
    assert(!match_at(s, p, "wks"@)) by {
        if match_at(s, p, "wks"@) {
            assert(s.subrange(p, p + 3)[0] == s[p + 0]);
            assert(s.subrange(p, p + 4)[0] == s[p + 0]);
            assert(false);
        }
    };
    assert(!match_at(s, p, "wk"@)) by {
        if match_at(s, p, "wk"@) {
            assert(s.subrange(p, p + 2)[0] == s[p + 0]);
            assert(s.subrange(p, p + 4)[0] == s[p + 0]);
            assert(false);
        }
    };
    assert(!match_at(s, p, "w"@)) by {
        if match_at(s, p, "w"@) {
            assert(s.subrange(p, p + 1)[0] == s[p + 0]);
            assert(s.subrange(p, p + 4)[0] == s[p + 0]);
            assert(false);
        }
    };
    assert(!match_at(s, p, "W"@)) by {
        if match_at(s, p, "W"@) {
            assert(s.subrange(p, p + 1)[0] == s[p + 0]);
            assert(s.subrange(p, p + 4)[0] == s[p + 0]);
            assert(false);
        }
    };
    assert(!match_at(s, p, "years"@)) by {
        if match_at(s, p, "years"@) {
            assert(s.subrange(p, p + 5)[0] == s[p + 0]);
            assert(s.subrange(p, p + 4)[0] == s[p + 0]);
            assert(false);
        }
    };
    assert(!match_at(s, p, "year"@)) by {
        if match_at(s, p, "year"@) {
            assert(s.subrange(p, p + 4)[0] == s[p + 0]);
            assert(s.subrange(p, p + 4)[0] == s[p + 0]);
            assert(false);
        }
    };
    assert(!match_at(s, p, "yrs"@)) by {
        if match_at(s, p, "yrs"@) {
            assert(s.subrange(p, p + 3)[0] == s[p + 0]);
            assert(s.subrange(p, p + 4)[0] == s[p + 0]);
            assert(false);
        }
    };
    assert(!match_at(s, p, "yr"@)) by {
        if match_at(s, p, "yr"@) {
            assert(s.subrange(p, p + 2)[0] == s[p + 0]);
            assert(s.subrange(p, p + 4)[0] == s[p + 0]);
            assert(false);
        }
    };
    assert(!match_at(s, p, "y"@)) by {
        if match_at(s, p, "y"@) {
            assert(s.subrange(p, p + 1)[0] == s[p + 0]);
            assert(s.subrange(p, p + 4)[0] == s[p + 0]);
            assert(false);
        }
    };
    assert(!match_at(s, p, "Y"@)) by {
        if match_at(s, p, "Y"@) {
            assert(s.subrange(p, p + 1)[0] == s[p + 0]);
            assert(s.subrange(p, p + 4)[0] == s[p + 0]);
            assert(false);
        }
    };
    assert(!match_at(s, p, "nanos"@)) by {
        if match_at(s, p, "nanos"@) {
            assert(s.subrange(p, p + 5)[1] == s[p + 1]);
            assert(s.subrange(p, p + 4)[1] == s[p + 1]);
            assert(false);
        }
    };
    assert(match_at(s, p, "nsec"@));
}

/// With `ns` at `p` and a blank right after it, the resolver yields `Nanos`.
proof fn lemma_mid_nanos_ns(s: Seq<char>, p: int)
    requires
        0 <= p,
        p + 2 < s.len(),
        s.subrange(p, p + 2) == "ns"@,
        crate::scan::is_sep_space(s[p + 2]),
    ensures
        resolve_unit(s, p) == Some((Unit::Nanos, p + 2)),
{
    reveal_strlit("months");
    reveal_strlit("month");
    reveal_strlit("mths");
    reveal_strlit("mth");
    reveal_strlit("M");
    reveal_strlit("days");
    reveal_strlit("day");
    reveal_strlit("dys");
    reveal_strlit("dy");
    reveal_strlit("d");
    reveal_strlit("D");
    reveal_strlit("weeks");
    reveal_strlit("week");
    reveal_strlit("wks");
    reveal_strlit("wk");
    reveal_strlit("w");
    reveal_strlit("W");
    reveal_strlit("years");
    reveal_strlit("year");
    reveal_strlit("yrs");
    reveal_strlit("yr");
    reveal_strlit("y");
    reveal_strlit("Y");
    reveal_strlit("nanos");
    reveal_strlit("nsec");
    reveal_strlit("ns");
    reveal_strlit("micros");
    reveal_strlit("usec");
    reveal_strlit("us");
    reveal_strlit("millis");
    reveal_strlit("msec");
    reveal_strlit("ms");
    reveal_strlit("seconds");
    reveal_strlit("second");
    reveal_strlit("secs");
    reveal_strlit("sec");
    reveal_strlit("s");
    reveal_strlit("minutes");
    reveal_strlit("minute");
    reveal_strlit("mins");
    reveal_strlit("min");
    reveal_strlit("m");
    reveal_strlit("hours");
    reveal_strlit("hour");
    reveal_strlit("hrs");
    reveal_strlit("hr");
    reveal_strlit("h");
    reveal_strlit("H");
    assert(!match_at(s, p, "months"@)) by {
        if match_at(s, p, "months"@) {
            assert(s.subrange(p, p + 6)[0] == s[p + 0]);
            assert(s.subrange(p, p + 2)[0] == s[p + 0]);
            assert(false);
        }
    };
    assert(!match_at(s, p, "month"@)) by {
        if match_at(s, p, "month"@) {
            assert(s.subrange(p, p + 5)[0] == s[p + 0]);
            assert(s.subrange(p, p + 2)[0] == s[p + 0]);
            assert(false);
        }
    };
    assert(!match_at(s, p, "mths"@)) by {
        if match_at(s, p, "mths"@) {
            assert(s.subrange(p, p + 4)[0] == s[p + 0]);
            assert(s.subrange(p, p + 2)[0] == s[p + 0]);
            assert(false);
        }
    };
    assert(!match_at(s, p, "mth"@)) by {
        if match_at(s, p, "mth"@) {
            assert(s.subrange(p, p + 3)[0] == s[p + 0]);
            assert(s.subrange(p, p + 2)[0] == s[p + 0]);
            assert(false);
        }
    };
    assert(!match_at(s, p, "M"@)) by {
        if match_at(s, p, "M"@) {
            assert(s.subrange(p, p + 1)[0] == s[p + 0]);
            assert(s.subrange(p, p + 2)[0] == s[p + 0]);
            assert(false);
        }
    };
    assert(!match_at(s, p, "days"@)) by {
        if match_at(s, p, "days"@) {
            assert(s.subrange(p, p + 4)[0] == s[p + 0]);
            assert(s.subrange(p, p + 2)[0] == s[p + 0]);
            assert(false);
        }
    };
    assert(!match_at(s, p, "day"@)) by {
        if match_at(s, p, "day"@) {
            assert(s.subrange(p, p + 3)[0] == s[p + 0]);
            assert(s.subrange(p, p + 2)[0] == s[p + 0]);
            assert(false);
        }
    };
    assert(!match_at(s, p, "dys"@)) by {
        if match_at(s, p, "dys"@) {
            assert(s.subrange(p, p + 3)[0] == s[p + 0]);
            assert(s.subrange(p, p + 2)[0] == s[p + 0]);
            assert(false);
        }
    };
    assert(!match_at(s, p, "dy"@)) by {
        if match_at(s, p, "dy"@) {
            assert(s.subrange(p, p + 2)[0] == s[p + 0]);
            assert(s.subrange(p, p + 2)[0] == s[p + 0]);
            assert(false);
        }
    };
    assert(!match_at(s, p, "d"@)) by {
        if match_at(s, p, "d"@) {
            assert(s.subrange(p, p + 1)[0] == s[p + 0]);
            assert(s.subrange(p, p + 2)[0] == s[p + 0]);
            assert(false);
        }
    };
    assert(!match_at(s, p, "D"@)) by {
        if match_at(s, p, "D"@) {
            assert(s.subrange(p, p + 1)[0] == s[p + 0]);
            assert(s.subrange(p, p + 2)[0] == s[p + 0]);
            assert(false);
        }
    };
    assert(!match_at(s, p, "weeks"@)) by {
        if match_at(s, p, "weeks"@) {
            assert(s.subrange(p, p + 5)[0] == s[p + 0]);
            assert(s.subrange(p, p + 2)[0] == s[p + 0]);
            assert(false);
        }
    };
    assert(!match_at(s, p, "week"@)) by {
        if match_at(s, p, "week"@) {
            assert(s.subrange(p, p + 4)[0] == s[p + 0]);
            assert(s.subrange(p, p + 2)[0] == s[p + 0]);
            assert(false);
        }
    };
    assert(!match_at(s, p, "wks"@)) by {
        if match_at(s, p, "wks"@) {
            assert(s.subrange(p, p + 3)[0] == s[p + 0]);
            assert(s.subrange(p, p + 2)[0] == s[p + 0]);
            assert(false);
        }
    };
    assert(!match_at(s, p, "wk"@)) by {
        if match_at(s, p, "wk"@) {
            assert(s.subrange(p, p + 2)[0] == s[p + 0]);
            assert(s.subrange(p, p + 2)[0] == s[p + 0]);
            assert(false);
        }
    };
    assert(!match_at(s, p, "w"@)) by {
        if match_at(s, p, "w"@) {
            assert(s.subrange(p, p + 1)[0] == s[p + 0]);
            assert(s.subrange(p, p + 2)[0] == s[p + 0]);
            assert(false);
        }
    };
    assert(!match_at(s, p, "W"@)) by {
        if match_at(s, p, "W"@) {
            assert(s.subrange(p, p + 1)[0] == s[p + 0]);
            assert(s.subrange(p, p + 2)[0] == s[p + 0]);
            assert(false);
        }
    };
    assert(!match_at(s, p, "years"@)) by {
        if match_at(s, p, "years"@) {
            assert(s.subrange(p, p + 5)[0] == s[p + 0]);
            assert(s.subrange(p, p + 2)[0] == s[p + 0]);
            assert(false);
        }
    };
    assert(!match_at(s, p, "year"@)) by {
        if match_at(s, p, "year"@) {
            assert(s.subrange(p, p + 4)[0] == s[p + 0]);
            assert(s.subrange(p, p + 2)[0] == s[p + 0]);
            assert(false);
        }
    };
    assert(!match_at(s, p, "yrs"@)) by {
        if match_at(s, p, "yrs"@) {
            assert(s.subrange(p, p + 3)[0] == s[p + 0]);
            assert(s.subrange(p, p + 2)[0] == s[p + 0]);
            assert(false);
        }
    };
    assert(!match_at(s, p, "yr"@)) by {
        if match_at(s, p, "yr"@) {
            assert(s.subrange(p, p + 2)[0] == s[p + 0]);
            assert(s.subrange(p, p + 2)[0] == s[p + 0]);
            assert(false);
        }
    };
    assert(!match_at(s, p, "y"@)) by {
        if match_at(s, p, "y"@) {
            assert(s.subrange(p, p + 1)[0] == s[p + 0]);
            assert(s.subrange(p, p + 2)[0] == s[p + 0]);
            assert(false);
        }
    };
    assert(!match_at(s, p, "Y"@)) by {
        if match_at(s, p, "Y"@) {
            assert(s.subrange(p, p + 1)[0] == s[p + 0]);
            assert(s.subrange(p, p + 2)[0] == s[p + 0]);
            assert(false);
        }
    };
    assert(!match_at(s, p, "nanos"@)) by {
        if match_at(s, p, "nanos"@) {
            assert(s.subrange(p, p + 5)[1] == s[p + 1]);
            assert(s.subrange(p, p + 2)[1] == s[p + 1]);
            assert(false);
        }
    };
    assert(!match_at(s, p, "nsec"@)) by {
        if match_at(s, p, "nsec"@) {
            assert(s.subrange(p, p + 4)[2] == s[p + 2]);
            assert(false);
        }
    };
    assert(match_at(s, p, "ns"@));
}

/// With `micros` at `p` and a blank right after it, the resolver yields `Micros`.
proof fn lemma_mid_micros_micros(s: Seq<char>, p: int)
    requires
        0 <= p,
        p + 6 < s.len(),
        s.subrange(p, p + 6) == "micros"@,
        crate::scan::is_sep_space(s[p + 6]),
    ensures
        resolve_unit(s, p) == Some((Unit::Micros, p + 6)),
{
    reveal_strlit("months");
    reveal_strlit("month");
    reveal_strlit("mths");
    reveal_strlit("mth");
    reveal_strlit("M");
    reveal_strlit("days");
    reveal_strlit("day");
    reveal_strlit("dys");
    reveal_strlit("dy");
    reveal_strlit("d");
    reveal_strlit("D");
    reveal_strlit("weeks");
    reveal_strlit("week");
    reveal_strlit("wks");
    reveal_strlit("wk");
    reveal_strlit("w");
    reveal_strlit("W");
    reveal_strlit("years");
    reveal_strlit("year");
    reveal_strlit("yrs");
    reveal_strlit("yr");
    reveal_strlit("y");
    reveal_strlit("Y");
    reveal_strlit("nanos");
    reveal_strlit("nsec");
    reveal_strlit("ns");
    reveal_strlit("micros");
    reveal_strlit("usec");
    reveal_strlit("us");
    reveal_strlit("millis");
    reveal_strlit("msec");
    reveal_strlit("ms");
    reveal_strlit("seconds");
    reveal_strlit("second");
    reveal_strlit("secs");
    reveal_strlit("sec");
    reveal_strlit("s");
    reveal_strlit("minutes");
    reveal_strlit("minute");
    reveal_strlit("mins");
    reveal_strlit("min");
    reveal_strlit("m");
    reveal_strlit("hours");
    reveal_strlit("hour");
    reveal_strlit("hrs");
    reveal_strlit("hr");
    reveal_strlit("h");
    reveal_strlit("H");
    assert(!match_at(s, p, "months"@)) by {
        if match_at(s, p, "months"@) {
            assert(s.subrange(p, p + 6)[1] == s[p + 1]);
            assert(s.subrange(p, p + 6)[1] == s[p + 1]);
            assert(false);
        }
    };
    assert(!match_at(s, p, "month"@)) by {
        if match_at(s, p, "month"@) {
            assert(s.subrange(p, p + 5)[1] == s[p + 1]);
            assert(s.subrange(p, p + 6)[1] == s[p + 1]);
            assert(false);
        }
    };
    assert(!match_at(s, p, "mths"@)) by {
        if match_at(s, p, "mths"@) {
            assert(s.subrange(p, p + 4)[1] == s[p + 1]);
            assert(s.subrange(p, p + 6)[1] == s[p + 1]);
            assert(false);
        }
    };
    assert(!match_at(s, p, "mth"@)) by {
        if match_at(s, p, "mth"@) {
            assert(s.subrange(p, p + 3)[1] == s[p + 1]);
            assert(s.subrange(p, p + 6)[1] == s[p + 1]);
            assert(false);
        }
    };
    assert(!match_at(s, p, "M"@)) by {
        if match_at(s, p, "M"@) {
            assert(s.subrange(p, p + 1)[0] == s[p + 0]);
            assert(s.subrange(p, p + 6)[0] == s[p + 0]);
            assert(false);
        }
    };
    assert(!match_at(s, p, "days"@)) by {
        if match_at(s, p, "days"@) {
            assert(s.subrange(p, p + 4)[0] == s[p + 0]);
            assert(s.subrange(p, p + 6)[0] == s[p + 0]);
            assert(false);
        }
    };
    assert(!match_at(s, p, "day"@)) by {
        if match_at(s, p, "day"@) {
            assert(s.subrange(p, p + 3)[0] == s[p + 0]);
            assert(s.subrange(p, p + 6)[0] == s[p + 0]);
            assert(false);
        }
    };
    assert(!match_at(s, p, "dys"@)) by {
        if match_at(s, p, "dys"@) {
            assert(s.subrange(p, p + 3)[0] == s[p + 0]);
            assert(s.subrange(p, p + 6)[0] == s[p + 0]);
            assert(false);
        }
    };
    assert(!match_at(s, p, "dy"@)) by {
        if match_at(s, p, "dy"@) {
            assert(s.subrange(p, p + 2)[0] == s[p + 0]);
            assert(s.subrange(p, p + 6)[0] == s[p + 0]);
            assert(false);
        }
    };
    assert(!match_at(s, p, "d"@)) by {
        if match_at(s, p, "d"@) {
            assert(s.subrange(p, p + 1)[0] == s[p + 0]);
            assert(s.subrange(p, p + 6)[0] == s[p + 0]);
            assert(false);
        }
    };
    assert(!match_at(s, p, "D"@)) by {
        if match_at(s, p, "D"@) {
            assert(s.subrange(p, p + 1)[0] == s[p + 0]);
            assert(s.subrange(p, p + 6)[0] == s[p + 0]);
            assert(false);
        }
    };
    assert(!match_at(s, p, "weeks"@)) by {
        if match_at(s, p, "weeks"@) {
            assert(s.subrange(p, p + 5)[0] == s[p + 0]);
            assert(s.subrange(p, p + 6)[0] == s[p + 0]);
            assert(false);
        }
    };
    assert(!match_at(s, p, "week"@)) by {
        if match_at(s, p, "week"@) {
            assert(s.subrange(p, p + 4)[0] == s[p + 0]);
            assert(s.subrange(p, p + 6)[0] == s[p + 0]);
            assert(false);
        }
    };
    assert(!match_at(s, p, "wks"@)) by {
        if match_at(s, p, "wks"@) {
            assert(s.subrange(p, p + 3)[0] == s[p + 0]);
            assert(s.subrange(p, p + 6)[0] == s[p + 0]);
            assert(false);
        }
    };
    assert(!match_at(s, p, "wk"@)) by {
        if match_at(s, p, "wk"@) {
            assert(s.subrange(p, p + 2)[0] == s[p + 0]);
            assert(s.subrange(p, p + 6)[0] == s[p + 0]);
            assert(false);
        }
    };
    assert(!match_at(s, p, "w"@)) by {
        if match_at(s, p, "w"@) {
            assert(s.subrange(p, p + 1)[0] == s[p + 0]);
            assert(s.subrange(p, p + 6)[0] == s[p + 0]);
            assert(false);
        }
    };
    assert(!match_at(s, p, "W"@)) by {
        if match_at(s, p, "W"@) {
            assert(s.subrange(p, p + 1)[0] == s[p + 0]);
            assert(s.subrange(p, p + 6)[0] == s[p + 0]);
            assert(false);
        }
    };
    assert(!match_at(s, p, "years"@)) by {
        if match_at(s, p, "years"@) {
            assert(s.subrange(p, p + 5)[0] == s[p + 0]);
            assert(s.subrange(p, p + 6)[0] == s[p + 0]);
            assert(false);
        }
    };
    assert(!match_at(s, p, "year"@)) by {
        if match_at(s, p, "year"@) {
            assert(s.subrange(p, p + 4)[0] == s[p + 0]);
            assert(s.subrange(p, p + 6)[0] == s[p + 0]);
            assert(false);
        }
    };
    assert(!match_at(s, p, "yrs"@)) by {
        if match_at(s, p, "yrs"@) {
            assert(s.subrange(p, p + 3)[0] == s[p + 0]);
            assert(s.subrange(p, p + 6)[0] == s[p + 0]);
            assert(false);
        }
    };
    assert(!match_at(s, p, "yr"@)) by {
        if match_at(s, p, "yr"@) {
            assert(s.subrange(p, p + 2)[0] == s[p + 0]);
            assert(s.subrange(p, p + 6)[0] == s[p + 0]);
            assert(false);
        }
    };
    assert(!match_at(s, p, "y"@)) by {
        if match_at(s, p, "y"@) {
            assert(s.subrange(p, p + 1)[0] == s[p + 0]);
            assert(s.subrange(p, p + 6)[0] == s[p + 0]);
            assert(false);
        }
    };
    assert(!match_at(s, p, "Y"@)) by {
        if match_at(s, p, "Y"@) {
            assert(s.subrange(p, p + 1)[0] == s[p + 0]);
            assert(s.subrange(p, p + 6)[0] == s[p + 0]);
            assert(false);
        }
    };
    assert(!match_at(s, p, "nanos"@)) by {
        if match_at(s, p, "nanos"@) {
            assert(s.subrange(p, p + 5)[0] == s[p + 0]);
            assert(s.subrange(p, p + 6)[0] == s[p + 0]);
            assert(false);
        }
    };
    assert(!match_at(s, p, "nsec"@)) by {
        if match_at(s, p, "nsec"@) {
            assert(s.subrange(p, p + 4)[0] == s[p + 0]);
            assert(s.subrange(p, p + 6)[0] == s[p + 0]);
            assert(false);
        }
    };
    assert(!match_at(s, p, "ns"@)) by {
        if match_at(s, p, "ns"@) {
            assert(s.subrange(p, p + 2)[0] == s[p + 0]);
            assert(s.subrange(p, p + 6)[0] == s[p + 0]);
            assert(false);
        }
    };
    assert(match_at(s, p, "micros"@));
}

/// With `usec` at `p` and a blank right after it, the resolver yields `Micros`.
proof fn lemma_mid_micros_usec(s: Seq<char>, p: int)
    requires
        0 <= p,
        p + 4 < s.len(),
        s.subrange(p, p + 4) == "usec"@,
        crate::scan::is_sep_space(s[p + 4]),
    ensures
        resolve_unit(s, p) == Some((Unit::Micros, p + 4)),
{
    reveal_strlit("months");
    reveal_strlit("month");
    reveal_strlit("mths");
    reveal_strlit("mth");
    reveal_strlit("M");
    reveal_strlit("days");
    reveal_strlit("day");
    reveal_strlit("dys");
    reveal_strlit("dy");
    reveal_strlit("d");
    reveal_strlit("D");
    reveal_strlit("weeks");
    reveal_strlit("week");
    reveal_strlit("wks");
    reveal_strlit("wk");
    reveal_strlit("w");
    reveal_strlit("W");
    reveal_strlit("years");
    reveal_strlit("year");
    reveal_strlit("yrs");
    reveal_strlit("yr");
    reveal_strlit("y");
    reveal_strlit("Y");
    reveal_strlit("nanos");
    reveal_strlit("nsec");
    reveal_strlit("ns");
    reveal_strlit("micros");
    reveal_strlit("usec");
    reveal_strlit("us");
    reveal_strlit("millis");
    reveal_strlit("msec");
    reveal_strlit("ms");
    reveal_strlit("seconds");
    reveal_strlit("second");
    reveal_strlit("secs");
    reveal_strlit("sec");
    reveal_strlit("s");
    reveal_strlit("minutes");
    reveal_strlit("minute");
    reveal_strlit("mins");
    reveal_strlit("min");
    reveal_strlit("m");
    reveal_strlit("hours");
    reveal_strlit("hour");
    reveal_strlit("hrs");
    reveal_strlit("hr");
    reveal_strlit("h");
    reveal_strlit("H");
    assert(!match_at(s, p, "months"@)) by {
        if match_at(s, p, "months"@) {
            assert(s.subrange(p, p + 6)[0] == s[p + 0]);
            assert(s.subrange(p, p + 4)[0] == s[p + 0]);
            assert(false);
        }
    };
    assert(!match_at(s, p, "month"@)) by {
        if match_at(s, p, "month"@) {
            assert(s.subrange(p, p + 5)[0] == s[p + 0]);
            assert(s.subrange(p, p + 4)[0] == s[p + 0]);
            assert(false);
        }
    };
    assert(!match_at(s, p, "mths"@)) by {
        if match_at(s, p, "mths"@) {
            assert(s.subrange(p, p + 4)[0] == s[p + 0]);
            assert(s.subrange(p, p + 4)[0] == s[p + 0]);
            assert(false);
        }
    };
    assert(!match_at(s, p, "mth"@)) by {
        if match_at(s, p, "mth"@) {
            assert(s.subrange(p, p + 3)[0] == s[p + 0]);
            assert(s.subrange(p, p + 4)[0] == s[p + 0]);
            assert(false);
        }
    };
    assert(!match_at(s, p, "M"@)) by {
        if match_at(s, p, "M"@) {
            assert(s.subrange(p, p + 1)[0] == s[p + 0]);
            assert(s.subrange(p, p + 4)[0] == s[p + 0]);
            assert(false);
        }
    };
    assert(!match_at(s, p, "days"@)) by {
        if match_at(s, p, "days"@) {
            assert(s.subrange(p, p + 4)[0] == s[p + 0]);
            assert(s.subrange(p, p + 4)[0] == s[p + 0]);
            assert(false);
        }
    };
    assert(!match_at(s, p, "day"@)) by {
        if match_at(s, p, "day"@) {
            assert(s.subrange(p, p + 3)[0] == s[p + 0]);
            assert(s.subrange(p, p + 4)[0] == s[p + 0]);
            assert(false);
        }
    };
    assert(!match_at(s, p, "dys"@)) by {
        if match_at(s, p, "dys"@) {
            assert(s.subrange(p, p + 3)[0] == s[p + 0]);
            assert(s.subrange(p, p + 4)[0] == s[p + 0]);
            assert(false);
        }
    };
    assert(!match_at(s, p, "dy"@)) by {
        if match_at(s, p, "dy"@) {
            assert(s.subrange(p, p + 2)[0] == s[p + 0]);
            assert(s.subrange(p, p + 4)[0] == s[p + 0]);
            assert(false);
        }
    };
    assert(!match_at(s, p, "d"@)) by {
        if match_at(s, p, "d"@) {
            assert(s.subrange(p, p + 1)[0] == s[p + 0]);
            assert(s.subrange(p, p + 4)[0] == s[p + 0]);
            assert(false);
        }
    };
    assert(!match_at(s, p, "D"@)) by {
        if match_at(s, p, "D"@) {
            assert(s.subrange(p, p + 1)[0] == s[p + 0]);
            assert(s.subrange(p, p + 4)[0] == s[p + 0]);
            assert(false);
        }
    };
    assert(!match_at(s, p, "weeks"@)) by {
        if match_at(s, p, "weeks"@) {
            assert(s.subrange(p, p + 5)[0] == s[p + 0]);
            assert(s.subrange(p, p + 4)[0] == s[p + 0]);
            assert(false);
        }
    };
    assert(!match_at(s, p, "week"@)) by {
        if match_at(s, p, "week"@) {
            assert(s.subrange(p, p + 4)[0] == s[p + 0]);
            assert(s.subrange(p, p + 4)[0] == s[p + 0]);
            assert(false);
        }
    };
    assert(!match_at(s, p, "wks"@)) by {
        if match_at(s, p, "wks"@) {
            assert(s.subrange(p, p + 3)[0] == s[p + 0]);
            assert(s.subrange(p, p + 4)[0] == s[p + 0]);
            assert(false);
        }
    };
    assert(!match_at(s, p, "wk"@)) by {
        if match_at(s, p, "wk"@) {
            assert(s.subrange(p, p + 2)[0] == s[p + 0]);
            assert(s.subrange(p, p + 4)[0] == s[p + 0]);
            assert(false);
        }
    };
    assert(!match_at(s, p, "w"@)) by {
        if match_at(s, p, "w"@) {
            assert(s.subrange(p, p + 1)[0] == s[p + 0]);
            assert(s.subrange(p, p + 4)[0] == s[p + 0]);
            assert(false);
        }
    };
    assert(!match_at(s, p, "W"@)) by {
        if match_at(s, p, "W"@) {
            assert(s.subrange(p, p + 1)[0] == s[p + 0]);
            assert(s.subrange(p, p + 4)[0] == s[p + 0]);
            assert(false);
        }
    };
    assert(!match_at(s, p, "years"@)) by {
        if match_at(s, p, "years"@) {
            assert(s.subrange(p, p + 5)[0] == s[p + 0]);
            assert(s.subrange(p, p + 4)[0] == s[p + 0]);
            assert(false);
        }
    };
    assert(!match_at(s, p, "year"@)) by {
        if match_at(s, p, "year"@) {
            assert(s.subrange(p, p + 4)[0] == s[p + 0]);
            assert(s.subrange(p, p + 4)[0] == s[p + 0]);
            assert(false);
        }
    };
    assert(!match_at(s, p, "yrs"@)) by {
        if match_at(s, p, "yrs"@) {
            assert(s.subrange(p, p + 3)[0] == s[p + 0]);
            assert(s.subrange(p, p + 4)[0] == s[p + 0]);
            assert(false);
        }
    };
    assert(!match_at(s, p, "yr"@)) by {
        if match_at(s, p, "yr"@) {
            assert(s.subrange(p, p + 2)[0] == s[p + 0]);
            assert(s.subrange(p, p + 4)[0] == s[p + 0]);
            assert(false);
        }
    };
    assert(!match_at(s, p, "y"@)) by {
        if match_at(s, p, "y"@) {
            assert(s.subrange(p, p + 1)[0] == s[p + 0]);
            assert(s.subrange(p, p + 4)[0] == s[p + 0]);
            assert(false);
        }
    };
    assert(!match_at(s, p, "Y"@)) by {
        if match_at(s, p, "Y"@) {
            assert(s.subrange(p, p + 1)[0] == s[p + 0]);
            assert(s.subrange(p, p + 4)[0] == s[p + 0]);
            assert(false);
        }
    };
    assert(!match_at(s, p, "nanos"@)) by {
        if match_at(s, p, "nanos"@) {
            assert(s.subrange(p, p + 5)[0] == s[p + 0]);
            assert(s.subrange(p, p + 4)[0] == s[p + 0]);
            assert(false);
        }
    };
    assert(!match_at(s, p, "nsec"@)) by {
        if match_at(s, p, "nsec"@) {
            assert(s.subrange(p, p + 4)[0] == s[p + 0]);
            assert(s.subrange(p, p + 4)[0] == s[p + 0]);
            assert(false);
        }
    };
    assert(!match_at(s, p, "ns"@)) by {
        if match_at(s, p, "ns"@) {
            assert(s.subrange(p, p + 2)[0] == s[p + 0]);
            assert(s.subrange(p, p + 4)[0] == s[p + 0]);
            assert(false);
        }
    };
    assert(!match_at(s, p, "micros"@)) by {
        if match_at(s, p, "micros"@) {
            assert(s.subrange(p, p + 6)[0] == s[p + 0]);
            assert(s.subrange(p, p + 4)[0] == s[p + 0]);
            assert(false);
        }
    };
    assert(match_at(s, p, "usec"@));
}

/// With `us` at `p` and a blank right after it, the resolver yields `Micros`.
proof fn lemma_mid_micros_us(s: Seq<char>, p: int)
    requires
        0 <= p,
        p + 2 < s.len(),
        s.subrange(p, p + 2) == "us"@,
        crate::scan::is_sep_space(s[p + 2]),
    ensures
        resolve_unit(s, p) == Some((Unit::Micros, p + 2)),
{
    reveal_strlit("months");
    reveal_strlit("month");
    reveal_strlit("mths");
    reveal_strlit("mth");
    reveal_strlit("M");
    reveal_strlit("days");
    reveal_strlit("day");
    reveal_strlit("dys");
    reveal_strlit("dy");
    reveal_strlit("d");
    reveal_strlit("D");
    reveal_strlit("weeks");
    reveal_strlit("week");
    reveal_strlit("wks");
    reveal_strlit("wk");
    reveal_strlit("w");
    reveal_strlit("W");
    reveal_strlit("years");
    reveal_strlit("year");
    reveal_strlit("yrs");
    reveal_strlit("yr");
    reveal_strlit("y");
    reveal_strlit("Y");
    reveal_strlit("nanos");
    reveal_strlit("nsec");
    reveal_strlit("ns");
    reveal_strlit("micros");
    reveal_strlit("usec");
    reveal_strlit("us");
    reveal_strlit("millis");
    reveal_strlit("msec");
    reveal_strlit("ms");
    reveal_strlit("seconds");
    reveal_strlit("second");
    reveal_strlit("secs");
    reveal_strlit("sec");
    reveal_strlit("s");
    reveal_strlit("minutes");
    reveal_strlit("minute");
    reveal_strlit("mins");
    reveal_strlit("min");
    reveal_strlit("m");
    reveal_strlit("hours");
    reveal_strlit("hour");
    reveal_strlit("hrs");
    reveal_strlit("hr");
    reveal_strlit("h");
    reveal_strlit("H");
    assert(!match_at(s, p, "months"@)) by {
        if match_at(s, p, "months"@) {
            assert(s.subrange(p, p + 6)[0] == s[p + 0]);
            assert(s.subrange(p, p + 2)[0] == s[p + 0]);
            assert(false);
        }
    };
    assert(!match_at(s, p, "month"@)) by {
        if match_at(s, p, "month"@) {
            assert(s.subrange(p, p + 5)[0] == s[p + 0]);
            assert(s.subrange(p, p + 2)[0] == s[p + 0]);
            assert(false);
        }
    };
    assert(!match_at(s, p, "mths"@)) by {
        if match_at(s, p, "mths"@) {
            assert(s.subrange(p, p + 4)[0] == s[p + 0]);
            assert(s.subrange(p, p + 2)[0] == s[p + 0]);
            assert(false);
        }
    };
    assert(!match_at(s, p, "mth"@)) by {
        if match_at(s, p, "mth"@) {
            assert(s.subrange(p, p + 3)[0] == s[p + 0]);
            assert(s.subrange(p, p + 2)[0] == s[p + 0]);
            assert(false);
        }
    };
    assert(!match_at(s, p, "M"@)) by {
        if match_at(s, p, "M"@) {
            assert(s.subrange(p, p + 1)[0] == s[p + 0]);
            assert(s.subrange(p, p + 2)[0] == s[p + 0]);
            assert(false);
        }
    };
    assert(!match_at(s, p, "days"@)) by {
        if match_at(s, p, "days"@) {
            assert(s.subrange(p, p + 4)[0] == s[p + 0]);
            assert(s.subrange(p, p + 2)[0] == s[p + 0]);
            assert(false);
        }
    };
    assert(!match_at(s, p, "day"@)) by {
        if match_at(s, p, "day"@) {
            assert(s.subrange(p, p + 3)[0] == s[p + 0]);
            assert(s.subrange(p, p + 2)[0] == s[p + 0]);
            assert(false);
        }
    };
    assert(!match_at(s, p, "dys"@)) by {
        if match_at(s, p, "dys"@) {
            assert(s.subrange(p, p + 3)[0] == s[p + 0]);
            assert(s.subrange(p, p + 2)[0] == s[p + 0]);
            assert(false);
        }
    };
    assert(!match_at(s, p, "dy"@)) by {
        if match_at(s, p, "dy"@) {
            assert(s.subrange(p, p + 2)[0] == s[p + 0]);
            assert(s.subrange(p, p + 2)[0] == s[p + 0]);
            assert(false);
        }
    };
    assert(!match_at(s, p, "d"@)) by {
        if match_at(s, p, "d"@) {
            assert(s.subrange(p, p + 1)[0] == s[p + 0]);
            assert(s.subrange(p, p + 2)[0] == s[p + 0]);
            assert(false);
        }
    };
    assert(!match_at(s, p, "D"@)) by {
        if match_at(s, p, "D"@) {
            assert(s.subrange(p, p + 1)[0] == s[p + 0]);
            assert(s.subrange(p, p + 2)[0] == s[p + 0]);
            assert(false);
        }
    };
    assert(!match_at(s, p, "weeks"@)) by {
        if match_at(s, p, "weeks"@) {
            assert(s.subrange(p, p + 5)[0] == s[p + 0]);
            assert(s.subrange(p, p + 2)[0] == s[p + 0]);
            assert(false);
        }
    };
    assert(!match_at(s, p, "week"@)) by {
        if match_at(s, p, "week"@) {
            assert(s.subrange(p, p + 4)[0] == s[p + 0]);
            assert(s.subrange(p, p + 2)[0] == s[p + 0]);
            assert(false);
        }
    };
    assert(!match_at(s, p, "wks"@)) by {
        if match_at(s, p, "wks"@) {
            assert(s.subrange(p, p + 3)[0] == s[p + 0]);
            assert(s.subrange(p, p + 2)[0] == s[p + 0]);
            assert(false);
        }
    };
    assert(!match_at(s, p, "wk"@)) by {
        if match_at(s, p, "wk"@) {
            assert(s.subrange(p, p + 2)[0] == s[p + 0]);
            assert(s.subrange(p, p + 2)[0] == s[p + 0]);
            assert(false);
        }
    };
    assert(!match_at(s, p, "w"@)) by {
        if match_at(s, p, "w"@) {
            assert(s.subrange(p, p + 1)[0] == s[p + 0]);
            assert(s.subrange(p, p + 2)[0] == s[p + 0]);
            assert(false);
        }
    };
    assert(!match_at(s, p, "W"@)) by {
        if match_at(s, p, "W"@) {
            assert(s.subrange(p, p + 1)[0] == s[p + 0]);
            assert(s.subrange(p, p + 2)[0] == s[p + 0]);
            assert(false);
        }
    };
    assert(!match_at(s, p, "years"@)) by {
        if match_at(s, p, "years"@) {
            assert(s.subrange(p, p + 5)[0] == s[p + 0]);
            assert(s.subrange(p, p + 2)[0] == s[p + 0]);
            assert(false);
        }
    };
    assert(!match_at(s, p, "year"@)) by {
        if match_at(s, p, "year"@) {
            assert(s.subrange(p, p + 4)[0] == s[p + 0]);
            assert(s.subrange(p, p + 2)[0] == s[p + 0]);
            assert(false);
        }
    };
    assert(!match_at(s, p, "yrs"@)) by {
        if match_at(s, p, "yrs"@) {
            assert(s.subrange(p, p + 3)[0] == s[p + 0]);
            assert(s.subrange(p, p + 2)[0] == s[p + 0]);
            assert(false);
        }
    };
    assert(!match_at(s, p, "yr"@)) by {
        if match_at(s, p, "yr"@) {
            assert(s.subrange(p, p + 2)[0] == s[p + 0]);
            assert(s.subrange(p, p + 2)[0] == s[p + 0]);
            assert(false);
        }
    };
    assert(!match_at(s, p, "y"@)) by {
        if match_at(s, p, "y"@) {
            assert(s.subrange(p, p + 1)[0] == s[p + 0]);
            assert(s.subrange(p, p + 2)[0] == s[p + 0]);
            assert(false);
        }
    };
    assert(!match_at(s, p, "Y"@)) by {
        if match_at(s, p, "Y"@) {
            assert(s.subrange(p, p + 1)[0] == s[p + 0]);
            assert(s.subrange(p, p + 2)[0] == s[p + 0]);
            assert(false);
        }
    };
    assert(!match_at(s, p, "nanos"@)) by {
        if match_at(s, p, "nanos"@) {
            assert(s.subrange(p, p + 5)[0] == s[p + 0]);
            assert(s.subrange(p, p + 2)[0] == s[p + 0]);
            assert(false);
        }
    };
    assert(!match_at(s, p, "nsec"@)) by {
        if match_at(s, p, "nsec"@) {
            assert(s.subrange(p, p + 4)[0] == s[p + 0]);
            assert(s.subrange(p, p + 2)[0] == s[p + 0]);
            assert(false);
        }
    };
    assert(!match_at(s, p, "ns"@)) by {
        if match_at(s, p, "ns"@) {
            assert(s.subrange(p, p + 2)[0] == s[p + 0]);
            assert(s.subrange(p, p + 2)[0] == s[p + 0]);
            assert(false);
        }
    };
    assert(!match_at(s, p, "micros"@)) by {
        if match_at(s, p, "micros"@) {
            assert(s.subrange(p, p + 6)[0] == s[p + 0]);
            assert(s.subrange(p, p + 2)[0] == s[p + 0]);
            assert(false);
        }
    };
    assert(!match_at(s, p, "usec"@)) by {
        if match_at(s, p, "usec"@) {
            assert(s.subrange(p, p + 4)[2] == s[p + 2]);
            assert(false);
        }
    };
    assert(match_at(s, p, "us"@));
}

/// With `millis` at `p` and a blank right after it, the resolver yields `Millis`.
proof fn lemma_mid_millis_millis(s: Seq<char>, p: int)
    requires
        0 <= p,
        p + 6 < s.len(),
        s.subrange(p, p + 6) == "millis"@,
        crate::scan::is_sep_space(s[p + 6]),
    ensures
        resolve_unit(s, p) == Some((Unit::Millis, p + 6)),
{
    reveal_strlit("months");
    reveal_strlit("month");
    reveal_strlit("mths");
    reveal_strlit("mth");
    reveal_strlit("M");
    reveal_strlit("days");
    reveal_strlit("day");
    reveal_strlit("dys");
    reveal_strlit("dy");
    reveal_strlit("d");
    reveal_strlit("D");
    reveal_strlit("weeks");
    reveal_strlit("week");
    reveal_strlit("wks");
    reveal_strlit("wk");
    reveal_strlit("w");
    reveal_strlit("W");
    reveal_strlit("years");
    reveal_strlit("year");
    reveal_strlit("yrs");
    reveal_strlit("yr");
    reveal_strlit("y");
    reveal_strlit("Y");
    reveal_strlit("nanos");
    reveal_strlit("nsec");
    reveal_strlit("ns");
    reveal_strlit("micros");
    reveal_strlit("usec");
    reveal_strlit("us");
    reveal_strlit("millis");
    reveal_strlit("msec");
    reveal_strlit("ms");
    reveal_strlit("seconds");
    reveal_strlit("second");
    reveal_strlit("secs");
    reveal_strlit("sec");
    reveal_strlit("s");
    reveal_strlit("minutes");
    reveal_strlit("minute");
    reveal_strlit("mins");
    reveal_strlit("min");
    reveal_strlit("m");
    reveal_strlit("hours");
    reveal_strlit("hour");
    reveal_strlit("hrs");
    reveal_strlit("hr");
    reveal_strlit("h");
    reveal_strlit("H");
    assert(!match_at(s, p, "months"@)) by {
        if match_at(s, p, "months"@) {
            assert(s.subrange(p, p + 6)[1] == s[p + 1]);
            assert(s.subrange(p, p + 6)[1] == s[p + 1]);
            assert(false);
        }
    };
    assert(!match_at(s, p, "month"@)) by {
        if match_at(s, p, "month"@) {
            assert(s.subrange(p, p + 5)[1] == s[p + 1]);
            assert(s.subrange(p, p + 6)[1] == s[p + 1]);
            assert(false);
        }
    };
    assert(!match_at(s, p, "mths"@)) by {
        if match_at(s, p, "mths"@) {
            assert(s.subrange(p, p + 4)[1] == s[p + 1]);
            assert(s.subrange(p, p + 6)[1] == s[p + 1]);
            assert(false);
        }
    };
    assert(!match_at(s, p, "mth"@)) by {
        if match_at(s, p, "mth"@) {
            assert(s.subrange(p, p + 3)[1] == s[p + 1]);
            assert(s.subrange(p, p + 6)[1] == s[p + 1]);
            assert(false);
        }
    };
    assert(!match_at(s, p, "M"@)) by {
        if match_at(s, p, "M"@) {
            assert(s.subrange(p, p + 1)[0] == s[p + 0]);
            assert(s.subrange(p, p + 6)[0] == s[p + 0]);
            assert(false);
        }
    };
    assert(!match_at(s, p, "days"@)) by {
        if match_at(s, p, "days"@) {
            assert(s.subrange(p, p + 4)[0] == s[p + 0]);
            assert(s.subrange(p, p + 6)[0] == s[p + 0]);
            assert(false);
        }
    };
    assert(!match_at(s, p, "day"@)) by {
        if match_at(s, p, "day"@) {
            assert(s.subrange(p, p + 3)[0] == s[p + 0]);
            assert(s.subrange(p, p + 6)[0] == s[p + 0]);
            assert(false);
        }
    };
    assert(!match_at(s, p, "dys"@)) by {
        if match_at(s, p, "dys"@) {
            assert(s.subrange(p, p + 3)[0] == s[p + 0]);
            assert(s.subrange(p, p + 6)[0] == s[p + 0]);
            assert(false);
        }
    };
    assert(!match_at(s, p, "dy"@)) by {
        if match_at(s, p, "dy"@) {
            assert(s.subrange(p, p + 2)[0] == s[p + 0]);
            assert(s.subrange(p, p + 6)[0] == s[p + 0]);
            assert(false);
        }
    };
    assert(!match_at(s, p, "d"@)) by {
        if match_at(s, p, "d"@) {
            assert(s.subrange(p, p + 1)[0] == s[p + 0]);
            assert(s.subrange(p, p + 6)[0] == s[p + 0]);
            assert(false);
        }
    };
    assert(!match_at(s, p, "D"@)) by {
        if match_at(s, p, "D"@) {
            assert(s.subrange(p, p + 1)[0] == s[p + 0]);
            assert(s.subrange(p, p + 6)[0] == s[p + 0]);
            assert(false);
        }
    };
    assert(!match_at(s, p, "weeks"@)) by {
        if match_at(s, p, "weeks"@) {
            assert(s.subrange(p, p + 5)[0] == s[p + 0]);
            assert(s.subrange(p, p + 6)[0] == s[p + 0]);
            assert(false);
        }
    };
    assert(!match_at(s, p, "week"@)) by {
        if match_at(s, p, "week"@) {
            assert(s.subrange(p, p + 4)[0] == s[p + 0]);
            assert(s.subrange(p, p + 6)[0] == s[p + 0]);
            assert(false);
        }
    };
    assert(!match_at(s, p, "wks"@)) by {
        if match_at(s, p, "wks"@) {
            assert(s.subrange(p, p + 3)[0] == s[p + 0]);
            assert(s.subrange(p, p + 6)[0] == s[p + 0]);
            assert(false);
        }
    };
    assert(!match_at(s, p, "wk"@)) by {
        if match_at(s, p, "wk"@) {
            assert(s.subrange(p, p + 2)[0] == s[p + 0]);
            assert(s.subrange(p, p + 6)[0] == s[p + 0]);
            assert(false);
        }
    };
    assert(!match_at(s, p, "w"@)) by {
        if match_at(s, p, "w"@) {
            assert(s.subrange(p, p + 1)[0] == s[p + 0]);
            assert(s.subrange(p, p + 6)[0] == s[p + 0]);
            assert(false);
        }
    };
    assert(!match_at(s, p, "W"@)) by {
        if match_at(s, p, "W"@) {
            assert(s.subrange(p, p + 1)[0] == s[p + 0]);
            assert(s.subrange(p, p + 6)[0] == s[p + 0]);
            assert(false);
        }
    };
    assert(!match_at(s, p, "years"@)) by {
        if match_at(s, p, "years"@) {
            assert(s.subrange(p, p + 5)[0] == s[p + 0]);
            assert(s.subrange(p, p + 6)[0] == s[p + 0]);
            assert(false);
        }
    };
    assert(!match_at(s, p, "year"@)) by {
        if match_at(s, p, "year"@) {
            assert(s.subrange(p, p + 4)[0] == s[p + 0]);
            assert(s.subrange(p, p + 6)[0] == s[p + 0]);
            assert(false);
        }
    };
    assert(!match_at(s, p, "yrs"@)) by {
        if match_at(s, p, "yrs"@) {
            assert(s.subrange(p, p + 3)[0] == s[p + 0]);
            assert(s.subrange(p, p + 6)[0] == s[p + 0]);
            assert(false);
        }
    };
    assert(!match_at(s, p, "yr"@)) by {
        if match_at(s, p, "yr"@) {
            assert(s.subrange(p, p + 2)[0] == s[p + 0]);
            assert(s.subrange(p, p + 6)[0] == s[p + 0]);
            assert(false);
        }
    };
    assert(!match_at(s, p, "y"@)) by {
        if match_at(s, p, "y"@) {
            assert(s.subrange(p, p + 1)[0] == s[p + 0]);
            assert(s.subrange(p, p + 6)[0] == s[p + 0]);
            assert(false);
        }
    };
    assert(!match_at(s, p, "Y"@)) by {
        if match_at(s, p, "Y"@) {
            assert(s.subrange(p, p + 1)[0] == s[p + 0]);
            assert(s.subrange(p, p + 6)[0] == s[p + 0]);
            assert(false);
        }
    };
    assert(!match_at(s, p, "nanos"@)) by {
        if match_at(s, p, "nanos"@) {
            assert(s.subrange(p, p + 5)[0] == s[p + 0]);
            assert(s.subrange(p, p + 6)[0] == s[p + 0]);
            assert(false);
        }
    };
    assert(!match_at(s, p, "nsec"@)) by {
        if match_at(s, p, "nsec"@) {
            assert(s.subrange(p, p + 4)[0] == s[p + 0]);
            assert(s.subrange(p, p + 6)[0] == s[p + 0]);
            assert(false);
        }
    };
    assert(!match_at(s, p, "ns"@)) by {
        if match_at(s, p, "ns"@) {
            assert(s.subrange(p, p + 2)[0] == s[p + 0]);
            assert(s.subrange(p, p + 6)[0] == s[p + 0]);
            assert(false);
        }
    };
    assert(!match_at(s, p, "micros"@)) by {
        if match_at(s, p, "micros"@) {
            assert(s.subrange(p, p + 6)[2] == s[p + 2]);
            assert(s.subrange(p, p + 6)[2] == s[p + 2]);
            assert(false);
        }
    };
    assert(!match_at(s, p, "usec"@)) by {
        if match_at(s, p, "usec"@) {
            assert(s.subrange(p, p + 4)[0] == s[p + 0]);
            assert(s.subrange(p, p + 6)[0] == s[p + 0]);
            assert(false);
        }
    };
    assert(!match_at(s, p, "us"@)) by {
        if match_at(s, p, "us"@) {
            assert(s.subrange(p, p + 2)[0] == s[p + 0]);
            assert(s.subrange(p, p + 6)[0] == s[p + 0]);
            assert(false);
        }
    };
    assert(match_at(s, p, "millis"@));
}

/// With `msec` at `p` and a blank right after it, the resolver yields `Millis`.
proof fn lemma_mid_millis_msec(s: Seq<char>, p: int)
    requires
        0 <= p,
        p + 4 < s.len(),
        s.subrange(p, p + 4) == "msec"@,
        crate::scan::is_sep_space(s[p + 4]),
    ensures
        resolve_unit(s, p) == Some((Unit::Millis, p + 4)),
{
    reveal_strlit("months");
    reveal_strlit("month");
    reveal_strlit("mths");
    reveal_strlit("mth");
    reveal_strlit("M");
    reveal_strlit("days");
    reveal_strlit("day");
    reveal_strlit("dys");
    reveal_strlit("dy");
    reveal_strlit("d");
    reveal_strlit("D");
    reveal_strlit("weeks");
    reveal_strlit("week");
    reveal_strlit("wks");
    reveal_strlit("wk");
    reveal_strlit("w");
    reveal_strlit("W");
    reveal_strlit("years");
    reveal_strlit("year");
    reveal_strlit("yrs");
    reveal_strlit("yr");
    reveal_strlit("y");
    reveal_strlit("Y");
    reveal_strlit("nanos");
    reveal_strlit("nsec");
    reveal_strlit("ns");
    reveal_strlit("micros");
    reveal_strlit("usec");
    reveal_strlit("us");
    reveal_strlit("millis");
    reveal_strlit("msec");
    reveal_strlit("ms");
    reveal_strlit("seconds");
    reveal_strlit("second");
    reveal_strlit("secs");
    reveal_strlit("sec");
    reveal_strlit("s");
    reveal_strlit("minutes");
    reveal_strlit("minute");
    reveal_strlit("mins");
    reveal_strlit("min");
    reveal_strlit("m");
    reveal_strlit("hours");
    reveal_strlit("hour");
    reveal_strlit("hrs");
    reveal_strlit("hr");
    reveal_strlit("h");
    reveal_strlit("H");
    assert(!match_at(s, p, "months"@)) by {
        if match_at(s, p, "months"@) {
            assert(s.subrange(p, p + 6)[1] == s[p + 1]);
            assert(s.subrange(p, p + 4)[1] == s[p + 1]);
            assert(false);
        }
    };
    assert(!match_at(s, p, "month"@)) by {
        if match_at(s, p, "month"@) {
            assert(s.subrange(p, p + 5)[1] == s[p + 1]);
            assert(s.subrange(p, p + 4)[1] == s[p + 1]);
            assert(false);
        }
    };
    assert(!match_at(s, p, "mths"@)) by {
        if match_at(s, p, "mths"@) {
            assert(s.subrange(p, p + 4)[1] == s[p + 1]);
            assert(s.subrange(p, p + 4)[1] == s[p + 1]);
            assert(false);
        }
    };
    assert(!match_at(s, p, "mth"@)) by {
        if match_at(s, p, "mth"@) {
            assert(s.subrange(p, p + 3)[1] == s[p + 1]);
            assert(s.subrange(p, p + 4)[1] == s[p + 1]);
            assert(false);
        }
    };
    assert(!match_at(s, p, "M"@)) by {
        if match_at(s, p, "M"@) {
            assert(s.subrange(p, p + 1)[0] == s[p + 0]);
            assert(s.subrange(p, p + 4)[0] == s[p + 0]);
            assert(false);
        }
    };
    assert(!match_at(s, p, "days"@)) by {
        if match_at(s, p, "days"@) {
            assert(s.subrange(p, p + 4)[0] == s[p + 0]);
            assert(s.subrange(p, p + 4)[0] == s[p + 0]);
            assert(false);
        }
    };
    assert(!match_at(s, p, "day"@)) by {
        if match_at(s, p, "day"@) {
            assert(s.subrange(p, p + 3)[0] == s[p + 0]);
            assert(s.subrange(p, p + 4)[0] == s[p + 0]);
            assert(false);
        }
    };
    assert(!match_at(s, p, "dys"@)) by {
        if match_at(s, p, "dys"@) {
            assert(s.subrange(p, p + 3)[0] == s[p + 0]);
            assert(s.subrange(p, p + 4)[0] == s[p + 0]);
            assert(false);
        }
    };
    assert(!match_at(s, p, "dy"@)) by {
        if match_at(s, p, "dy"@) {
            assert(s.subrange(p, p + 2)[0] == s[p + 0]);
            assert(s.subrange(p, p + 4)[0] == s[p + 0]);
            assert(false);
        }
    };
    assert(!match_at(s, p, "d"@)) by {
        if match_at(s, p, "d"@) {
            assert(s.subrange(p, p + 1)[0] == s[p + 0]);
            assert(s.subrange(p, p + 4)[0] == s[p + 0]);
            assert(false);
        }
    };
    assert(!match_at(s, p, "D"@)) by {
        if match_at(s, p, "D"@) {
            assert(s.subrange(p, p + 1)[0] == s[p + 0]);
            assert(s.subrange(p, p + 4)[0] == s[p + 0]);
            assert(false);
        }
    };
    assert(!match_at(s, p, "weeks"@)) by {
        if match_at(s, p, "weeks"@) {
            assert(s.subrange(p, p + 5)[0] == s[p + 0]);
            assert(s.subrange(p, p + 4)[0] == s[p + 0]);
            assert(false);
        }
    };
    assert(!match_at(s, p, "week"@)) by {
        if match_at(s, p, "week"@) {
            assert(s.subrange(p, p + 4)[0] == s[p + 0]);
            assert(s.subrange(p, p + 4)[0] == s[p + 0]);
            assert(false);
        }
    };
    assert(!match_at(s, p, "wks"@)) by {
        if match_at(s, p, "wks"@) {
            assert(s.subrange(p, p + 3)[0] == s[p + 0]);
            assert(s.subrange(p, p + 4)[0] == s[p + 0]);
            assert(false);
        }
    };
    assert(!match_at(s, p, "wk"@)) by {
        if match_at(s, p, "wk"@) {
            assert(s.subrange(p, p + 2)[0] == s[p + 0]);
            assert(s.subrange(p, p + 4)[0] == s[p + 0]);
            assert(false);
        }
    };
    assert(!match_at(s, p, "w"@)) by {
        if match_at(s, p, "w"@) {
            assert(s.subrange(p, p + 1)[0] == s[p + 0]);
            assert(s.subrange(p, p + 4)[0] == s[p + 0]);
            assert(false);
        }
    };
    assert(!match_at(s, p, "W"@)) by {
        if match_at(s, p, "W"@) {
            assert(s.subrange(p, p + 1)[0] == s[p + 0]);
            assert(s.subrange(p, p + 4)[0] == s[p + 0]);
            assert(false);
        }
    };
    assert(!match_at(s, p, "years"@)) by {
        if match_at(s, p, "years"@) {
            assert(s.subrange(p, p + 5)[0] == s[p + 0]);
            assert(s.subrange(p, p + 4)[0] == s[p + 0]);
            assert(false);
        }
    };
    assert(!match_at(s, p, "year"@)) by {
        if match_at(s, p, "year"@) {
            assert(s.subrange(p, p + 4)[0] == s[p + 0]);
            assert(s.subrange(p, p + 4)[0] == s[p + 0]);
            assert(false);
        }
    };
    assert(!match_at(s, p, "yrs"@)) by {
        if match_at(s, p, "yrs"@) {
            assert(s.subrange(p, p + 3)[0] == s[p + 0]);
            assert(s.subrange(p, p + 4)[0] == s[p + 0]);
            assert(false);
        }
    };
    assert(!match_at(s, p, "yr"@)) by {
        if match_at(s, p, "yr"@) {
            assert(s.subrange(p, p + 2)[0] == s[p + 0]);
            assert(s.subrange(p, p + 4)[0] == s[p + 0]);
            assert(false);
        }
    };
    assert(!match_at(s, p, "y"@)) by {
        if match_at(s, p, "y"@) {
            assert(s.subrange(p, p + 1)[0] == s[p + 0]);
            assert(s.subrange(p, p + 4)[0] == s[p + 0]);
            assert(false);
        }
    };
    assert(!match_at(s, p, "Y"@)) by {
        if match_at(s, p, "Y"@) {
            assert(s.subrange(p, p + 1)[0] == s[p + 0]);
            assert(s.subrange(p, p + 4)[0] == s[p + 0]);
            assert(false);
        }
    };
    assert(!match_at(s, p, "nanos"@)) by {
        if match_at(s, p, "nanos"@) {
            assert(s.subrange(p, p + 5)[0] == s[p + 0]);
            assert(s.subrange(p, p + 4)[0] == s[p + 0]);
            assert(false);
        }
    };
    assert(!match_at(s, p, "nsec"@)) by {
        if match_at(s, p, "nsec"@) {
            assert(s.subrange(p, p + 4)[0] == s[p + 0]);
            assert(s.subrange(p, p + 4)[0] == s[p + 0]);
            assert(false);
        }
    };
    assert(!match_at(s, p, "ns"@)) by {
        if match_at(s, p, "ns"@) {
            assert(s.subrange(p, p + 2)[0] == s[p + 0]);
            assert(s.subrange(p, p + 4)[0] == s[p + 0]);
            assert(false);
        }
    };
    assert(!match_at(s, p, "micros"@)) by {
        if match_at(s, p, "micros"@) {
            assert(s.subrange(p, p + 6)[1] == s[p + 1]);
            assert(s.subrange(p, p + 4)[1] == s[p + 1]);
            assert(false);
        }
    };
    assert(!match_at(s, p, "usec"@)) by {
        if match_at(s, p, "usec"@) {
            assert(s.subrange(p, p + 4)[0] == s[p + 0]);
            assert(s.subrange(p, p + 4)[0] == s[p + 0]);
            assert(false);
        }
    };
    assert(!match_at(s, p, "us"@)) by {
        if match_at(s, p, "us"@) {
            assert(s.subrange(p, p + 2)[0] == s[p + 0]);
            assert(s.subrange(p, p + 4)[0] == s[p + 0]);
            assert(false);
        }
    };
    assert(!match_at(s, p, "millis"@)) by {
        if match_at(s, p, "millis"@) {
            assert(s.subrange(p, p + 6)[1] == s[p + 1]);
            assert(s.subrange(p, p + 4)[1] == s[p + 1]);
            assert(false);
        }
    };
    assert(match_at(s, p, "msec"@));
}

/// With `ms` at `p` and a blank right after it, the resolver yields `Millis`.
proof fn lemma_mid_millis_ms(s: Seq<char>, p: int)
    requires
        0 <= p,
        p + 2 < s.len(),
        s.subrange(p, p + 2) == "ms"@,
        crate::scan::is_sep_space(s[p + 2]),
    ensures
        resolve_unit(s, p) == Some((Unit::Millis, p + 2)),
{
    reveal_strlit("months");
    reveal_strlit("month");
    reveal_strlit("mths");
    reveal_strlit("mth");
    reveal_strlit("M");
    reveal_strlit("days");
    reveal_strlit("day");
    reveal_strlit("dys");
    reveal_strlit("dy");
    reveal_strlit("d");
    reveal_strlit("D");
    reveal_strlit("weeks");
    reveal_strlit("week");
    reveal_strlit("wks");
    reveal_strlit("wk");
    reveal_strlit("w");
    reveal_strlit("W");
    reveal_strlit("years");
    reveal_strlit("year");
    reveal_strlit("yrs");
    reveal_strlit("yr");
    reveal_strlit("y");
    reveal_strlit("Y");
    reveal_strlit("nanos");
    reveal_strlit("nsec");
    reveal_strlit("ns");
    reveal_strlit("micros");
    reveal_strlit("usec");
    reveal_strlit("us");
    reveal_strlit("millis");
    reveal_strlit("msec");
    reveal_strlit("ms");
    reveal_strlit("seconds");
    reveal_strlit("second");
    reveal_strlit("secs");
    reveal_strlit("sec");
    reveal_strlit("s");
    reveal_strlit("minutes");
    reveal_strlit("minute");
    reveal_strlit("mins");
    reveal_strlit("min");
    reveal_strlit("m");
    reveal_strlit("hours");
    reveal_strlit("hour");
    reveal_strlit("hrs");
    reveal_strlit("hr");
    reveal_strlit("h");
    reveal_strlit("H");
    assert(!match_at(s, p, "months"@)) by {
        if match_at(s, p, "months"@) {
            assert(s.subrange(p, p + 6)[1] == s[p + 1]);
            assert(s.subrange(p, p + 2)[1] == s[p + 1]);
            assert(false);
        }
    };
    assert(!match_at(s, p, "month"@)) by {
        if match_at(s, p, "month"@) {
            assert(s.subrange(p, p + 5)[1] == s[p + 1]);
            assert(s.subrange(p, p + 2)[1] == s[p + 1]);
            assert(false);
        }
    };
    assert(!match_at(s, p, "mths"@)) by {
        if match_at(s, p, "mths"@) {
            assert(s.subrange(p, p + 4)[1] == s[p + 1]);
            assert(s.subrange(p, p + 2)[1] == s[p + 1]);
            assert(false);
        }
    };
    assert(!match_at(s, p, "mth"@)) by {
        if match_at(s, p, "mth"@) {
            assert(s.subrange(p, p + 3)[1] == s[p + 1]);
            assert(s.subrange(p, p + 2)[1] == s[p + 1]);
            assert(false);
        }
    };
    assert(!match_at(s, p, "M"@)) by {
        if match_at(s, p, "M"@) {
            assert(s.subrange(p, p + 1)[0] == s[p + 0]);
            assert(s.subrange(p, p + 2)[0] == s[p + 0]);
            assert(false);
        }
    };
    assert(!match_at(s, p, "days"@)) by {
        if match_at(s, p, "days"@) {
            assert(s.subrange(p, p + 4)[0] == s[p + 0]);
            assert(s.subrange(p, p + 2)[0] == s[p + 0]);
            assert(false);
        }
    };
    assert(!match_at(s, p, "day"@)) by {
        if match_at(s, p, "day"@) {
            assert(s.subrange(p, p + 3)[0] == s[p + 0]);
            assert(s.subrange(p, p + 2)[0] == s[p + 0]);
            assert(false);
        }
    };
    assert(!match_at(s, p, "dys"@)) by {
        if match_at(s, p, "dys"@) {
            assert(s.subrange(p, p + 3)[0] == s[p + 0]);
            assert(s.subrange(p, p + 2)[0] == s[p + 0]);
            assert(false);
        }
    };
    assert(!match_at(s, p, "dy"@)) by {
        if match_at(s, p, "dy"@) {
            assert(s.subrange(p, p + 2)[0] == s[p + 0]);
            assert(s.subrange(p, p + 2)[0] == s[p + 0]);
            assert(false);
        }
    };
    assert(!match_at(s, p, "d"@)) by {
        if match_at(s, p, "d"@) {
            assert(s.subrange(p, p + 1)[0] == s[p + 0]);
            assert(s.subrange(p, p + 2)[0] == s[p + 0]);
            assert(false);
        }
    };
    assert(!match_at(s, p, "D"@)) by {
        if match_at(s, p, "D"@) {
            assert(s.subrange(p, p + 1)[0] == s[p + 0]);
            assert(s.subrange(p, p + 2)[0] == s[p + 0]);
            assert(false);
        }
    };
    assert(!match_at(s, p, "weeks"@)) by {
        if match_at(s, p, "weeks"@) {
            assert(s.subrange(p, p + 5)[0] == s[p + 0]);
            assert(s.subrange(p, p + 2)[0] == s[p + 0]);
            assert(false);
        }
    };
    assert(!match_at(s, p, "week"@)) by {
        if match_at(s, p, "week"@) {
            assert(s.subrange(p, p + 4)[0] == s[p + 0]);
            assert(s.subrange(p, p + 2)[0] == s[p + 0]);
            assert(false);
        }
    };
    assert(!match_at(s, p, "wks"@)) by {
        if match_at(s, p, "wks"@) {
            assert(s.subrange(p, p + 3)[0] == s[p + 0]);
            assert(s.subrange(p, p + 2)[0] == s[p + 0]);
            assert(false);
        }
    };
    assert(!match_at(s, p, "wk"@)) by {
        if match_at(s, p, "wk"@) {
            assert(s.subrange(p, p + 2)[0] == s[p + 0]);
            assert(s.subrange(p, p + 2)[0] == s[p + 0]);
            assert(false);
        }
    };
    assert(!match_at(s, p, "w"@)) by {
        if match_at(s, p, "w"@) {
            assert(s.subrange(p, p + 1)[0] == s[p + 0]);
            assert(s.subrange(p, p + 2)[0] == s[p + 0]);
            assert(false);
        }
    };
    assert(!match_at(s, p, "W"@)) by {
        if match_at(s, p, "W"@) {
            assert(s.subrange(p, p + 1)[0] == s[p + 0]);
            assert(s.subrange(p, p + 2)[0] == s[p + 0]);
            assert(false);
        }
    };
    assert(!match_at(s, p, "years"@)) by {
        if match_at(s, p, "years"@) {
            assert(s.subrange(p, p + 5)[0] == s[p + 0]);
            assert(s.subrange(p, p + 2)[0] == s[p + 0]);
            assert(false);
        }
    };
    assert(!match_at(s, p, "year"@)) by {
        if match_at(s, p, "year"@) {
            assert(s.subrange(p, p + 4)[0] == s[p + 0]);
            assert(s.subrange(p, p + 2)[0] == s[p + 0]);
            assert(false);
        }
    };
    assert(!match_at(s, p, "yrs"@)) by {
        if match_at(s, p, "yrs"@) {
            assert(s.subrange(p, p + 3)[0] == s[p + 0]);
            assert(s.subrange(p, p + 2)[0] == s[p + 0]);
            assert(false);
        }
    };
    assert(!match_at(s, p, "yr"@)) by {
        if match_at(s, p, "yr"@) {
            assert(s.subrange(p, p + 2)[0] == s[p + 0]);
            assert(s.subrange(p, p + 2)[0] == s[p + 0]);
            assert(false);
        }
    };
    assert(!match_at(s, p, "y"@)) by {
        if match_at(s, p, "y"@) {
            assert(s.subrange(p, p + 1)[0] == s[p + 0]);
            assert(s.subrange(p, p + 2)[0] == s[p + 0]);
            assert(false);
        }
    };
    assert(!match_at(s, p, "Y"@)) by {
        if match_at(s, p, "Y"@) {
            assert(s.subrange(p, p + 1)[0] == s[p + 0]);
            assert(s.subrange(p, p + 2)[0] == s[p + 0]);
            assert(false);
        }
    };
    assert(!match_at(s, p, "nanos"@)) by {
        if match_at(s, p, "nanos"@) {
            assert(s.subrange(p, p + 5)[0] == s[p + 0]);
            assert(s.subrange(p, p + 2)[0] == s[p + 0]);
            assert(false);
        }
    };
    assert(!match_at(s, p, "nsec"@)) by {
        if match_at(s, p, "nsec"@) {
            assert(s.subrange(p, p + 4)[0] == s[p + 0]);
            assert(s.subrange(p, p + 2)[0] == s[p + 0]);
            assert(false);
        }
    };
    assert(!match_at(s, p, "ns"@)) by {
        if match_at(s, p, "ns"@) {
            assert(s.subrange(p, p + 2)[0] == s[p + 0]);
            assert(s.subrange(p, p + 2)[0] == s[p + 0]);
            assert(false);
        }
    };
    assert(!match_at(s, p, "micros"@)) by {
        if match_at(s, p, "micros"@) {
            assert(s.subrange(p, p + 6)[1] == s[p + 1]);
            assert(s.subrange(p, p + 2)[1] == s[p + 1]);
            assert(false);
        }
    };
    assert(!match_at(s, p, "usec"@)) by {
        if match_at(s, p, "usec"@) {
            assert(s.subrange(p, p + 4)[0] == s[p + 0]);
            assert(s.subrange(p, p + 2)[0] == s[p + 0]);
            assert(false);
        }
    };
    assert(!match_at(s, p, "us"@)) by {
        if match_at(s, p, "us"@) {
            assert(s.subrange(p, p + 2)[0] == s[p + 0]);
            assert(s.subrange(p, p + 2)[0] == s[p + 0]);
            assert(false);
        }
    };
    assert(!match_at(s, p, "millis"@)) by {
        if match_at(s, p, "millis"@) {
            assert(s.subrange(p, p + 6)[1] == s[p + 1]);
            assert(s.subrange(p, p + 2)[1] == s[p + 1]);
            assert(false);
        }
    };
    assert(!match_at(s, p, "msec"@)) by {
        if match_at(s, p, "msec"@) {
            assert(s.subrange(p, p + 4)[2] == s[p + 2]);
            assert(false);
        }
    };
    assert(match_at(s, p, "ms"@));
}

/// With `seconds` at `p` and a blank right after it, the resolver yields `Seconds`.
proof fn lemma_mid_seconds_seconds(s: Seq<char>, p: int)
    requires
        0 <= p,
        p + 7 < s.len(),
        s.subrange(p, p + 7) == "seconds"@,
        crate::scan::is_sep_space(s[p + 7]),
    ensures
        resolve_unit(s, p) == Some((Unit::Seconds, p + 7)),
{
    reveal_strlit("months");
    reveal_strlit("month");
    reveal_strlit("mths");
    reveal_strlit("mth");
    reveal_strlit("M");
    reveal_strlit("days");
    reveal_strlit("day");
    reveal_strlit("dys");
    reveal_strlit("dy");
    reveal_strlit("d");
    reveal_strlit("D");
    reveal_strlit("weeks");
    reveal_strlit("week");
    reveal_strlit("wks");
    reveal_strlit("wk");
    reveal_strlit("w");
    reveal_strlit("W");
    reveal_strlit("years");
    reveal_strlit("year");
    reveal_strlit("yrs");
    reveal_strlit("yr");
    reveal_strlit("y");
    reveal_strlit("Y");
    reveal_strlit("nanos");
    reveal_strlit("nsec");
    reveal_strlit("ns");
    reveal_strlit("micros");
    reveal_strlit("usec");
    reveal_strlit("us");
    reveal_strlit("millis");
    reveal_strlit("msec");
    reveal_strlit("ms");
    reveal_strlit("seconds");
    reveal_strlit("second");
    reveal_strlit("secs");
    reveal_strlit("sec");
    reveal_strlit("s");
    reveal_strlit("minutes");
    reveal_strlit("minute");
    reveal_strlit("mins");
    reveal_strlit("min");
    reveal_strlit("m");
    reveal_strlit("hours");
    reveal_strlit("hour");
    reveal_strlit("hrs");
    reveal_strlit("hr");
    reveal_strlit("h");
    reveal_strlit("H");
    assert(!match_at(s, p, "months"@)) by {
        if match_at(s, p, "months"@) {
            assert(s.subrange(p, p + 6)[0] == s[p + 0]);
            assert(s.subrange(p, p + 7)[0] == s[p + 0]);
            assert(false);
        }
    };
    assert(!match_at(s, p, "month"@)) by {
        if match_at(s, p, "month"@) {
            assert(s.subrange(p, p + 5)[0] == s[p + 0]);
            assert(s.subrange(p, p + 7)[0] == s[p + 0]);
            assert(false);
        }
    };
    assert(!match_at(s, p, "mths"@)) by {
        if match_at(s, p, "mths"@) {
            assert(s.subrange(p, p + 4)[0] == s[p + 0]);
            assert(s.subrange(p, p + 7)[0] == s[p + 0]);
            assert(false);
        }
    };
    assert(!match_at(s, p, "mth"@)) by {
        if match_at(s, p, "mth"@) {
            assert(s.subrange(p, p + 3)[0] == s[p + 0]);
            assert(s.subrange(p, p + 7)[0] == s[p + 0]);
            assert(false);
        }
    };
    assert(!match_at(s, p, "M"@)) by {
        if match_at(s, p, "M"@) {
            assert(s.subrange(p, p + 1)[0] == s[p + 0]);
            assert(s.subrange(p, p + 7)[0] == s[p + 0]);
            assert(false);
        }
    };
    assert(!match_at(s, p, "days"@)) by {
        if match_at(s, p, "days"@) {
            assert(s.subrange(p, p + 4)[0] == s[p + 0]);
            assert(s.subrange(p, p + 7)[0] == s[p + 0]);
            assert(false);
        }
    };
    assert(!match_at(s, p, "day"@)) by {
        if match_at(s, p, "day"@) {
            assert(s.subrange(p, p + 3)[0] == s[p + 0]);
            assert(s.subrange(p, p + 7)[0] == s[p + 0]);
            assert(false);
        }
    };
    assert(!match_at(s, p, "dys"@)) by {
        if match_at(s, p, "dys"@) {
            assert(s.subrange(p, p + 3)[0] == s[p + 0]);
            assert(s.subrange(p, p + 7)[0] == s[p + 0]);
            assert(false);
        }
    };
    assert(!match_at(s, p, "dy"@)) by {
        if match_at(s, p, "dy"@) {
            assert(s.subrange(p, p + 2)[0] == s[p + 0]);
            assert(s.subrange(p, p + 7)[0] == s[p + 0]);
            assert(false);
        }
    };
    assert(!match_at(s, p, "d"@)) by {
        if match_at(s, p, "d"@) {
            assert(s.subrange(p, p + 1)[0] == s[p + 0]);
            assert(s.subrange(p, p + 7)[0] == s[p + 0]);
            assert(false);
        }
    };
    assert(!match_at(s, p, "D"@)) by {
        if match_at(s, p, "D"@) {
            assert(s.subrange(p, p + 1)[0] == s[p + 0]);
            assert(s.subrange(p, p + 7)[0] == s[p + 0]);
            assert(false);
        }
    };
    assert(!match_at(s, p, "weeks"@)) by {
        if match_at(s, p, "weeks"@) {
            assert(s.subrange(p, p + 5)[0] == s[p + 0]);
            assert(s.subrange(p, p + 7)[0] == s[p + 0]);
            assert(false);
        }
    };
    assert(!match_at(s, p, "week"@)) by {
        if match_at(s, p, "week"@) {
            assert(s.subrange(p, p + 4)[0] == s[p + 0]);
            assert(s.subrange(p, p + 7)[0] == s[p + 0]);
            assert(false);
        }
    };
    assert(!match_at(s, p, "wks"@)) by {
        if match_at(s, p, "wks"@) {
            assert(s.subrange(p, p + 3)[0] == s[p + 0]);
            assert(s.subrange(p, p + 7)[0] == s[p + 0]);
            assert(false);
        }
    };
    assert(!match_at(s, p, "wk"@)) by {
        if match_at(s, p, "wk"@) {
            assert(s.subrange(p, p + 2)[0] == s[p + 0]);
            assert(s.subrange(p, p + 7)[0] == s[p + 0]);
            assert(false);
        }
    };
    assert(!match_at(s, p, "w"@)) by {
        if match_at(s, p, "w"@) {
            assert(s.subrange(p, p + 1)[0] == s[p + 0]);
            assert(s.subrange(p, p + 7)[0] == s[p + 0]);
            assert(false);
        }
    };
    assert(!match_at(s, p, "W"@)) by {
        if match_at(s, p, "W"@) {
            assert(s.subrange(p, p + 1)[0] == s[p + 0]);
            assert(s.subrange(p, p + 7)[0] == s[p + 0]);
            assert(false);
        }
    };
    assert(!match_at(s, p, "years"@)) by {
        if match_at(s, p, "years"@) {
            assert(s.subrange(p, p + 5)[0] == s[p + 0]);
            assert(s.subrange(p, p + 7)[0] == s[p + 0]);
            assert(false);
        }
    };
    assert(!match_at(s, p, "year"@)) by {
        if match_at(s, p, "year"@) {
            assert(s.subrange(p, p + 4)[0] == s[p + 0]);
            assert(s.subrange(p, p + 7)[0] == s[p + 0]);
            assert(false);
        }
    };
    assert(!match_at(s, p, "yrs"@)) by {
        if match_at(s, p, "yrs"@) {
            assert(s.subrange(p, p + 3)[0] == s[p + 0]);
            assert(s.subrange(p, p + 7)[0] == s[p + 0]);
            assert(false);
        }
    };
    assert(!match_at(s, p, "yr"@)) by {
        if match_at(s, p, "yr"@) {
            assert(s.subrange(p, p + 2)[0] == s[p + 0]);
            assert(s.subrange(p, p + 7)[0] == s[p + 0]);
            assert(false);
        }
    };
    assert(!match_at(s, p, "y"@)) by {
        if match_at(s, p, "y"@) {
            assert(s.subrange(p, p + 1)[0] == s[p + 0]);
            assert(s.subrange(p, p + 7)[0] == s[p + 0]);
            assert(false);
        }
    };
    assert(!match_at(s, p, "Y"@)) by {
        if match_at(s, p, "Y"@) {
            assert(s.subrange(p, p + 1)[0] == s[p + 0]);
            assert(s.subrange(p, p + 7)[0] == s[p + 0]);
            assert(false);
        }
    };
    assert(!match_at(s, p, "nanos"@)) by {
        if match_at(s, p, "nanos"@) {
            assert(s.subrange(p, p + 5)[0] == s[p + 0]);
            assert(s.subrange(p, p + 7)[0] == s[p + 0]);
            assert(false);
        }
    };
    assert(!match_at(s, p, "nsec"@)) by {
        if match_at(s, p, "nsec"@) {
            assert(s.subrange(p, p + 4)[0] == s[p + 0]);
            assert(s.subrange(p, p + 7)[0] == s[p + 0]);
            assert(false);
        }
    };
    assert(!match_at(s, p, "ns"@)) by {
        if match_at(s, p, "ns"@) {
            assert(s.subrange(p, p + 2)[0] == s[p + 0]);
            assert(s.subrange(p, p + 7)[0] == s[p + 0]);
            assert(false);
        }
    };
    assert(!match_at(s, p, "micros"@)) by {
        if match_at(s, p, "micros"@) {
            assert(s.subrange(p, p + 6)[0] == s[p + 0]);
            assert(s.subrange(p, p + 7)[0] == s[p + 0]);
            assert(false);
        }
    };
    assert(!match_at(s, p, "usec"@)) by {
        if match_at(s, p, "usec"@) {
            assert(s.subrange(p, p + 4)[0] == s[p + 0]);
            assert(s.subrange(p, p + 7)[0] == s[p + 0]);
            assert(false);
        }
    };
    assert(!match_at(s, p, "us"@)) by {
        if match_at(s, p, "us"@) {
            assert(s.subrange(p, p + 2)[0] == s[p + 0]);
            assert(s.subrange(p, p + 7)[0] == s[p + 0]);
            assert(false);
        }
    };
    assert(!match_at(s, p, "millis"@)) by {
        if match_at(s, p, "millis"@) {
            assert(s.subrange(p, p + 6)[0] == s[p + 0]);
            assert(s.subrange(p, p + 7)[0] == s[p + 0]);
            assert(false);
        }
    };
    assert(!match_at(s, p, "msec"@)) by {
        if match_at(s, p, "msec"@) {
            assert(s.subrange(p, p + 4)[0] == s[p + 0]);
            assert(s.subrange(p, p + 7)[0] == s[p + 0]);
            assert(false);
        }
    };
    assert(!match_at(s, p, "ms"@)) by {
        if match_at(s, p, "ms"@) {
            assert(s.subrange(p, p + 2)[0] == s[p + 0]);
            assert(s.subrange(p, p + 7)[0] == s[p + 0]);
            assert(false);
        }
    };
    assert(match_at(s, p, "seconds"@));
}

/// With `second` at `p` and a blank right after it, the resolver yields `Seconds`.
proof fn lemma_mid_seconds_second(s: Seq<char>, p: int)
    requires
        0 <= p,
        p + 6 < s.len(),
        s.subrange(p, p + 6) == "second"@,
        crate::scan::is_sep_space(s[p + 6]),
    ensures
        resolve_unit(s, p) == Some((Unit::Seconds, p + 6)),
{
    reveal_strlit("months");
    reveal_strlit("month");
    reveal_strlit("mths");
    reveal_strlit("mth");
    reveal_strlit("M");
    reveal_strlit("days");
    reveal_strlit("day");
    reveal_strlit("dys");
    reveal_strlit("dy");
    reveal_strlit("d");
    reveal_strlit("D");
    reveal_strlit("weeks");
    reveal_strlit("week");
    reveal_strlit("wks");
    reveal_strlit("wk");
    reveal_strlit("w");
    reveal_strlit("W");
    reveal_strlit("years");
    reveal_strlit("year");
    reveal_strlit("yrs");
    reveal_strlit("yr");
    reveal_strlit("y");
    reveal_strlit("Y");
    reveal_strlit("nanos");
    reveal_strlit("nsec");
    reveal_strlit("ns");
    reveal_strlit("micros");
    reveal_strlit("usec");
    reveal_strlit("us");
    reveal_strlit("millis");
    reveal_strlit("msec");
    reveal_strlit("ms");
    reveal_strlit("seconds");
    reveal_strlit("second");
    reveal_strlit("secs");
    reveal_strlit("sec");
    reveal_strlit("s");
    reveal_strlit("minutes");
    reveal_strlit("minute");
    reveal_strlit("mins");
    reveal_strlit("min");
    reveal_strlit("m");
    reveal_strlit("hours");
    reveal_strlit("hour");
    reveal_strlit("hrs");
    reveal_strlit("hr");
    reveal_strlit("h");
    reveal_strlit("H");
    assert(!match_at(s, p, "months"@)) by {
        if match_at(s, p, "months"@) {
            assert(s.subrange(p, p + 6)[0] == s[p + 0]);
            assert(s.subrange(p, p + 6)[0] == s[p + 0]);
            assert(false);
        }
    };
    assert(!match_at(s, p, "month"@)) by {
        if match_at(s, p, "month"@) {
            assert(s.subrange(p, p + 5)[0] == s[p + 0]);
            assert(s.subrange(p, p + 6)[0] == s[p + 0]);
            assert(false);
        }
    };
    assert(!match_at(s, p, "mths"@)) by {
        if match_at(s, p, "mths"@) {
            assert(s.subrange(p, p + 4)[0] == s[p + 0]);
            assert(s.subrange(p, p + 6)[0] == s[p + 0]);
            assert(false);
        }
    };
    assert(!match_at(s, p, "mth"@)) by {
        if match_at(s, p, "mth"@) {
            assert(s.subrange(p, p + 3)[0] == s[p + 0]);
            assert(s.subrange(p, p + 6)[0] == s[p + 0]);
            assert(false);
        }
    };
    assert(!match_at(s, p, "M"@)) by {
        if match_at(s, p, "M"@) {
            assert(s.subrange(p, p + 1)[0] == s[p + 0]);
            assert(s.subrange(p, p + 6)[0] == s[p + 0]);
            assert(false);
        }
    };
    assert(!match_at(s, p, "days"@)) by {
        if match_at(s, p, "days"@) {
            assert(s.subrange(p, p + 4)[0] == s[p + 0]);
            assert(s.subrange(p, p + 6)[0] == s[p + 0]);
            assert(false);
        }
    };
    assert(!match_at(s, p, "day"@)) by {
        if match_at(s, p, "day"@) {
            assert(s.subrange(p, p + 3)[0] == s[p + 0]);
            assert(s.subrange(p, p + 6)[0] == s[p + 0]);
            assert(false);
        }
    };
    assert(!match_at(s, p, "dys"@)) by {
        if match_at(s, p, "dys"@) {
            assert(s.subrange(p, p + 3)[0] == s[p + 0]);
            assert(s.subrange(p, p + 6)[0] == s[p + 0]);
            assert(false);
        }
    };
    assert(!match_at(s, p, "dy"@)) by {
        if match_at(s, p, "dy"@) {
            assert(s.subrange(p, p + 2)[0] == s[p + 0]);
            assert(s.subrange(p, p + 6)[0] == s[p + 0]);
            assert(false);
        }
    };
    assert(!match_at(s, p, "d"@)) by {
        if match_at(s, p, "d"@) {
            assert(s.subrange(p, p + 1)[0] == s[p + 0]);
            assert(s.subrange(p, p + 6)[0] == s[p + 0]);
            assert(false);
        }
    };
    assert(!match_at(s, p, "D"@)) by {
        if match_at(s, p, "D"@) {
            assert(s.subrange(p, p + 1)[0] == s[p + 0]);
            assert(s.subrange(p, p + 6)[0] == s[p + 0]);
            assert(false);
        }
    };
    assert(!match_at(s, p, "weeks"@)) by {
        if match_at(s, p, "weeks"@) {
            assert(s.subrange(p, p + 5)[0] == s[p + 0]);
            assert(s.subrange(p, p + 6)[0] == s[p + 0]);
            assert(false);
        }
    };
    assert(!match_at(s, p, "week"@)) by {
        if match_at(s, p, "week"@) {
            assert(s.subrange(p, p + 4)[0] == s[p + 0]);
            assert(s.subrange(p, p + 6)[0] == s[p + 0]);
            assert(false);
        }
    };
    assert(!match_at(s, p, "wks"@)) by {
        if match_at(s, p, "wks"@) {
            assert(s.subrange(p, p + 3)[0] == s[p + 0]);
            assert(s.subrange(p, p + 6)[0] == s[p + 0]);
            assert(false);
        }
    };
    assert(!match_at(s, p, "wk"@)) by {
        if match_at(s, p, "wk"@) {
            assert(s.subrange(p, p + 2)[0] == s[p + 0]);
            assert(s.subrange(p, p + 6)[0] == s[p + 0]);
            assert(false);
        }
    };
    assert(!match_at(s, p, "w"@)) by {
        if match_at(s, p, "w"@) {
            assert(s.subrange(p, p + 1)[0] == s[p + 0]);
            assert(s.subrange(p, p + 6)[0] == s[p + 0]);
            assert(false);
        }
    };
    assert(!match_at(s, p, "W"@)) by {
        if match_at(s, p, "W"@) {
            assert(s.subrange(p, p + 1)[0] == s[p + 0]);
            assert(s.subrange(p, p + 6)[0] == s[p + 0]);
            assert(false);
        }
    };
    assert(!match_at(s, p, "years"@)) by {
        if match_at(s, p, "years"@) {
            assert(s.subrange(p, p + 5)[0] == s[p + 0]);
            assert(s.subrange(p, p + 6)[0] == s[p + 0]);
            assert(false);
        }
    };
    assert(!match_at(s, p, "year"@)) by {
        if match_at(s, p, "year"@) {
            assert(s.subrange(p, p + 4)[0] == s[p + 0]);
            assert(s.subrange(p, p + 6)[0] == s[p + 0]);
            assert(false);
        }
    };
    assert(!match_at(s, p, "yrs"@)) by {
        if match_at(s, p, "yrs"@) {
            assert(s.subrange(p, p + 3)[0] == s[p + 0]);
            assert(s.subrange(p, p + 6)[0] == s[p + 0]);
            assert(false);
        }
    };
    assert(!match_at(s, p, "yr"@)) by {
        if match_at(s, p, "yr"@) {
            assert(s.subrange(p, p + 2)[0] == s[p + 0]);
            assert(s.subrange(p, p + 6)[0] == s[p + 0]);
            assert(false);
        }
    };
    assert(!match_at(s, p, "y"@)) by {
        if match_at(s, p, "y"@) {
            assert(s.subrange(p, p + 1)[0] == s[p + 0]);
            assert(s.subrange(p, p + 6)[0] == s[p + 0]);
            assert(false);
        }
    };
    assert(!match_at(s, p, "Y"@)) by {
        if match_at(s, p, "Y"@) {
            assert(s.subrange(p, p + 1)[0] == s[p + 0]);
            assert(s.subrange(p, p + 6)[0] == s[p + 0]);
            assert(false);
        }
    };
    assert(!match_at(s, p, "nanos"@)) by {
        if match_at(s, p, "nanos"@) {
            assert(s.subrange(p, p + 5)[0] == s[p + 0]);
            assert(s.subrange(p, p + 6)[0] == s[p + 0]);
            assert(false);
        }
    };
    assert(!match_at(s, p, "nsec"@)) by {
        if match_at(s, p, "nsec"@) {
            assert(s.subrange(p, p + 4)[0] == s[p + 0]);
            assert(s.subrange(p, p + 6)[0] == s[p + 0]);
            assert(false);
        }
    };
    assert(!match_at(s, p, "ns"@)) by {
        if match_at(s, p, "ns"@) {
            assert(s.subrange(p, p + 2)[0] == s[p + 0]);
            assert(s.subrange(p, p + 6)[0] == s[p + 0]);
            assert(false);
        }
    };
    assert(!match_at(s, p, "micros"@)) by {
        if match_at(s, p, "micros"@) {
            assert(s.subrange(p, p + 6)[0] == s[p + 0]);
            assert(s.subrange(p, p + 6)[0] == s[p + 0]);
            assert(false);
        }
    };
    assert(!match_at(s, p, "usec"@)) by {
        if match_at(s, p, "usec"@) {
            assert(s.subrange(p, p + 4)[0] == s[p + 0]);
            assert(s.subrange(p, p + 6)[0] == s[p + 0]);
            assert(false);
        }
    };
    assert(!match_at(s, p, "us"@)) by {
        if match_at(s, p, "us"@) {
            assert(s.subrange(p, p + 2)[0] == s[p + 0]);
            assert(s.subrange(p, p + 6)[0] == s[p + 0]);
            assert(false);
        }
    };
    assert(!match_at(s, p, "millis"@)) by {
        if match_at(s, p, "millis"@) {
            assert(s.subrange(p, p + 6)[0] == s[p + 0]);
            assert(s.subrange(p, p + 6)[0] == s[p + 0]);
            assert(false);
        }
    };
    assert(!match_at(s, p, "msec"@)) by {
        if match_at(s, p, "msec"@) {
            assert(s.subrange(p, p + 4)[0] == s[p + 0]);
            assert(s.subrange(p, p + 6)[0] == s[p + 0]);
            assert(false);
        }
    };
    assert(!match_at(s, p, "ms"@)) by {
        if match_at(s, p, "ms"@) {
            assert(s.subrange(p, p + 2)[0] == s[p + 0]);
            assert(s.subrange(p, p + 6)[0] == s[p + 0]);
            assert(false);
        }
    };
    assert(!match_at(s, p, "seconds"@)) by {
        if match_at(s, p, "seconds"@) {
            assert(s.subrange(p, p + 7)[6] == s[p + 6]);
            assert(false);
        }
    };
    assert(match_at(s, p, "second"@));
}

/// With `secs` at `p` and a blank right after it, the resolver yields `Seconds`.
proof fn lemma_mid_seconds_secs(s: Seq<char>, p: int)
    requires
        0 <= p,
        p + 4 < s.len(),
        s.subrange(p, p + 4) == "secs"@,
        crate::scan::is_sep_space(s[p + 4]),
    ensures
        resolve_unit(s, p) == Some((Unit::Seconds, p + 4)),
{
    reveal_strlit("months");
    reveal_strlit("month");
    reveal_strlit("mths");
    reveal_strlit("mth");
    reveal_strlit("M");
    reveal_strlit("days");
    reveal_strlit("day");
    reveal_strlit("dys");
    reveal_strlit("dy");
    reveal_strlit("d");
    reveal_strlit("D");
    reveal_strlit("weeks");
    reveal_strlit("week");
    reveal_strlit("wks");
    reveal_strlit("wk");
    reveal_strlit("w");
    reveal_strlit("W");
    reveal_strlit("years");
    reveal_strlit("year");
    reveal_strlit("yrs");
    reveal_strlit("yr");
    reveal_strlit("y");
    reveal_strlit("Y");
    reveal_strlit("nanos");
    reveal_strlit("nsec");
    reveal_strlit("ns");
    reveal_strlit("micros");
    reveal_strlit("usec");
    reveal_strlit("us");
    reveal_strlit("millis");
    reveal_strlit("msec");
    reveal_strlit("ms");
    reveal_strlit("seconds");
    reveal_strlit("second");
    reveal_strlit("secs");
    reveal_strlit("sec");
    reveal_strlit("s");
    reveal_strlit("minutes");
    reveal_strlit("minute");
    reveal_strlit("mins");
    reveal_strlit("min");
    reveal_strlit("m");
    reveal_strlit("hours");
    reveal_strlit("hour");
    reveal_strlit("hrs");
    reveal_strlit("hr");
    reveal_strlit("h");
    reveal_strlit("H");
    assert(!match_at(s, p, "months"@)) by {
        if match_at(s, p, "months"@) {
            assert(s.subrange(p, p + 6)[0] == s[p + 0]);
            assert(s.subrange(p, p + 4)[0] == s[p + 0]);
            assert(false);
        }
    };
    assert(!match_at(s, p, "month"@)) by {
        if match_at(s, p, "month"@) {
            assert(s.subrange(p, p + 5)[0] == s[p + 0]);
            assert(s.subrange(p, p + 4)[0] == s[p + 0]);
            assert(false);
        }
    };
    assert(!match_at(s, p, "mths"@)) by {
        if match_at(s, p, "mths"@) {
            assert(s.subrange(p, p + 4)[0] == s[p + 0]);
            assert(s.subrange(p, p + 4)[0] == s[p + 0]);
            assert(false);
        }
    };
    assert(!match_at(s, p, "mth"@)) by {
        if match_at(s, p, "mth"@) {
            assert(s.subrange(p, p + 3)[0] == s[p + 0]);
            assert(s.subrange(p, p + 4)[0] == s[p + 0]);
            assert(false);
        }
    };
    assert(!match_at(s, p, "M"@)) by {
        if match_at(s, p, "M"@) {
            assert(s.subrange(p, p + 1)[0] == s[p + 0]);
            assert(s.subrange(p, p + 4)[0] == s[p + 0]);
            assert(false);
        }
    };
    assert(!match_at(s, p, "days"@)) by {
        if match_at(s, p, "days"@) {
            assert(s.subrange(p, p + 4)[0] == s[p + 0]);
            assert(s.subrange(p, p + 4)[0] == s[p + 0]);
            assert(false);
        }
    };
    assert(!match_at(s, p, "day"@)) by {
        if match_at(s, p, "day"@) {
            assert(s.subrange(p, p + 3)[0] == s[p + 0]);
            assert(s.subrange(p, p + 4)[0] == s[p + 0]);
            assert(false);
        }
    };
    assert(!match_at(s, p, "dys"@)) by {
        if match_at(s, p, "dys"@) {
            assert(s.subrange(p, p + 3)[0] == s[p + 0]);
            assert(s.subrange(p, p + 4)[0] == s[p + 0]);
            assert(false);
        }
    };
    assert(!match_at(s, p, "dy"@)) by {
        if match_at(s, p, "dy"@) {
            assert(s.subrange(p, p + 2)[0] == s[p + 0]);
            assert(s.subrange(p, p + 4)[0] == s[p + 0]);
            assert(false);
        }
    };
    assert(!match_at(s, p, "d"@)) by {
        if match_at(s, p, "d"@) {
            assert(s.subrange(p, p + 1)[0] == s[p + 0]);
            assert(s.subrange(p, p + 4)[0] == s[p + 0]);
            assert(false);
        }
    };
    assert(!match_at(s, p, "D"@)) by {
        if match_at(s, p, "D"@) {
            assert(s.subrange(p, p + 1)[0] == s[p + 0]);
            assert(s.subrange(p, p + 4)[0] == s[p + 0]);
            assert(false);
        }
    };
    assert(!match_at(s, p, "weeks"@)) by {
        if match_at(s, p, "weeks"@) {
            assert(s.subrange(p, p + 5)[0] == s[p + 0]);
            assert(s.subrange(p, p + 4)[0] == s[p + 0]);
            assert(false);
        }
    };
    assert(!match_at(s, p, "week"@)) by {
        if match_at(s, p, "week"@) {
            assert(s.subrange(p, p + 4)[0] == s[p + 0]);
            assert(s.subrange(p, p + 4)[0] == s[p + 0]);
            assert(false);
        }
    };
    assert(!match_at(s, p, "wks"@)) by {
        if match_at(s, p, "wks"@) {
            assert(s.subrange(p, p + 3)[0] == s[p + 0]);
            assert(s.subrange(p, p + 4)[0] == s[p + 0]);
            assert(false);
        }
    };
    assert(!match_at(s, p, "wk"@)) by {
        if match_at(s, p, "wk"@) {
            assert(s.subrange(p, p + 2)[0] == s[p + 0]);
            assert(s.subrange(p, p + 4)[0] == s[p + 0]);
            assert(false);
        }
    };
    assert(!match_at(s, p, "w"@)) by {
        if match_at(s, p, "w"@) {
            assert(s.subrange(p, p + 1)[0] == s[p + 0]);
            assert(s.subrange(p, p + 4)[0] == s[p + 0]);
            assert(false);
        }
    };
    assert(!match_at(s, p, "W"@)) by {
        if match_at(s, p, "W"@) {
            assert(s.subrange(p, p + 1)[0] == s[p + 0]);
            assert(s.subrange(p, p + 4)[0] == s[p + 0]);
            assert(false);
        }
    };
    assert(!match_at(s, p, "years"@)) by {
        if match_at(s, p, "years"@) {
            assert(s.subrange(p, p + 5)[0] == s[p + 0]);
            assert(s.subrange(p, p + 4)[0] == s[p + 0]);
            assert(false);
        }
    };
    assert(!match_at(s, p, "year"@)) by {
        if match_at(s, p, "year"@) {
            assert(s.subrange(p, p + 4)[0] == s[p + 0]);
            assert(s.subrange(p, p + 4)[0] == s[p + 0]);
            assert(false);
        }
    };
    assert(!match_at(s, p, "yrs"@)) by {
        if match_at(s, p, "yrs"@) {
            assert(s.subrange(p, p + 3)[0] == s[p + 0]);
            assert(s.subrange(p, p + 4)[0] == s[p + 0]);
            assert(false);
        }
    };
    assert(!match_at(s, p, "yr"@)) by {
        if match_at(s, p, "yr"@) {
            assert(s.subrange(p, p + 2)[0] == s[p + 0]);
            assert(s.subrange(p, p + 4)[0] == s[p + 0]);
            assert(false);
        }
    };
    assert(!match_at(s, p, "y"@)) by {
        if match_at(s, p, "y"@) {
            assert(s.subrange(p, p + 1)[0] == s[p + 0]);
            assert(s.subrange(p, p + 4)[0] == s[p + 0]);
            assert(false);
        }
    };
    assert(!match_at(s, p, "Y"@)) by {
        if match_at(s, p, "Y"@) {
            assert(s.subrange(p, p + 1)[0] == s[p + 0]);
            assert(s.subrange(p, p + 4)[0] == s[p + 0]);
            assert(false);
        }
    };
    assert(!match_at(s, p, "nanos"@)) by {
        if match_at(s, p, "nanos"@) {
            assert(s.subrange(p, p + 5)[0] == s[p + 0]);
            assert(s.subrange(p, p + 4)[0] == s[p + 0]);
            assert(false);
        }
    };
    assert(!match_at(s, p, "nsec"@)) by {
        if match_at(s, p, "nsec"@) {
            assert(s.subrange(p, p + 4)[0] == s[p + 0]);
            assert(s.subrange(p, p + 4)[0] == s[p + 0]);
            assert(false);
        }
    };
    assert(!match_at(s, p, "ns"@)) by {
        if match_at(s, p, "ns"@) {
            assert(s.subrange(p, p + 2)[0] == s[p + 0]);
            assert(s.subrange(p, p + 4)[0] == s[p + 0]);
            assert(false);
        }
    };
    assert(!match_at(s, p, "micros"@)) by {
        if match_at(s, p, "micros"@) {
            assert(s.subrange(p, p + 6)[0] == s[p + 0]);
            assert(s.subrange(p, p + 4)[0] == s[p + 0]);
            assert(false);
        }
    };
    assert(!match_at(s, p, "usec"@)) by {
        if match_at(s, p, "usec"@) {
            assert(s.subrange(p, p + 4)[0] == s[p + 0]);
            assert(s.subrange(p, p + 4)[0] == s[p + 0]);
            assert(false);
        }
    };
    assert(!match_at(s, p, "us"@)) by {
        if match_at(s, p, "us"@) {
            assert(s.subrange(p, p + 2)[0] == s[p + 0]);
            assert(s.subrange(p, p + 4)[0] == s[p + 0]);
            assert(false);
        }
    };
    assert(!match_at(s, p, "millis"@)) by {
        if match_at(s, p, "millis"@) {
            assert(s.subrange(p, p + 6)[0] == s[p + 0]);
            assert(s.subrange(p, p + 4)[0] == s[p + 0]);
            assert(false);
        }
    };
    assert(!match_at(s, p, "msec"@)) by {
        if match_at(s, p, "msec"@) {
            assert(s.subrange(p, p + 4)[0] == s[p + 0]);
            assert(s.subrange(p, p + 4)[0] == s[p + 0]);
            assert(false);
        }
    };
    assert(!match_at(s, p, "ms"@)) by {
        if match_at(s, p, "ms"@) {
            assert(s.subrange(p, p + 2)[0] == s[p + 0]);
            assert(s.subrange(p, p + 4)[0] == s[p + 0]);
            assert(false);
        }
    };
    assert(!match_at(s, p, "seconds"@)) by {
        if match_at(s, p, "seconds"@) {
            assert(s.subrange(p, p + 7)[3] == s[p + 3]);
            assert(s.subrange(p, p + 4)[3] == s[p + 3]);
            assert(false);
        }
    };
    assert(!match_at(s, p, "second"@)) by {
        if match_at(s, p, "second"@) {
            assert(s.subrange(p, p + 6)[3] == s[p + 3]);
            assert(s.subrange(p, p + 4)[3] == s[p + 3]);
            assert(false);
        }
    };
    assert(match_at(s, p, "secs"@));
}

/// With `sec` at `p` and a blank right after it, the resolver yields `Seconds`.
proof fn lemma_mid_seconds_sec(s: Seq<char>, p: int)
    requires
        0 <= p,
        p + 3 < s.len(),
        s.subrange(p, p + 3) == "sec"@,
        crate::scan::is_sep_space(s[p + 3]),
    ensures
        resolve_unit(s, p) == Some((Unit::Seconds, p + 3)),
{
    reveal_strlit("months");
    reveal_strlit("month");
    reveal_strlit("mths");
    reveal_strlit("mth");
    reveal_strlit("M");
    reveal_strlit("days");
    reveal_strlit("day");
    reveal_strlit("dys");
    reveal_strlit("dy");
    reveal_strlit("d");
    reveal_strlit("D");
    reveal_strlit("weeks");
    reveal_strlit("week");
    reveal_strlit("wks");
    reveal_strlit("wk");
    reveal_strlit("w");
    reveal_strlit("W");
    reveal_strlit("years");
    reveal_strlit("year");
    reveal_strlit("yrs");
    reveal_strlit("yr");
    reveal_strlit("y");
    reveal_strlit("Y");
    reveal_strlit("nanos");
    reveal_strlit("nsec");
    reveal_strlit("ns");
    reveal_strlit("micros");
    reveal_strlit("usec");
    reveal_strlit("us");
    reveal_strlit("millis");
    reveal_strlit("msec");
    reveal_strlit("ms");
    reveal_strlit("seconds");
    reveal_strlit("second");
    reveal_strlit("secs");
    reveal_strlit("sec");
    reveal_strlit("s");
    reveal_strlit("minutes");
    reveal_strlit("minute");
    reveal_strlit("mins");
    reveal_strlit("min");
    reveal_strlit("m");
    reveal_strlit("hours");
    reveal_strlit("hour");
    reveal_strlit("hrs");
    reveal_strlit("hr");
    reveal_strlit("h");
    reveal_strlit("H");
    assert(!match_at(s, p, "months"@)) by {
        if match_at(s, p, "months"@) {
            assert(s.subrange(p, p + 6)[0] == s[p + 0]);
            assert(s.subrange(p, p + 3)[0] == s[p + 0]);
            assert(false);
        }
    };
    assert(!match_at(s, p, "month"@)) by {
        if match_at(s, p, "month"@) {
            assert(s.subrange(p, p + 5)[0] == s[p + 0]);
            assert(s.subrange(p, p + 3)[0] == s[p + 0]);
            assert(false);
        }
    };
    assert(!match_at(s, p, "mths"@)) by {
        if match_at(s, p, "mths"@) {
            assert(s.subrange(p, p + 4)[0] == s[p + 0]);
            assert(s.subrange(p, p + 3)[0] == s[p + 0]);
            assert(false);
        }
    };
    assert(!match_at(s, p, "mth"@)) by {
        if match_at(s, p, "mth"@) {
            assert(s.subrange(p, p + 3)[0] == s[p + 0]);
            assert(s.subrange(p, p + 3)[0] == s[p + 0]);
            assert(false);
        }
    };
    assert(!match_at(s, p, "M"@)) by {
        if match_at(s, p, "M"@) {
            assert(s.subrange(p, p + 1)[0] == s[p + 0]);
            assert(s.subrange(p, p + 3)[0] == s[p + 0]);
            assert(false);
        }
    };
    assert(!match_at(s, p, "days"@)) by {
        if match_at(s, p, "days"@) {
            assert(s.subrange(p, p + 4)[0] == s[p + 0]);
            assert(s.subrange(p, p + 3)[0] == s[p + 0]);
            assert(false);
        }
    };
    assert(!match_at(s, p, "day"@)) by {
        if match_at(s, p, "day"@) {
            assert(s.subrange(p, p + 3)[0] == s[p + 0]);
            assert(s.subrange(p, p + 3)[0] == s[p + 0]);
            assert(false);
        }
    };
    assert(!match_at(s, p, "dys"@)) by {
        if match_at(s, p, "dys"@) {
            assert(s.subrange(p, p + 3)[0] == s[p + 0]);
            assert(s.subrange(p, p + 3)[0] == s[p + 0]);
            assert(false);
        }
    };
    assert(!match_at(s, p, "dy"@)) by {
        if match_at(s, p, "dy"@) {
            assert(s.subrange(p, p + 2)[0] == s[p + 0]);
            assert(s.subrange(p, p + 3)[0] == s[p + 0]);
            assert(false);
        }
    };
    assert(!match_at(s, p, "d"@)) by {
        if match_at(s, p, "d"@) {
            assert(s.subrange(p, p + 1)[0] == s[p + 0]);
            assert(s.subrange(p, p + 3)[0] == s[p + 0]);
            assert(false);
        }
    };
    assert(!match_at(s, p, "D"@)) by {
        if match_at(s, p, "D"@) {
            assert(s.subrange(p, p + 1)[0] == s[p + 0]);
            assert(s.subrange(p, p + 3)[0] == s[p + 0]);
            assert(false);
        }
    };
    assert(!match_at(s, p, "weeks"@)) by {
        if match_at(s, p, "weeks"@) {
            assert(s.subrange(p, p + 5)[0] == s[p + 0]);
            assert(s.subrange(p, p + 3)[0] == s[p + 0]);
            assert(false);
        }
    };
    assert(!match_at(s, p, "week"@)) by {
        if match_at(s, p, "week"@) {
            assert(s.subrange(p, p + 4)[0] == s[p + 0]);
            assert(s.subrange(p, p + 3)[0] == s[p + 0]);
            assert(false);
        }
    };
    assert(!match_at(s, p, "wks"@)) by {
        if match_at(s, p, "wks"@) {
            assert(s.subrange(p, p + 3)[0] == s[p + 0]);
            assert(s.subrange(p, p + 3)[0] == s[p + 0]);
            assert(false);
        }
    };
    assert(!match_at(s, p, "wk"@)) by {
        if match_at(s, p, "wk"@) {
            assert(s.subrange(p, p + 2)[0] == s[p + 0]);
            assert(s.subrange(p, p + 3)[0] == s[p + 0]);
            assert(false);
        }
    };
    assert(!match_at(s, p, "w"@)) by {
        if match_at(s, p, "w"@) {
            assert(s.subrange(p, p + 1)[0] == s[p + 0]);
            assert(s.subrange(p, p + 3)[0] == s[p + 0]);
            assert(false);
        }
    };
    assert(!match_at(s, p, "W"@)) by {
        if match_at(s, p, "W"@) {
            assert(s.subrange(p, p + 1)[0] == s[p + 0]);
            assert(s.subrange(p, p + 3)[0] == s[p + 0]);
            assert(false);
        }
    };
    assert(!match_at(s, p, "years"@)) by {
        if match_at(s, p, "years"@) {
            assert(s.subrange(p, p + 5)[0] == s[p + 0]);
            assert(s.subrange(p, p + 3)[0] == s[p + 0]);
            assert(false);
        }
    };
    assert(!match_at(s, p, "year"@)) by {
        if match_at(s, p, "year"@) {
            assert(s.subrange(p, p + 4)[0] == s[p + 0]);
            assert(s.subrange(p, p + 3)[0] == s[p + 0]);
            assert(false);
        }
    };
    assert(!match_at(s, p, "yrs"@)) by {
        if match_at(s, p, "yrs"@) {
            assert(s.subrange(p, p + 3)[0] == s[p + 0]);
            assert(s.subrange(p, p + 3)[0] == s[p + 0]);
            assert(false);
        }
    };
    assert(!match_at(s, p, "yr"@)) by {
        if match_at(s, p, "yr"@) {
            assert(s.subrange(p, p + 2)[0] == s[p + 0]);
            assert(s.subrange(p, p + 3)[0] == s[p + 0]);
            assert(false);
        }
    };
    assert(!match_at(s, p, "y"@)) by {
        if match_at(s, p, "y"@) {
            assert(s.subrange(p, p + 1)[0] == s[p + 0]);
            assert(s.subrange(p, p + 3)[0] == s[p + 0]);
            assert(false);
        }
    };
    assert(!match_at(s, p, "Y"@)) by {
        if match_at(s, p, "Y"@) {
            assert(s.subrange(p, p + 1)[0] == s[p + 0]);
            assert(s.subrange(p, p + 3)[0] == s[p + 0]);
            assert(false);
        }
    };
    assert(!match_at(s, p, "nanos"@)) by {
        if match_at(s, p, "nanos"@) {
            assert(s.subrange(p, p + 5)[0] == s[p + 0]);
            assert(s.subrange(p, p + 3)[0] == s[p + 0]);
            assert(false);
        }
    };
    assert(!match_at(s, p, "nsec"@)) by {
        if match_at(s, p, "nsec"@) {
            assert(s.subrange(p, p + 4)[0] == s[p + 0]);
            assert(s.subrange(p, p + 3)[0] == s[p + 0]);
            assert(false);
        }
    };
    assert(!match_at(s, p, "ns"@)) by {
        if match_at(s, p, "ns"@) {
            assert(s.subrange(p, p + 2)[0] == s[p + 0]);
            assert(s.subrange(p, p + 3)[0] == s[p + 0]);
            assert(false);
        }
    };
    assert(!match_at(s, p, "micros"@)) by {
        if match_at(s, p, "micros"@) {
            assert(s.subrange(p, p + 6)[0] == s[p + 0]);
            assert(s.subrange(p, p + 3)[0] == s[p + 0]);
            assert(false);
        }
    };
    assert(!match_at(s, p, "usec"@)) by {
        if match_at(s, p, "usec"@) {
            assert(s.subrange(p, p + 4)[0] == s[p + 0]);
            assert(s.subrange(p, p + 3)[0] == s[p + 0]);
            assert(false);
        }
    };
    assert(!match_at(s, p, "us"@)) by {
        if match_at(s, p, "us"@) {
            assert(s.subrange(p, p + 2)[0] == s[p + 0]);
            assert(s.subrange(p, p + 3)[0] == s[p + 0]);
            assert(false);
        }
    };
    assert(!match_at(s, p, "millis"@)) by {
        if match_at(s, p, "millis"@) {
            assert(s.subrange(p, p + 6)[0] == s[p + 0]);
            assert(s.subrange(p, p + 3)[0] == s[p + 0]);
            assert(false);
        }
    };
    assert(!match_at(s, p, "msec"@)) by {
        if match_at(s, p, "msec"@) {
            assert(s.subrange(p, p + 4)[0] == s[p + 0]);
            assert(s.subrange(p, p + 3)[0] == s[p + 0]);
            assert(false);
        }
    };
    assert(!match_at(s, p, "ms"@)) by {
        if match_at(s, p, "ms"@) {
            assert(s.subrange(p, p + 2)[0] == s[p + 0]);
            assert(s.subrange(p, p + 3)[0] == s[p + 0]);
            assert(false);
        }
    };
    assert(!match_at(s, p, "seconds"@)) by {
        if match_at(s, p, "seconds"@) {
            assert(s.subrange(p, p + 7)[3] == s[p + 3]);
            assert(false);
        }
    };
    assert(!match_at(s, p, "second"@)) by {
        if match_at(s, p, "second"@) {
            assert(s.subrange(p, p + 6)[3] == s[p + 3]);
            assert(false);
        }
    };
    assert(!match_at(s, p, "secs"@)) by {
        if match_at(s, p, "secs"@) {
            assert(s.subrange(p, p + 4)[3] == s[p + 3]);
            assert(false);
        }
    };
    assert(match_at(s, p, "sec"@));
}

/// With `s` at `p` and a blank right after it, the resolver yields `Seconds`.
proof fn lemma_mid_seconds_s(s: Seq<char>, p: int)
    requires
        0 <= p,
        p + 1 < s.len(),
        s.subrange(p, p + 1) == "s"@,
        crate::scan::is_sep_space(s[p + 1]),
    ensures
        resolve_unit(s, p) == Some((Unit::Seconds, p + 1)),
{
    reveal_strlit("months");
    reveal_strlit("month");
    reveal_strlit("mths");
    reveal_strlit("mth");
    reveal_strlit("M");
    reveal_strlit("days");
    reveal_strlit("day");
    reveal_strlit("dys");
    reveal_strlit("dy");
    reveal_strlit("d");
    reveal_strlit("D");
    reveal_strlit("weeks");
    reveal_strlit("week");
    reveal_strlit("wks");
    reveal_strlit("wk");
    reveal_strlit("w");
    reveal_strlit("W");
    reveal_strlit("years");
    reveal_strlit("year");
    reveal_strlit("yrs");
    reveal_strlit("yr");
    reveal_strlit("y");
    reveal_strlit("Y");
    reveal_strlit("nanos");
    reveal_strlit("nsec");
    reveal_strlit("ns");
    reveal_strlit("micros");
    reveal_strlit("usec");
    reveal_strlit("us");
    reveal_strlit("millis");
    reveal_strlit("msec");
    reveal_strlit("ms");
    reveal_strlit("seconds");
    reveal_strlit("second");
    reveal_strlit("secs");
    reveal_strlit("sec");
    reveal_strlit("s");
    reveal_strlit("minutes");
    reveal_strlit("minute");
    reveal_strlit("mins");
    reveal_strlit("min");
    reveal_strlit("m");
    reveal_strlit("hours");
    reveal_strlit("hour");
    reveal_strlit("hrs");
    reveal_strlit("hr");
    reveal_strlit("h");
    reveal_strlit("H");
    assert(!match_at(s, p, "months"@)) by {
        if match_at(s, p, "months"@) {
            assert(s.subrange(p, p + 6)[0] == s[p + 0]);
            assert(s.subrange(p, p + 1)[0] == s[p + 0]);
            assert(false);
        }
    };
    assert(!match_at(s, p, "month"@)) by {
        if match_at(s, p, "month"@) {
            assert(s.subrange(p, p + 5)[0] == s[p + 0]);
            assert(s.subrange(p, p + 1)[0] == s[p + 0]);
            assert(false);
        }
    };
    assert(!match_at(s, p, "mths"@)) by {
        if match_at(s, p, "mths"@) {
            assert(s.subrange(p, p + 4)[0] == s[p + 0]);
            assert(s.subrange(p, p + 1)[0] == s[p + 0]);
            assert(false);
        }
    };
    assert(!match_at(s, p, "mth"@)) by {
        if match_at(s, p, "mth"@) {
            assert(s.subrange(p, p + 3)[0] == s[p + 0]);
            assert(s.subrange(p, p + 1)[0] == s[p + 0]);
            assert(false);
        }
    };
    assert(!match_at(s, p, "M"@)) by {
        if match_at(s, p, "M"@) {
            assert(s.subrange(p, p + 1)[0] == s[p + 0]);
            assert(s.subrange(p, p + 1)[0] == s[p + 0]);
            assert(false);
        }
    };
    assert(!match_at(s, p, "days"@)) by {
        if match_at(s, p, "days"@) {
            assert(s.subrange(p, p + 4)[0] == s[p + 0]);
            assert(s.subrange(p, p + 1)[0] == s[p + 0]);
            assert(false);
        }
    };
    assert(!match_at(s, p, "day"@)) by {
        if match_at(s, p, "day"@) {
            assert(s.subrange(p, p + 3)[0] == s[p + 0]);
            assert(s.subrange(p, p + 1)[0] == s[p + 0]);
            assert(false);
        }
    };
    assert(!match_at(s, p, "dys"@)) by {
        if match_at(s, p, "dys"@) {
            assert(s.subrange(p, p + 3)[0] == s[p + 0]);
            assert(s.subrange(p, p + 1)[0] == s[p + 0]);
            assert(false);
        }
    };
    assert(!match_at(s, p, "dy"@)) by {
        if match_at(s, p, "dy"@) {
            assert(s.subrange(p, p + 2)[0] == s[p + 0]);
            assert(s.subrange(p, p + 1)[0] == s[p + 0]);
            assert(false);
        }
    };
    assert(!match_at(s, p, "d"@)) by {
        if match_at(s, p, "d"@) {
            assert(s.subrange(p, p + 1)[0] == s[p + 0]);
            assert(s.subrange(p, p + 1)[0] == s[p + 0]);
            assert(false);
        }
    };
    assert(!match_at(s, p, "D"@)) by {
        if match_at(s, p, "D"@) {
            assert(s.subrange(p, p + 1)[0] == s[p + 0]);
            assert(s.subrange(p, p + 1)[0] == s[p + 0]);
            assert(false);
        }
    };
    assert(!match_at(s, p, "weeks"@)) by {
        if match_at(s, p, "weeks"@) {
            assert(s.subrange(p, p + 5)[0] == s[p + 0]);
            assert(s.subrange(p, p + 1)[0] == s[p + 0]);
            assert(false);
        }
    };
    assert(!match_at(s, p, "week"@)) by {
        if match_at(s, p, "week"@) {
            assert(s.subrange(p, p + 4)[0] == s[p + 0]);
            assert(s.subrange(p, p + 1)[0] == s[p + 0]);
            assert(false);
        }
    };
    assert(!match_at(s, p, "wks"@)) by {
        if match_at(s, p, "wks"@) {
            assert(s.subrange(p, p + 3)[0] == s[p + 0]);
            assert(s.subrange(p, p + 1)[0] == s[p + 0]);
            assert(false);
        }
    };
    assert(!match_at(s, p, "wk"@)) by {
        if match_at(s, p, "wk"@) {
            assert(s.subrange(p, p + 2)[0] == s[p + 0]);
            assert(s.subrange(p, p + 1)[0] == s[p + 0]);
            assert(false);
        }
    };
    assert(!match_at(s, p, "w"@)) by {
        if match_at(s, p, "w"@) {
            assert(s.subrange(p, p + 1)[0] == s[p + 0]);
            assert(s.subrange(p, p + 1)[0] == s[p + 0]);
            assert(false);
        }
    };
    assert(!match_at(s, p, "W"@)) by {
        if match_at(s, p, "W"@) {
            assert(s.subrange(p, p + 1)[0] == s[p + 0]);
            assert(s.subrange(p, p + 1)[0] == s[p + 0]);
            assert(false);
        }
    };
    assert(!match_at(s, p, "years"@)) by {
        if match_at(s, p, "years"@) {
            assert(s.subrange(p, p + 5)[0] == s[p + 0]);
            assert(s.subrange(p, p + 1)[0] == s[p + 0]);
            assert(false);
        }
    };
    assert(!match_at(s, p, "year"@)) by {
        if match_at(s, p, "year"@) {
            assert(s.subrange(p, p + 4)[0] == s[p + 0]);
            assert(s.subrange(p, p + 1)[0] == s[p + 0]);
            assert(false);
        }
    };
    assert(!match_at(s, p, "yrs"@)) by {
        if match_at(s, p, "yrs"@) {
            assert(s.subrange(p, p + 3)[0] == s[p + 0]);
            assert(s.subrange(p, p + 1)[0] == s[p + 0]);
            assert(false);
        }
    };
    assert(!match_at(s, p, "yr"@)) by {
        if match_at(s, p, "yr"@) {
            assert(s.subrange(p, p + 2)[0] == s[p + 0]);
            assert(s.subrange(p, p + 1)[0] == s[p + 0]);
            assert(false);
        }
    };
    assert(!match_at(s, p, "y"@)) by {
        if match_at(s, p, "y"@) {
            assert(s.subrange(p, p + 1)[0] == s[p + 0]);
            assert(s.subrange(p, p + 1)[0] == s[p + 0]);
            assert(false);
        }
    };
    assert(!match_at(s, p, "Y"@)) by {
        if match_at(s, p, "Y"@) {
            assert(s.subrange(p, p + 1)[0] == s[p + 0]);
            assert(s.subrange(p, p + 1)[0] == s[p + 0]);
            assert(false);
        }
    };
    assert(!match_at(s, p, "nanos"@)) by {
        if match_at(s, p, "nanos"@) {
            assert(s.subrange(p, p + 5)[0] == s[p + 0]);
            assert(s.subrange(p, p + 1)[0] == s[p + 0]);
            assert(false);
        }
    };
    assert(!match_at(s, p, "nsec"@)) by {
        if match_at(s, p, "nsec"@) {
            assert(s.subrange(p, p + 4)[0] == s[p + 0]);
            assert(s.subrange(p, p + 1)[0] == s[p + 0]);
            assert(false);
        }
    };
    assert(!match_at(s, p, "ns"@)) by {
        if match_at(s, p, "ns"@) {
            assert(s.subrange(p, p + 2)[0] == s[p + 0]);
            assert(s.subrange(p, p + 1)[0] == s[p + 0]);
            assert(false);
        }
    };
    assert(!match_at(s, p, "micros"@)) by {
        if match_at(s, p, "micros"@) {
            assert(s.subrange(p, p + 6)[0] == s[p + 0]);
            assert(s.subrange(p, p + 1)[0] == s[p + 0]);
            assert(false);
        }
    };
    assert(!match_at(s, p, "usec"@)) by {
        if match_at(s, p, "usec"@) {
            assert(s.subrange(p, p + 4)[0] == s[p + 0]);
            assert(s.subrange(p, p + 1)[0] == s[p + 0]);
            assert(false);
        }
    };
    assert(!match_at(s, p, "us"@)) by {
        if match_at(s, p, "us"@) {
            assert(s.subrange(p, p + 2)[0] == s[p + 0]);
            assert(s.subrange(p, p + 1)[0] == s[p + 0]);
            assert(false);
        }
    };
    assert(!match_at(s, p, "millis"@)) by {
        if match_at(s, p, "millis"@) {
            assert(s.subrange(p, p + 6)[0] == s[p + 0]);
            assert(s.subrange(p, p + 1)[0] == s[p + 0]);
            assert(false);
        }
    };
    assert(!match_at(s, p, "msec"@)) by {
        if match_at(s, p, "msec"@) {
            assert(s.subrange(p, p + 4)[0] == s[p + 0]);
            assert(s.subrange(p, p + 1)[0] == s[p + 0]);
            assert(false);
        }
    };
    assert(!match_at(s, p, "ms"@)) by {
        if match_at(s, p, "ms"@) {
            assert(s.subrange(p, p + 2)[0] == s[p + 0]);
            assert(s.subrange(p, p + 1)[0] == s[p + 0]);
            assert(false);
        }
    };
    assert(!match_at(s, p, "seconds"@)) by {
        if match_at(s, p, "seconds"@) {
            assert(s.subrange(p, p + 7)[1] == s[p + 1]);
            assert(false);
        }
    };
    assert(!match_at(s, p, "second"@)) by {
        if match_at(s, p, "second"@) {
            assert(s.subrange(p, p + 6)[1] == s[p + 1]);
            assert(false);
        }
    };
    assert(!match_at(s, p, "secs"@)) by {
        if match_at(s, p, "secs"@) {
            assert(s.subrange(p, p + 4)[1] == s[p + 1]);
            assert(false);
        }
    };
    assert(!match_at(s, p, "sec"@)) by {
        if match_at(s, p, "sec"@) {
            assert(s.subrange(p, p + 3)[1] == s[p + 1]);
            assert(false);
        }
    };
    assert(match_at(s, p, "s"@));
}

/// With `minutes` at `p` and a blank right after it, the resolver yields `Minutes`.
proof fn lemma_mid_minutes_minutes(s: Seq<char>, p: int)
    requires
        0 <= p,
        p + 7 < s.len(),
        s.subrange(p, p + 7) == "minutes"@,
        crate::scan::is_sep_space(s[p + 7]),
    ensures
        resolve_unit(s, p) == Some((Unit::Minutes, p + 7)),
{
    reveal_strlit("months");
    reveal_strlit("month");
    reveal_strlit("mths");
    reveal_strlit("mth");
    reveal_strlit("M");
    reveal_strlit("days");
    reveal_strlit("day");
    reveal_strlit("dys");
    reveal_strlit("dy");
    reveal_strlit("d");
    reveal_strlit("D");
    reveal_strlit("weeks");
    reveal_strlit("week");
    reveal_strlit("wks");
    reveal_strlit("wk");
    reveal_strlit("w");
    reveal_strlit("W");
    reveal_strlit("years");
    reveal_strlit("year");
    reveal_strlit("yrs");
    reveal_strlit("yr");
    reveal_strlit("y");
    reveal_strlit("Y");
    reveal_strlit("nanos");
    reveal_strlit("nsec");
    reveal_strlit("ns");
    reveal_strlit("micros");
    reveal_strlit("usec");
    reveal_strlit("us");
    reveal_strlit("millis");
    reveal_strlit("msec");
    reveal_strlit("ms");
    reveal_strlit("seconds");
    reveal_strlit("second");
    reveal_strlit("secs");
    reveal_strlit("sec");
    reveal_strlit("s");
    reveal_strlit("minutes");
    reveal_strlit("minute");
    reveal_strlit("mins");
    reveal_strlit("min");
    reveal_strlit("m");
    reveal_strlit("hours");
    reveal_strlit("hour");
    reveal_strlit("hrs");
    reveal_strlit("hr");
    reveal_strlit("h");
    reveal_strlit("H");
    assert(!match_at(s, p, "months"@)) by {
        if match_at(s, p, "months"@) {
            assert(s.subrange(p, p + 6)[1] == s[p + 1]);
            assert(s.subrange(p, p + 7)[1] == s[p + 1]);
            assert(false);
        }
    };
    assert(!match_at(s, p, "month"@)) by {
        if match_at(s, p, "month"@) {
            assert(s.subrange(p, p + 5)[1] == s[p + 1]);
            assert(s.subrange(p, p + 7)[1] == s[p + 1]);
            assert(false);
        }
    };
    assert(!match_at(s, p, "mths"@)) by {
        if match_at(s, p, "mths"@) {
            assert(s.subrange(p, p + 4)[1] == s[p + 1]);
            assert(s.subrange(p, p + 7)[1] == s[p + 1]);
            assert(false);
        }
    };
    assert(!match_at(s, p, "mth"@)) by {
        if match_at(s, p, "mth"@) {
            assert(s.subrange(p, p + 3)[1] == s[p + 1]);
            assert(s.subrange(p, p + 7)[1] == s[p + 1]);
            assert(false);
        }
    };
    assert(!match_at(s, p, "M"@)) by {
        if match_at(s, p, "M"@) {
            assert(s.subrange(p, p + 1)[0] == s[p + 0]);
            assert(s.subrange(p, p + 7)[0] == s[p + 0]);
            assert(false);
        }
    };
    assert(!match_at(s, p, "days"@)) by {
        if match_at(s, p, "days"@) {
            assert(s.subrange(p, p + 4)[0] == s[p + 0]);
            assert(s.subrange(p, p + 7)[0] == s[p + 0]);
            assert(false);
        }
    };
    assert(!match_at(s, p, "day"@)) by {
        if match_at(s, p, "day"@) {
            assert(s.subrange(p, p + 3)[0] == s[p + 0]);
            assert(s.subrange(p, p + 7)[0] == s[p + 0]);
            assert(false);
        }
    };
    assert(!match_at(s, p, "dys"@)) by {
        if match_at(s, p, "dys"@) {
            assert(s.subrange(p, p + 3)[0] == s[p + 0]);
            assert(s.subrange(p, p + 7)[0] == s[p + 0]);
            assert(false);
        }
    };
    assert(!match_at(s, p, "dy"@)) by {
        if match_at(s, p, "dy"@) {
            assert(s.subrange(p, p + 2)[0] == s[p + 0]);
            assert(s.subrange(p, p + 7)[0] == s[p + 0]);
            assert(false);
        }
    };
    assert(!match_at(s, p, "d"@)) by {
        if match_at(s, p, "d"@) {
            assert(s.subrange(p, p + 1)[0] == s[p + 0]);
            assert(s.subrange(p, p + 7)[0] == s[p + 0]);
            assert(false);
        }
    };
    assert(!match_at(s, p, "D"@)) by {
        if match_at(s, p, "D"@) {
            assert(s.subrange(p, p + 1)[0] == s[p + 0]);
            assert(s.subrange(p, p + 7)[0] == s[p + 0]);
            assert(false);
        }
    };
    assert(!match_at(s, p, "weeks"@)) by {
        if match_at(s, p, "weeks"@) {
            assert(s.subrange(p, p + 5)[0] == s[p + 0]);
            assert(s.subrange(p, p + 7)[0] == s[p + 0]);
            assert(false);
        }
    };
    assert(!match_at(s, p, "week"@)) by {
        if match_at(s, p, "week"@) {
            assert(s.subrange(p, p + 4)[0] == s[p + 0]);
            assert(s.subrange(p, p + 7)[0] == s[p + 0]);
            assert(false);
        }
    };
    assert(!match_at(s, p, "wks"@)) by {
        if match_at(s, p, "wks"@) {
            assert(s.subrange(p, p + 3)[0] == s[p + 0]);
            assert(s.subrange(p, p + 7)[0] == s[p + 0]);
            assert(false);
        }
    };
    assert(!match_at(s, p, "wk"@)) by {
        if match_at(s, p, "wk"@) {
            assert(s.subrange(p, p + 2)[0] == s[p + 0]);
            assert(s.subrange(p, p + 7)[0] == s[p + 0]);
            assert(false);
        }
    };
    assert(!match_at(s, p, "w"@)) by {
        if match_at(s, p, "w"@) {
            assert(s.subrange(p, p + 1)[0] == s[p + 0]);
            assert(s.subrange(p, p + 7)[0] == s[p + 0]);
            assert(false);
        }
    };
    assert(!match_at(s, p, "W"@)) by {
        if match_at(s, p, "W"@) {
            assert(s.subrange(p, p + 1)[0] == s[p + 0]);
            assert(s.subrange(p, p + 7)[0] == s[p + 0]);
            assert(false);
        }
    };
    assert(!match_at(s, p, "years"@)) by {
        if match_at(s, p, "years"@) {
            assert(s.subrange(p, p + 5)[0] == s[p + 0]);
            assert(s.subrange(p, p + 7)[0] == s[p + 0]);
            assert(false);
        }
    };
    assert(!match_at(s, p, "year"@)) by {
        if match_at(s, p, "year"@) {
            assert(s.subrange(p, p + 4)[0] == s[p + 0]);
            assert(s.subrange(p, p + 7)[0] == s[p + 0]);
            assert(false);
        }
    };
    assert(!match_at(s, p, "yrs"@)) by {
        if match_at(s, p, "yrs"@) {
            assert(s.subrange(p, p + 3)[0] == s[p + 0]);
            assert(s.subrange(p, p + 7)[0] == s[p + 0]);
            assert(false);
        }
    };
    assert(!match_at(s, p, "yr"@)) by {
        if match_at(s, p, "yr"@) {
            assert(s.subrange(p, p + 2)[0] == s[p + 0]);
            assert(s.subrange(p, p + 7)[0] == s[p + 0]);
            assert(false);
        }
    };
    assert(!match_at(s, p, "y"@)) by {
        if match_at(s, p, "y"@) {
            assert(s.subrange(p, p + 1)[0] == s[p + 0]);
            assert(s.subrange(p, p + 7)[0] == s[p + 0]);
            assert(false);
        }
    };
    assert(!match_at(s, p, "Y"@)) by {
        if match_at(s, p, "Y"@) {
            assert(s.subrange(p, p + 1)[0] == s[p + 0]);
            assert(s.subrange(p, p + 7)[0] == s[p + 0]);
            assert(false);
        }
    };
    assert(!match_at(s, p, "nanos"@)) by {
        if match_at(s, p, "nanos"@) {
            assert(s.subrange(p, p + 5)[0] == s[p + 0]);
            assert(s.subrange(p, p + 7)[0] == s[p + 0]);
            assert(false);
        }
    };
    assert(!match_at(s, p, "nsec"@)) by {
        if match_at(s, p, "nsec"@) {
            assert(s.subrange(p, p + 4)[0] == s[p + 0]);
            assert(s.subrange(p, p + 7)[0] == s[p + 0]);
            assert(false);
        }
    };
    assert(!match_at(s, p, "ns"@)) by {
        if match_at(s, p, "ns"@) {
            assert(s.subrange(p, p + 2)[0] == s[p + 0]);
            assert(s.subrange(p, p + 7)[0] == s[p + 0]);
            assert(false);
        }
    };
    assert(!match_at(s, p, "micros"@)) by {
        if match_at(s, p, "micros"@) {
            assert(s.subrange(p, p + 6)[2] == s[p + 2]);
            assert(s.subrange(p, p + 7)[2] == s[p + 2]);
            assert(false);
        }
    };
    assert(!match_at(s, p, "usec"@)) by {
        if match_at(s, p, "usec"@) {
            assert(s.subrange(p, p + 4)[0] == s[p + 0]);
            assert(s.subrange(p, p + 7)[0] == s[p + 0]);
            assert(false);
        }
    };
    assert(!match_at(s, p, "us"@)) by {
        if match_at(s, p, "us"@) {
            assert(s.subrange(p, p + 2)[0] == s[p + 0]);
            assert(s.subrange(p, p + 7)[0] == s[p + 0]);
            assert(false);
        }
    };
    assert(!match_at(s, p, "millis"@)) by {
        if match_at(s, p, "millis"@) {
            assert(s.subrange(p, p + 6)[2] == s[p + 2]);
            assert(s.subrange(p, p + 7)[2] == s[p + 2]);
            assert(false);
        }
    };
    assert(!match_at(s, p, "msec"@)) by {
        if match_at(s, p, "msec"@) {
            assert(s.subrange(p, p + 4)[1] == s[p + 1]);
            assert(s.subrange(p, p + 7)[1] == s[p + 1]);
            assert(false);
        }
    };
    assert(!match_at(s, p, "ms"@)) by {
        if match_at(s, p, "ms"@) {
            assert(s.subrange(p, p + 2)[1] == s[p + 1]);
            assert(s.subrange(p, p + 7)[1] == s[p + 1]);
            assert(false);
        }
    };
    assert(!match_at(s, p, "seconds"@)) by {
        if match_at(s, p, "seconds"@) {
            assert(s.subrange(p, p + 7)[0] == s[p + 0]);
            assert(s.subrange(p, p + 7)[0] == s[p + 0]);
            assert(false);
        }
    };
    assert(!match_at(s, p, "second"@)) by {
        if match_at(s, p, "second"@) {
            assert(s.subrange(p, p + 6)[0] == s[p + 0]);
            assert(s.subrange(p, p + 7)[0] == s[p + 0]);
            assert(false);
        }
    };
    assert(!match_at(s, p, "secs"@)) by {
        if match_at(s, p, "secs"@) {
            assert(s.subrange(p, p + 4)[0] == s[p + 0]);
            assert(s.subrange(p, p + 7)[0] == s[p + 0]);
            assert(false);
        }
    };
    assert(!match_at(s, p, "sec"@)) by {
        if match_at(s, p, "sec"@) {
            assert(s.subrange(p, p + 3)[0] == s[p + 0]);
            assert(s.subrange(p, p + 7)[0] == s[p + 0]);
            assert(false);
        }
    };
    assert(!match_at(s, p, "s"@)) by {
        if match_at(s, p, "s"@) {
            assert(s.subrange(p, p + 1)[0] == s[p + 0]);
            assert(s.subrange(p, p + 7)[0] == s[p + 0]);
            assert(false);
        }
    };
    assert(match_at(s, p, "minutes"@));
}

/// With `minute` at `p` and a blank right after it, the resolver yields `Minutes`.
proof fn lemma_mid_minutes_minute(s: Seq<char>, p: int)
    requires
        0 <= p,
        p + 6 < s.len(),
        s.subrange(p, p + 6) == "minute"@,
        crate::scan::is_sep_space(s[p + 6]),
    ensures
        resolve_unit(s, p) == Some((Unit::Minutes, p + 6)),
{
    reveal_strlit("months");
    reveal_strlit("month");
    reveal_strlit("mths");
    reveal_strlit("mth");
    reveal_strlit("M");
    reveal_strlit("days");
    reveal_strlit("day");
    reveal_strlit("dys");
    reveal_strlit("dy");
    reveal_strlit("d");
    reveal_strlit("D");
    reveal_strlit("weeks");
    reveal_strlit("week");
    reveal_strlit("wks");
    reveal_strlit("wk");
    reveal_strlit("w");
    reveal_strlit("W");
    reveal_strlit("years");
    reveal_strlit("year");
    reveal_strlit("yrs");
    reveal_strlit("yr");
    reveal_strlit("y");
    reveal_strlit("Y");
    reveal_strlit("nanos");
    reveal_strlit("nsec");
    reveal_strlit("ns");
    reveal_strlit("micros");
    reveal_strlit("usec");
    reveal_strlit("us");
    reveal_strlit("millis");
    reveal_strlit("msec");
    reveal_strlit("ms");
    reveal_strlit("seconds");
    reveal_strlit("second");
    reveal_strlit("secs");
    reveal_strlit("sec");
    reveal_strlit("s");
    reveal_strlit("minutes");
    reveal_strlit("minute");
    reveal_strlit("mins");
    reveal_strlit("min");
    reveal_strlit("m");
    reveal_strlit("hours");
    reveal_strlit("hour");
    reveal_strlit("hrs");
    reveal_strlit("hr");
    reveal_strlit("h");
    reveal_strlit("H");
    assert(!match_at(s, p, "months"@)) by {
        if match_at(s, p, "months"@) {
            assert(s.subrange(p, p + 6)[1] == s[p + 1]);
            assert(s.subrange(p, p + 6)[1] == s[p + 1]);
            assert(false);
        }
    };
    assert(!match_at(s, p, "month"@)) by {
        if match_at(s, p, "month"@) {
            assert(s.subrange(p, p + 5)[1] == s[p + 1]);
            assert(s.subrange(p, p + 6)[1] == s[p + 1]);
            assert(false);
        }
    };
    assert(!match_at(s, p, "mths"@)) by {
        if match_at(s, p, "mths"@) {
            assert(s.subrange(p, p + 4)[1] == s[p + 1]);
            assert(s.subrange(p, p + 6)[1] == s[p + 1]);
            assert(false);
        }
    };
    assert(!match_at(s, p, "mth"@)) by {
        if match_at(s, p, "mth"@) {
            assert(s.subrange(p, p + 3)[1] == s[p + 1]);
            assert(s.subrange(p, p + 6)[1] == s[p + 1]);
            assert(false);
        }
    };
    assert(!match_at(s, p, "M"@)) by {
        if match_at(s, p, "M"@) {
            assert(s.subrange(p, p + 1)[0] == s[p + 0]);
            assert(s.subrange(p, p + 6)[0] == s[p + 0]);
            assert(false);
        }
    };
    assert(!match_at(s, p, "days"@)) by {
        if match_at(s, p, "days"@) {
            assert(s.subrange(p, p + 4)[0] == s[p + 0]);
            assert(s.subrange(p, p + 6)[0] == s[p + 0]);
            assert(false);
        }
    };
    assert(!match_at(s, p, "day"@)) by {
        if match_at(s, p, "day"@) {
            assert(s.subrange(p, p + 3)[0] == s[p + 0]);
            assert(s.subrange(p, p + 6)[0] == s[p + 0]);
            assert(false);
        }
    };
    assert(!match_at(s, p, "dys"@)) by {
        if match_at(s, p, "dys"@) {
            assert(s.subrange(p, p + 3)[0] == s[p + 0]);
            assert(s.subrange(p, p + 6)[0] == s[p + 0]);
            assert(false);
        }
    };
    assert(!match_at(s, p, "dy"@)) by {
        if match_at(s, p, "dy"@) {
            assert(s.subrange(p, p + 2)[0] == s[p + 0]);
            assert(s.subrange(p, p + 6)[0] == s[p + 0]);
            assert(false);
        }
    };
    assert(!match_at(s, p, "d"@)) by {
        if match_at(s, p, "d"@) {
            assert(s.subrange(p, p + 1)[0] == s[p + 0]);
            assert(s.subrange(p, p + 6)[0] == s[p + 0]);
            assert(false);
        }
    };
    assert(!match_at(s, p, "D"@)) by {
        if match_at(s, p, "D"@) {
            assert(s.subrange(p, p + 1)[0] == s[p + 0]);
            assert(s.subrange(p, p + 6)[0] == s[p + 0]);
            assert(false);
        }
    };
    assert(!match_at(s, p, "weeks"@)) by {
        if match_at(s, p, "weeks"@) {
            assert(s.subrange(p, p + 5)[0] == s[p + 0]);
            assert(s.subrange(p, p + 6)[0] == s[p + 0]);
            assert(false);
        }
    };
    assert(!match_at(s, p, "week"@)) by {
        if match_at(s, p, "week"@) {
            assert(s.subrange(p, p + 4)[0] == s[p + 0]);
            assert(s.subrange(p, p + 6)[0] == s[p + 0]);
            assert(false);
        }
    };
    assert(!match_at(s, p, "wks"@)) by {
        if match_at(s, p, "wks"@) {
            assert(s.subrange(p, p + 3)[0] == s[p + 0]);
            assert(s.subrange(p, p + 6)[0] == s[p + 0]);
            assert(false);
        }
    };
    assert(!match_at(s, p, "wk"@)) by {
        if match_at(s, p, "wk"@) {
            assert(s.subrange(p, p + 2)[0] == s[p + 0]);
            assert(s.subrange(p, p + 6)[0] == s[p + 0]);
            assert(false);
        }
    };
    assert(!match_at(s, p, "w"@)) by {
        if match_at(s, p, "w"@) {
            assert(s.subrange(p, p + 1)[0] == s[p + 0]);
            assert(s.subrange(p, p + 6)[0] == s[p + 0]);
            assert(false);
        }
    };
    assert(!match_at(s, p, "W"@)) by {
        if match_at(s, p, "W"@) {
            assert(s.subrange(p, p + 1)[0] == s[p + 0]);
            assert(s.subrange(p, p + 6)[0] == s[p + 0]);
            assert(false);
        }
    };
    assert(!match_at(s, p, "years"@)) by {
        if match_at(s, p, "years"@) {
            assert(s.subrange(p, p + 5)[0] == s[p + 0]);
            assert(s.subrange(p, p + 6)[0] == s[p + 0]);
            assert(false);
        }
    };
    assert(!match_at(s, p, "year"@)) by {
        if match_at(s, p, "year"@) {
            assert(s.subrange(p, p + 4)[0] == s[p + 0]);
            assert(s.subrange(p, p + 6)[0] == s[p + 0]);
            assert(false);
        }
    };
    assert(!match_at(s, p, "yrs"@)) by {
        if match_at(s, p, "yrs"@) {
            assert(s.subrange(p, p + 3)[0] == s[p + 0]);
            assert(s.subrange(p, p + 6)[0] == s[p + 0]);
            assert(false);
        }
    };
    assert(!match_at(s, p, "yr"@)) by {
        if match_at(s, p, "yr"@) {
            assert(s.subrange(p, p + 2)[0] == s[p + 0]);
            assert(s.subrange(p, p + 6)[0] == s[p + 0]);
            assert(false);
        }
    };
    assert(!match_at(s, p, "y"@)) by {
        if match_at(s, p, "y"@) {
            assert(s.subrange(p, p + 1)[0] == s[p + 0]);
            assert(s.subrange(p, p + 6)[0] == s[p + 0]);
            assert(false);
        }
    };
    assert(!match_at(s, p, "Y"@)) by {
        if match_at(s, p, "Y"@) {
            assert(s.subrange(p, p + 1)[0] == s[p + 0]);
            assert(s.subrange(p, p + 6)[0] == s[p + 0]);
            assert(false);
        }
    };
    assert(!match_at(s, p, "nanos"@)) by {
        if match_at(s, p, "nanos"@) {
            assert(s.subrange(p, p + 5)[0] == s[p + 0]);
            assert(s.subrange(p, p + 6)[0] == s[p + 0]);
            assert(false);
        }
    };
    assert(!match_at(s, p, "nsec"@)) by {
        if match_at(s, p, "nsec"@) {
            assert(s.subrange(p, p + 4)[0] == s[p + 0]);
            assert(s.subrange(p, p + 6)[0] == s[p + 0]);
            assert(false);
        }
    };
    assert(!match_at(s, p, "ns"@)) by {
        if match_at(s, p, "ns"@) {
            assert(s.subrange(p, p + 2)[0] == s[p + 0]);
            assert(s.subrange(p, p + 6)[0] == s[p + 0]);
            assert(false);
        }
    };
    assert(!match_at(s, p, "micros"@)) by {
        if match_at(s, p, "micros"@) {
            assert(s.subrange(p, p + 6)[2] == s[p + 2]);
            assert(s.subrange(p, p + 6)[2] == s[p + 2]);
            assert(false);
        }
    };
    assert(!match_at(s, p, "usec"@)) by {
        if match_at(s, p, "usec"@) {
            assert(s.subrange(p, p + 4)[0] == s[p + 0]);
            assert(s.subrange(p, p + 6)[0] == s[p + 0]);
            assert(false);
        }
    };
    assert(!match_at(s, p, "us"@)) by {
        if match_at(s, p, "us"@) {
            assert(s.subrange(p, p + 2)[0] == s[p + 0]);
            assert(s.subrange(p, p + 6)[0] == s[p + 0]);
            assert(false);
        }
    };
    assert(!match_at(s, p, "millis"@)) by {
        if match_at(s, p, "millis"@) {
            assert(s.subrange(p, p + 6)[2] == s[p + 2]);
            assert(s.subrange(p, p + 6)[2] == s[p + 2]);
            assert(false);
        }
    };
    assert(!match_at(s, p, "msec"@)) by {
        if match_at(s, p, "msec"@) {
            assert(s.subrange(p, p + 4)[1] == s[p + 1]);
            assert(s.subrange(p, p + 6)[1] == s[p + 1]);
            assert(false);
        }
    };
    assert(!match_at(s, p, "ms"@)) by {
        if match_at(s, p, "ms"@) {
            assert(s.subrange(p, p + 2)[1] == s[p + 1]);
            assert(s.subrange(p, p + 6)[1] == s[p + 1]);
            assert(false);
        }
    };
    assert(!match_at(s, p, "seconds"@)) by {
        if match_at(s, p, "seconds"@) {
            assert(s.subrange(p, p + 7)[0] == s[p + 0]);
            assert(s.subrange(p, p + 6)[0] == s[p + 0]);
            assert(false);
        }
    };
    assert(!match_at(s, p, "second"@)) by {
        if match_at(s, p, "second"@) {
            assert(s.subrange(p, p + 6)[0] == s[p + 0]);
            assert(s.subrange(p, p + 6)[0] == s[p + 0]);
            assert(false);
        }
    };
    assert(!match_at(s, p, "secs"@)) by {
        if match_at(s, p, "secs"@) {
            assert(s.subrange(p, p + 4)[0] == s[p + 0]);
            assert(s.subrange(p, p + 6)[0] == s[p + 0]);
            assert(false);
        }
    };
    assert(!match_at(s, p, "sec"@)) by {
        if match_at(s, p, "sec"@) {
            assert(s.subrange(p, p + 3)[0] == s[p + 0]);
            assert(s.subrange(p, p + 6)[0] == s[p + 0]);
            assert(false);
        }
    };
    assert(!match_at(s, p, "s"@)) by {
        if match_at(s, p, "s"@) {
            assert(s.subrange(p, p + 1)[0] == s[p + 0]);
            assert(s.subrange(p, p + 6)[0] == s[p + 0]);
            assert(false);
        }
    };
    assert(!match_at(s, p, "minutes"@)) by {
        if match_at(s, p, "minutes"@) {
            assert(s.subrange(p, p + 7)[6] == s[p + 6]);
            assert(false);
        }
    };
    assert(match_at(s, p, "minute"@));
}

/// With `mins` at `p` and a blank right after it, the resolver yields `Minutes`.
proof fn lemma_mid_minutes_mins(s: Seq<char>, p: int)
    requires
        0 <= p,
        p + 4 < s.len(),
        s.subrange(p, p + 4) == "mins"@,
        crate::scan::is_sep_space(s[p + 4]),
    ensures
        resolve_unit(s, p) == Some((Unit::Minutes, p + 4)),
{
    reveal_strlit("months");
    reveal_strlit("month");
    reveal_strlit("mths");
    reveal_strlit("mth");
    reveal_strlit("M");
    reveal_strlit("days");
    reveal_strlit("day");
    reveal_strlit("dys");
    reveal_strlit("dy");
    reveal_strlit("d");
    reveal_strlit("D");
    reveal_strlit("weeks");
    reveal_strlit("week");
    reveal_strlit("wks");
    reveal_strlit("wk");
    reveal_strlit("w");
    reveal_strlit("W");
    reveal_strlit("years");
    reveal_strlit("year");
    reveal_strlit("yrs");
    reveal_strlit("yr");
    reveal_strlit("y");
    reveal_strlit("Y");
    reveal_strlit("nanos");
    reveal_strlit("nsec");
    reveal_strlit("ns");
    reveal_strlit("micros");
    reveal_strlit("usec");
    reveal_strlit("us");
    reveal_strlit("millis");
    reveal_strlit("msec");
    reveal_strlit("ms");
    reveal_strlit("seconds");
    reveal_strlit("second");
    reveal_strlit("secs");
    reveal_strlit("sec");
    reveal_strlit("s");
    reveal_strlit("minutes");
    reveal_strlit("minute");
    reveal_strlit("mins");
    reveal_strlit("min");
    reveal_strlit("m");
    reveal_strlit("hours");
    reveal_strlit("hour");
    reveal_strlit("hrs");
    reveal_strlit("hr");
    reveal_strlit("h");
    reveal_strlit("H");
    assert(!match_at(s, p, "months"@)) by {
        if match_at(s, p, "months"@) {
            assert(s.subrange(p, p + 6)[1] == s[p + 1]);
            assert(s.subrange(p, p + 4)[1] == s[p + 1]);
            assert(false);
        }
    };
    assert(!match_at(s, p, "month"@)) by {
        if match_at(s, p, "month"@) {
            assert(s.subrange(p, p + 5)[1] == s[p + 1]);
            assert(s.subrange(p, p + 4)[1] == s[p + 1]);
            assert(false);
        }
    };
    assert(!match_at(s, p, "mths"@)) by {
        if match_at(s, p, "mths"@) {
            assert(s.subrange(p, p + 4)[1] == s[p + 1]);
            assert(s.subrange(p, p + 4)[1] == s[p + 1]);
            assert(false);
        }
    };
    assert(!match_at(s, p, "mth"@)) by {
        if match_at(s, p, "mth"@) {
            assert(s.subrange(p, p + 3)[1] == s[p + 1]);
            assert(s.subrange(p, p + 4)[1] == s[p + 1]);
            assert(false);
        }
    };
    assert(!match_at(s, p, "M"@)) by {
        if match_at(s, p, "M"@) {
            assert(s.subrange(p, p + 1)[0] == s[p + 0]);
            assert(s.subrange(p, p + 4)[0] == s[p + 0]);
            assert(false);
        }
    };
    assert(!match_at(s, p, "days"@)) by {
        if match_at(s, p, "days"@) {
            assert(s.subrange(p, p + 4)[0] == s[p + 0]);
            assert(s.subrange(p, p + 4)[0] == s[p + 0]);
            assert(false);
        }
    };
    assert(!match_at(s, p, "day"@)) by {
        if match_at(s, p, "day"@) {
            assert(s.subrange(p, p + 3)[0] == s[p + 0]);
            assert(s.subrange(p, p + 4)[0] == s[p + 0]);
            assert(false);
        }
    };
    assert(!match_at(s, p, "dys"@)) by {
        if match_at(s, p, "dys"@) {
            assert(s.subrange(p, p + 3)[0] == s[p + 0]);
            assert(s.subrange(p, p + 4)[0] == s[p + 0]);
            assert(false);
        }
    };
    assert(!match_at(s, p, "dy"@)) by {
        if match_at(s, p, "dy"@) {
            assert(s.subrange(p, p + 2)[0] == s[p + 0]);
            assert(s.subrange(p, p + 4)[0] == s[p + 0]);
            assert(false);
        }
    };
    assert(!match_at(s, p, "d"@)) by {
        if match_at(s, p, "d"@) {
            assert(s.subrange(p, p + 1)[0] == s[p + 0]);
            assert(s.subrange(p, p + 4)[0] == s[p + 0]);
            assert(false);
        }
    };
    assert(!match_at(s, p, "D"@)) by {
        if match_at(s, p, "D"@) {
            assert(s.subrange(p, p + 1)[0] == s[p + 0]);
            assert(s.subrange(p, p + 4)[0] == s[p + 0]);
            assert(false);
        }
    };
    assert(!match_at(s, p, "weeks"@)) by {
        if match_at(s, p, "weeks"@) {
            assert(s.subrange(p, p + 5)[0] == s[p + 0]);
            assert(s.subrange(p, p + 4)[0] == s[p + 0]);
            assert(false);
        }
    };
    assert(!match_at(s, p, "week"@)) by {
        if match_at(s, p, "week"@) {
            assert(s.subrange(p, p + 4)[0] == s[p + 0]);
            assert(s.subrange(p, p + 4)[0] == s[p + 0]);
            assert(false);
        }
    };
    assert(!match_at(s, p, "wks"@)) by {
        if match_at(s, p, "wks"@) {
            assert(s.subrange(p, p + 3)[0] == s[p + 0]);
            assert(s.subrange(p, p + 4)[0] == s[p + 0]);
            assert(false);
        }
    };
    assert(!match_at(s, p, "wk"@)) by {
        if match_at(s, p, "wk"@) {
            assert(s.subrange(p, p + 2)[0] == s[p + 0]);
            assert(s.subrange(p, p + 4)[0] == s[p + 0]);
            assert(false);
        }
    };
    assert(!match_at(s, p, "w"@)) by {
        if match_at(s, p, "w"@) {
            assert(s.subrange(p, p + 1)[0] == s[p + 0]);
            assert(s.subrange(p, p + 4)[0] == s[p + 0]);
            assert(false);
        }
    };
    assert(!match_at(s, p, "W"@)) by {
        if match_at(s, p, "W"@) {
            assert(s.subrange(p, p + 1)[0] == s[p + 0]);
            assert(s.subrange(p, p + 4)[0] == s[p + 0]);
            assert(false);
        }
    };
    assert(!match_at(s, p, "years"@)) by {
        if match_at(s, p, "years"@) {
            assert(s.subrange(p, p + 5)[0] == s[p + 0]);
            assert(s.subrange(p, p + 4)[0] == s[p + 0]);
            assert(false);
        }
    };
    assert(!match_at(s, p, "year"@)) by {
        if match_at(s, p, "year"@) {
            assert(s.subrange(p, p + 4)[0] == s[p + 0]);
            assert(s.subrange(p, p + 4)[0] == s[p + 0]);
            assert(false);
        }
    };
    assert(!match_at(s, p, "yrs"@)) by {
        if match_at(s, p, "yrs"@) {
            assert(s.subrange(p, p + 3)[0] == s[p + 0]);
            assert(s.subrange(p, p + 4)[0] == s[p + 0]);
            assert(false);
        }
    };
    assert(!match_at(s, p, "yr"@)) by {
        if match_at(s, p, "yr"@) {
            assert(s.subrange(p, p + 2)[0] == s[p + 0]);
            assert(s.subrange(p, p + 4)[0] == s[p + 0]);
            assert(false);
        }
    };
    assert(!match_at(s, p, "y"@)) by {
        if match_at(s, p, "y"@) {
            assert(s.subrange(p, p + 1)[0] == s[p + 0]);
            assert(s.subrange(p, p + 4)[0] == s[p + 0]);
            assert(false);
        }
    };
    assert(!match_at(s, p, "Y"@)) by {
        if match_at(s, p, "Y"@) {
            assert(s.subrange(p, p + 1)[0] == s[p + 0]);
            assert(s.subrange(p, p + 4)[0] == s[p + 0]);
            assert(false);
        }
    };
    assert(!match_at(s, p, "nanos"@)) by {
        if match_at(s, p, "nanos"@) {
            assert(s.subrange(p, p + 5)[0] == s[p + 0]);
            assert(s.subrange(p, p + 4)[0] == s[p + 0]);
            assert(false);
        }
    };
    assert(!match_at(s, p, "nsec"@)) by {
        if match_at(s, p, "nsec"@) {
            assert(s.subrange(p, p + 4)[0] == s[p + 0]);
            assert(s.subrange(p, p + 4)[0] == s[p + 0]);
            assert(false);
        }
    };
    assert(!match_at(s, p, "ns"@)) by {
        if match_at(s, p, "ns"@) {
            assert(s.subrange(p, p + 2)[0] == s[p + 0]);
            assert(s.subrange(p, p + 4)[0] == s[p + 0]);
            assert(false);
        }
    };
    assert(!match_at(s, p, "micros"@)) by {
        if match_at(s, p, "micros"@) {
            assert(s.subrange(p, p + 6)[2] == s[p + 2]);
            assert(s.subrange(p, p + 4)[2] == s[p + 2]);
            assert(false);
        }
    };
    assert(!match_at(s, p, "usec"@)) by {
        if match_at(s, p, "usec"@) {
            assert(s.subrange(p, p + 4)[0] == s[p + 0]);
            assert(s.subrange(p, p + 4)[0] == s[p + 0]);
            assert(false);
        }
    };
    assert(!match_at(s, p, "us"@)) by {
        if match_at(s, p, "us"@) {
            assert(s.subrange(p, p + 2)[0] == s[p + 0]);
            assert(s.subrange(p, p + 4)[0] == s[p + 0]);
            assert(false);
        }
    };
    assert(!match_at(s, p, "millis"@)) by {
        if match_at(s, p, "millis"@) {
            assert(s.subrange(p, p + 6)[2] == s[p + 2]);
            assert(s.subrange(p, p + 4)[2] == s[p + 2]);
            assert(false);
        }
    };
    assert(!match_at(s, p, "msec"@)) by {
        if match_at(s, p, "msec"@) {
            assert(s.subrange(p, p + 4)[1] == s[p + 1]);
            assert(s.subrange(p, p + 4)[1] == s[p + 1]);
            assert(false);
        }
    };
    assert(!match_at(s, p, "ms"@)) by {
        if match_at(s, p, "ms"@) {
            assert(s.subrange(p, p + 2)[1] == s[p + 1]);
            assert(s.subrange(p, p + 4)[1] == s[p + 1]);
            assert(false);
        }
    };
    assert(!match_at(s, p, "seconds"@)) by {
        if match_at(s, p, "seconds"@) {
            assert(s.subrange(p, p + 7)[0] == s[p + 0]);
            assert(s.subrange(p, p + 4)[0] == s[p + 0]);
            assert(false);
        }
    };
    assert(!match_at(s, p, "second"@)) by {
        if match_at(s, p, "second"@) {
            assert(s.subrange(p, p + 6)[0] == s[p + 0]);
            assert(s.subrange(p, p + 4)[0] == s[p + 0]);
            assert(false);
        }
    };
    assert(!match_at(s, p, "secs"@)) by {
        if match_at(s, p, "secs"@) {
            assert(s.subrange(p, p + 4)[0] == s[p + 0]);
            assert(s.subrange(p, p + 4)[0] == s[p + 0]);
            assert(false);
        }
    };
    assert(!match_at(s, p, "sec"@)) by {
        if match_at(s, p, "sec"@) {
            assert(s.subrange(p, p + 3)[0] == s[p + 0]);
            assert(s.subrange(p, p + 4)[0] == s[p + 0]);
            assert(false);
        }
    };
    assert(!match_at(s, p, "s"@)) by {
        if match_at(s, p, "s"@) {
            assert(s.subrange(p, p + 1)[0] == s[p + 0]);
            assert(s.subrange(p, p + 4)[0] == s[p + 0]);
            assert(false);
        }
    };
    assert(!match_at(s, p, "minutes"@)) by {
        if match_at(s, p, "minutes"@) {
            assert(s.subrange(p, p + 7)[3] == s[p + 3]);
            assert(s.subrange(p, p + 4)[3] == s[p + 3]);
            assert(false);
        }
    };
    assert(!match_at(s, p, "minute"@)) by {
        if match_at(s, p, "minute"@) {
            assert(s.subrange(p, p + 6)[3] == s[p + 3]);
            assert(s.subrange(p, p + 4)[3] == s[p + 3]);
            assert(false);
        }
    };
    assert(match_at(s, p, "mins"@));
}

/// With `min` at `p` and a blank right after it, the resolver yields `Minutes`.
proof fn lemma_mid_minutes_min(s: Seq<char>, p: int)
    requires
        0 <= p,
        p + 3 < s.len(),
        s.subrange(p, p + 3) == "min"@,
        crate::scan::is_sep_space(s[p + 3]),
    ensures
        resolve_unit(s, p) == Some((Unit::Minutes, p + 3)),
{
    reveal_strlit("months");
    reveal_strlit("month");
    reveal_strlit("mths");
    reveal_strlit("mth");
    reveal_strlit("M");
    reveal_strlit("days");
    reveal_strlit("day");
    reveal_strlit("dys");
    reveal_strlit("dy");
    reveal_strlit("d");
    reveal_strlit("D");
    reveal_strlit("weeks");
    reveal_strlit("week");
    reveal_strlit("wks");
    reveal_strlit("wk");
    reveal_strlit("w");
    reveal_strlit("W");
    reveal_strlit("years");
    reveal_strlit("year");
    reveal_strlit("yrs");
    reveal_strlit("yr");
    reveal_strlit("y");
    reveal_strlit("Y");
    reveal_strlit("nanos");
    reveal_strlit("nsec");
    reveal_strlit("ns");
    reveal_strlit("micros");
    reveal_strlit("usec");
    reveal_strlit("us");
    reveal_strlit("millis");
    reveal_strlit("msec");
    reveal_strlit("ms");
    reveal_strlit("seconds");
    reveal_strlit("second");
    reveal_strlit("secs");
    reveal_strlit("sec");
    reveal_strlit("s");
    reveal_strlit("minutes");
    reveal_strlit("minute");
    reveal_strlit("mins");
    reveal_strlit("min");
    reveal_strlit("m");
    reveal_strlit("hours");
    reveal_strlit("hour");
    reveal_strlit("hrs");
    reveal_strlit("hr");
    reveal_strlit("h");
    reveal_strlit("H");
    assert(!match_at(s, p, "months"@)) by {
        if match_at(s, p, "months"@) {
            assert(s.subrange(p, p + 6)[1] == s[p + 1]);
            assert(s.subrange(p, p + 3)[1] == s[p + 1]);
            assert(false);
        }
    };
    assert(!match_at(s, p, "month"@)) by {
        if match_at(s, p, "month"@) {
            assert(s.subrange(p, p + 5)[1] == s[p + 1]);
            assert(s.subrange(p, p + 3)[1] == s[p + 1]);
            assert(false);
        }
    };
    assert(!match_at(s, p, "mths"@)) by {
        if match_at(s, p, "mths"@) {
            assert(s.subrange(p, p + 4)[1] == s[p + 1]);
            assert(s.subrange(p, p + 3)[1] == s[p + 1]);
            assert(false);
        }
    };
    assert(!match_at(s, p, "mth"@)) by {
        if match_at(s, p, "mth"@) {
            assert(s.subrange(p, p + 3)[1] == s[p + 1]);
            assert(s.subrange(p, p + 3)[1] == s[p + 1]);
            assert(false);
        }
    };
    assert(!match_at(s, p, "M"@)) by {
        if match_at(s, p, "M"@) {
            assert(s.subrange(p, p + 1)[0] == s[p + 0]);
            assert(s.subrange(p, p + 3)[0] == s[p + 0]);
            assert(false);
        }
    };
    assert(!match_at(s, p, "days"@)) by {
        if match_at(s, p, "days"@) {
            assert(s.subrange(p, p + 4)[0] == s[p + 0]);
            assert(s.subrange(p, p + 3)[0] == s[p + 0]);
            assert(false);
        }
    };
    assert(!match_at(s, p, "day"@)) by {
        if match_at(s, p, "day"@) {
            assert(s.subrange(p, p + 3)[0] == s[p + 0]);
            assert(s.subrange(p, p + 3)[0] == s[p + 0]);
            assert(false);
        }
    };
    assert(!match_at(s, p, "dys"@)) by {
        if match_at(s, p, "dys"@) {
            assert(s.subrange(p, p + 3)[0] == s[p + 0]);
            assert(s.subrange(p, p + 3)[0] == s[p + 0]);
            assert(false);
        }
    };
    assert(!match_at(s, p, "dy"@)) by {
        if match_at(s, p, "dy"@) {
            assert(s.subrange(p, p + 2)[0] == s[p + 0]);
            assert(s.subrange(p, p + 3)[0] == s[p + 0]);
            assert(false);
        }
    };
    assert(!match_at(s, p, "d"@)) by {
        if match_at(s, p, "d"@) {
            assert(s.subrange(p, p + 1)[0] == s[p + 0]);
            assert(s.subrange(p, p + 3)[0] == s[p + 0]);
            assert(false);
        }
    };
    assert(!match_at(s, p, "D"@)) by {
        if match_at(s, p, "D"@) {
            assert(s.subrange(p, p + 1)[0] == s[p + 0]);
            assert(s.subrange(p, p + 3)[0] == s[p + 0]);
            assert(false);
        }
    };
    assert(!match_at(s, p, "weeks"@)) by {
        if match_at(s, p, "weeks"@) {
            assert(s.subrange(p, p + 5)[0] == s[p + 0]);
            assert(s.subrange(p, p + 3)[0] == s[p + 0]);
            assert(false);
        }
    };
    assert(!match_at(s, p, "week"@)) by {
        if match_at(s, p, "week"@) {
            assert(s.subrange(p, p + 4)[0] == s[p + 0]);
            assert(s.subrange(p, p + 3)[0] == s[p + 0]);
            assert(false);
        }
    };
    assert(!match_at(s, p, "wks"@)) by {
        if match_at(s, p, "wks"@) {
            assert(s.subrange(p, p + 3)[0] == s[p + 0]);
            assert(s.subrange(p, p + 3)[0] == s[p + 0]);
            assert(false);
        }
    };
    assert(!match_at(s, p, "wk"@)) by {
        if match_at(s, p, "wk"@) {
            assert(s.subrange(p, p + 2)[0] == s[p + 0]);
            assert(s.subrange(p, p + 3)[0] == s[p + 0]);
            assert(false);
        }
    };
    assert(!match_at(s, p, "w"@)) by {
        if match_at(s, p, "w"@) {
            assert(s.subrange(p, p + 1)[0] == s[p + 0]);
            assert(s.subrange(p, p + 3)[0] == s[p + 0]);
            assert(false);
        }
    };
    assert(!match_at(s, p, "W"@)) by {
        if match_at(s, p, "W"@) {
            assert(s.subrange(p, p + 1)[0] == s[p + 0]);
            assert(s.subrange(p, p + 3)[0] == s[p + 0]);
            assert(false);
        }
    };
    assert(!match_at(s, p, "years"@)) by {
        if match_at(s, p, "years"@) {
            assert(s.subrange(p, p + 5)[0] == s[p + 0]);
            assert(s.subrange(p, p + 3)[0] == s[p + 0]);
            assert(false);
        }
    };
    assert(!match_at(s, p, "year"@)) by {
        if match_at(s, p, "year"@) {
            assert(s.subrange(p, p + 4)[0] == s[p + 0]);
            assert(s.subrange(p, p + 3)[0] == s[p + 0]);
            assert(false);
        }
    };
    assert(!match_at(s, p, "yrs"@)) by {
        if match_at(s, p, "yrs"@) {
            assert(s.subrange(p, p + 3)[0] == s[p + 0]);
            assert(s.subrange(p, p + 3)[0] == s[p + 0]);
            assert(false);
        }
    };
    assert(!match_at(s, p, "yr"@)) by {
        if match_at(s, p, "yr"@) {
            assert(s.subrange(p, p + 2)[0] == s[p + 0]);
            assert(s.subrange(p, p + 3)[0] == s[p + 0]);
            assert(false);
        }
    };
    assert(!match_at(s, p, "y"@)) by {
        if match_at(s, p, "y"@) {
            assert(s.subrange(p, p + 1)[0] == s[p + 0]);
            assert(s.subrange(p, p + 3)[0] == s[p + 0]);
            assert(false);
        }
    };
    assert(!match_at(s, p, "Y"@)) by {
        if match_at(s, p, "Y"@) {
            assert(s.subrange(p, p + 1)[0] == s[p + 0]);
            assert(s.subrange(p, p + 3)[0] == s[p + 0]);
            assert(false);
        }
    };
    assert(!match_at(s, p, "nanos"@)) by {
        if match_at(s, p, "nanos"@) {
            assert(s.subrange(p, p + 5)[0] == s[p + 0]);
            assert(s.subrange(p, p + 3)[0] == s[p + 0]);
            assert(false);
        }
    };
    assert(!match_at(s, p, "nsec"@)) by {
        if match_at(s, p, "nsec"@) {
            assert(s.subrange(p, p + 4)[0] == s[p + 0]);
            assert(s.subrange(p, p + 3)[0] == s[p + 0]);
            assert(false);
        }
    };
    assert(!match_at(s, p, "ns"@)) by {
        if match_at(s, p, "ns"@) {
            assert(s.subrange(p, p + 2)[0] == s[p + 0]);
            assert(s.subrange(p, p + 3)[0] == s[p + 0]);
            assert(false);
        }
    };
    assert(!match_at(s, p, "micros"@)) by {
        if match_at(s, p, "micros"@) {
            assert(s.subrange(p, p + 6)[2] == s[p + 2]);
            assert(s.subrange(p, p + 3)[2] == s[p + 2]);
            assert(false);
        }
    };
    assert(!match_at(s, p, "usec"@)) by {
        if match_at(s, p, "usec"@) {
            assert(s.subrange(p, p + 4)[0] == s[p + 0]);
            assert(s.subrange(p, p + 3)[0] == s[p + 0]);
            assert(false);
        }
    };
    assert(!match_at(s, p, "us"@)) by {
        if match_at(s, p, "us"@) {
            assert(s.subrange(p, p + 2)[0] == s[p + 0]);
            assert(s.subrange(p, p + 3)[0] == s[p + 0]);
            assert(false);
        }
    };
    assert(!match_at(s, p, "millis"@)) by {
        if match_at(s, p, "millis"@) {
            assert(s.subrange(p, p + 6)[2] == s[p + 2]);
            assert(s.subrange(p, p + 3)[2] == s[p + 2]);
            assert(false);
        }
    };
    assert(!match_at(s, p, "msec"@)) by {
        if match_at(s, p, "msec"@) {
            assert(s.subrange(p, p + 4)[1] == s[p + 1]);
            assert(s.subrange(p, p + 3)[1] == s[p + 1]);
            assert(false);
        }
    };
    assert(!match_at(s, p, "ms"@)) by {
        if match_at(s, p, "ms"@) {
            assert(s.subrange(p, p + 2)[1] == s[p + 1]);
            assert(s.subrange(p, p + 3)[1] == s[p + 1]);
            assert(false);
        }
    };
    assert(!match_at(s, p, "seconds"@)) by {
        if match_at(s, p, "seconds"@) {
            assert(s.subrange(p, p + 7)[0] == s[p + 0]);
            assert(s.subrange(p, p + 3)[0] == s[p + 0]);
            assert(false);
        }
    };
    assert(!match_at(s, p, "second"@)) by {
        if match_at(s, p, "second"@) {
            assert(s.subrange(p, p + 6)[0] == s[p + 0]);
            assert(s.subrange(p, p + 3)[0] == s[p + 0]);
            assert(false);
        }
    };
    assert(!match_at(s, p, "secs"@)) by {
        if match_at(s, p, "secs"@) {
            assert(s.subrange(p, p + 4)[0] == s[p + 0]);
            assert(s.subrange(p, p + 3)[0] == s[p + 0]);
            assert(false);
        }
    };
    assert(!match_at(s, p, "sec"@)) by {
        if match_at(s, p, "sec"@) {
            assert(s.subrange(p, p + 3)[0] == s[p + 0]);
            assert(s.subrange(p, p + 3)[0] == s[p + 0]);
            assert(false);
        }
    };
    assert(!match_at(s, p, "s"@)) by {
        if match_at(s, p, "s"@) {
            assert(s.subrange(p, p + 1)[0] == s[p + 0]);
            assert(s.subrange(p, p + 3)[0] == s[p + 0]);
            assert(false);
        }
    };
    assert(!match_at(s, p, "minutes"@)) by {
        if match_at(s, p, "minutes"@) {
            assert(s.subrange(p, p + 7)[3] == s[p + 3]);
            assert(false);
        }
    };
    assert(!match_at(s, p, "minute"@)) by {
        if match_at(s, p, "minute"@) {
            assert(s.subrange(p, p + 6)[3] == s[p + 3]);
            assert(false);
        }
    };
    assert(!match_at(s, p, "mins"@)) by {
        if match_at(s, p, "mins"@) {
            assert(s.subrange(p, p + 4)[3] == s[p + 3]);
            assert(false);
        }
    };
    assert(match_at(s, p, "min"@));
}

/// With `m` at `p` and a blank right after it, the resolver yields `Minutes`.
proof fn lemma_mid_minutes_m(s: Seq<char>, p: int)
    requires
        0 <= p,
        p + 1 < s.len(),
        s.subrange(p, p + 1) == "m"@,
        crate::scan::is_sep_space(s[p + 1]),
    ensures
        resolve_unit(s, p) == Some((Unit::Minutes, p + 1)),
{
    reveal_strlit("months");
    reveal_strlit("month");
    reveal_strlit("mths");
    reveal_strlit("mth");
    reveal_strlit("M");
    reveal_strlit("days");
    reveal_strlit("day");
    reveal_strlit("dys");
    reveal_strlit("dy");
    reveal_strlit("d");
    reveal_strlit("D");
    reveal_strlit("weeks");
    reveal_strlit("week");
    reveal_strlit("wks");
    reveal_strlit("wk");
    reveal_strlit("w");
    reveal_strlit("W");
    reveal_strlit("years");
    reveal_strlit("year");
    reveal_strlit("yrs");
    reveal_strlit("yr");
    reveal_strlit("y");
    reveal_strlit("Y");
    reveal_strlit("nanos");
    reveal_strlit("nsec");
    reveal_strlit("ns");
    reveal_strlit("micros");
    reveal_strlit("usec");
    reveal_strlit("us");
    reveal_strlit("millis");
    reveal_strlit("msec");
    reveal_strlit("ms");
    reveal_strlit("seconds");
    reveal_strlit("second");
    reveal_strlit("secs");
    reveal_strlit("sec");
    reveal_strlit("s");
    reveal_strlit("minutes");
    reveal_strlit("minute");
    reveal_strlit("mins");
    reveal_strlit("min");
    reveal_strlit("m");
    reveal_strlit("hours");
    reveal_strlit("hour");
    reveal_strlit("hrs");
    reveal_strlit("hr");
    reveal_strlit("h");
    reveal_strlit("H");
    assert(!match_at(s, p, "months"@)) by {
        if match_at(s, p, "months"@) {
            assert(s.subrange(p, p + 6)[1] == s[p + 1]);
            assert(false);
        }
    };
    assert(!match_at(s, p, "month"@)) by {
        if match_at(s, p, "month"@) {
            assert(s.subrange(p, p + 5)[1] == s[p + 1]);
            assert(false);
        }
    };
    assert(!match_at(s, p, "mths"@)) by {
        if match_at(s, p, "mths"@) {
            assert(s.subrange(p, p + 4)[1] == s[p + 1]);
            assert(false);
        }
    };
    assert(!match_at(s, p, "mth"@)) by {
        if match_at(s, p, "mth"@) {
            assert(s.subrange(p, p + 3)[1] == s[p + 1]);
            assert(false);
        }
    };
    assert(!match_at(s, p, "M"@)) by {
        if match_at(s, p, "M"@) {
            assert(s.subrange(p, p + 1)[0] == s[p + 0]);
            assert(s.subrange(p, p + 1)[0] == s[p + 0]);
            assert(false);
        }
    };
    assert(!match_at(s, p, "days"@)) by {
        if match_at(s, p, "days"@) {
            assert(s.subrange(p, p + 4)[0] == s[p + 0]);
            assert(s.subrange(p, p + 1)[0] == s[p + 0]);
            assert(false);
        }
    };
    assert(!match_at(s, p, "day"@)) by {
        if match_at(s, p, "day"@) {
            assert(s.subrange(p, p + 3)[0] == s[p + 0]);
            assert(s.subrange(p, p + 1)[0] == s[p + 0]);
            assert(false);
        }
    };
    assert(!match_at(s, p, "dys"@)) by {
        if match_at(s, p, "dys"@) {
            assert(s.subrange(p, p + 3)[0] == s[p + 0]);
            assert(s.subrange(p, p + 1)[0] == s[p + 0]);
            assert(false);
        }
    };
    assert(!match_at(s, p, "dy"@)) by {
        if match_at(s, p, "dy"@) {
            assert(s.subrange(p, p + 2)[0] == s[p + 0]);
            assert(s.subrange(p, p + 1)[0] == s[p + 0]);
            assert(false);
        }
    };
    assert(!match_at(s, p, "d"@)) by {
        if match_at(s, p, "d"@) {
            assert(s.subrange(p, p + 1)[0] == s[p + 0]);
            assert(s.subrange(p, p + 1)[0] == s[p + 0]);
            assert(false);
        }
    };
    assert(!match_at(s, p, "D"@)) by {
        if match_at(s, p, "D"@) {
            assert(s.subrange(p, p + 1)[0] == s[p + 0]);
            assert(s.subrange(p, p + 1)[0] == s[p + 0]);
            assert(false);
        }
    };
    assert(!match_at(s, p, "weeks"@)) by {
        if match_at(s, p, "weeks"@) {
            assert(s.subrange(p, p + 5)[0] == s[p + 0]);
            assert(s.subrange(p, p + 1)[0] == s[p + 0]);
            assert(false);
        }
    };
    assert(!match_at(s, p, "week"@)) by {
        if match_at(s, p, "week"@) {
            assert(s.subrange(p, p + 4)[0] == s[p + 0]);
            assert(s.subrange(p, p + 1)[0] == s[p + 0]);
            assert(false);
        }
    };
    assert(!match_at(s, p, "wks"@)) by {
        if match_at(s, p, "wks"@) {
            assert(s.subrange(p, p + 3)[0] == s[p + 0]);
            assert(s.subrange(p, p + 1)[0] == s[p + 0]);
            assert(false);
        }
    };
    assert(!match_at(s, p, "wk"@)) by {
        if match_at(s, p, "wk"@) {
            assert(s.subrange(p, p + 2)[0] == s[p + 0]);
            assert(s.subrange(p, p + 1)[0] == s[p + 0]);
            assert(false);
        }
    };
    assert(!match_at(s, p, "w"@)) by {
        if match_at(s, p, "w"@) {
            assert(s.subrange(p, p + 1)[0] == s[p + 0]);
            assert(s.subrange(p, p + 1)[0] == s[p + 0]);
            assert(false);
        }
    };
    assert(!match_at(s, p, "W"@)) by {
        if match_at(s, p, "W"@) {
            assert(s.subrange(p, p + 1)[0] == s[p + 0]);
            assert(s.subrange(p, p + 1)[0] == s[p + 0]);
            assert(false);
        }
    };
    assert(!match_at(s, p, "years"@)) by {
        if match_at(s, p, "years"@) {
            assert(s.subrange(p, p + 5)[0] == s[p + 0]);
            assert(s.subrange(p, p + 1)[0] == s[p + 0]);
            assert(false);
        }
    };
    assert(!match_at(s, p, "year"@)) by {
        if match_at(s, p, "year"@) {
            assert(s.subrange(p, p + 4)[0] == s[p + 0]);
            assert(s.subrange(p, p + 1)[0] == s[p + 0]);
            assert(false);
        }
    };
    assert(!match_at(s, p, "yrs"@)) by {
        if match_at(s, p, "yrs"@) {
            assert(s.subrange(p, p + 3)[0] == s[p + 0]);
            assert(s.subrange(p, p + 1)[0] == s[p + 0]);
            assert(false);
        }
    };
    assert(!match_at(s, p, "yr"@)) by {
        if match_at(s, p, "yr"@) {
            assert(s.subrange(p, p + 2)[0] == s[p + 0]);
            assert(s.subrange(p, p + 1)[0] == s[p + 0]);
            assert(false);
        }
    };
    assert(!match_at(s, p, "y"@)) by {
        if match_at(s, p, "y"@) {
            assert(s.subrange(p, p + 1)[0] == s[p + 0]);
            assert(s.subrange(p, p + 1)[0] == s[p + 0]);
            assert(false);
        }
    };
    assert(!match_at(s, p, "Y"@)) by {
        if match_at(s, p, "Y"@) {
            assert(s.subrange(p, p + 1)[0] == s[p + 0]);
            assert(s.subrange(p, p + 1)[0] == s[p + 0]);
            assert(false);
        }
    };
    assert(!match_at(s, p, "nanos"@)) by {
        if match_at(s, p, "nanos"@) {
            assert(s.subrange(p, p + 5)[0] == s[p + 0]);
            assert(s.subrange(p, p + 1)[0] == s[p + 0]);
            assert(false);
        }
    };
    assert(!match_at(s, p, "nsec"@)) by {
        if match_at(s, p, "nsec"@) {
            assert(s.subrange(p, p + 4)[0] == s[p + 0]);
            assert(s.subrange(p, p + 1)[0] == s[p + 0]);
            assert(false);
        }
    };
    assert(!match_at(s, p, "ns"@)) by {
        if match_at(s, p, "ns"@) {
            assert(s.subrange(p, p + 2)[0] == s[p + 0]);
            assert(s.subrange(p, p + 1)[0] == s[p + 0]);
            assert(false);
        }
    };
    assert(!match_at(s, p, "micros"@)) by {
        if match_at(s, p, "micros"@) {
            assert(s.subrange(p, p + 6)[1] == s[p + 1]);
            assert(false);
        }
    };
    assert(!match_at(s, p, "usec"@)) by {
        if match_at(s, p, "usec"@) {
            assert(s.subrange(p, p + 4)[0] == s[p + 0]);
            assert(s.subrange(p, p + 1)[0] == s[p + 0]);
            assert(false);
        }
    };
    assert(!match_at(s, p, "us"@)) by {
        if match_at(s, p, "us"@) {
            assert(s.subrange(p, p + 2)[0] == s[p + 0]);
            assert(s.subrange(p, p + 1)[0] == s[p + 0]);
            assert(false);
        }
    };
    assert(!match_at(s, p, "millis"@)) by {
        if match_at(s, p, "millis"@) {
            assert(s.subrange(p, p + 6)[1] == s[p + 1]);
            assert(false);
        }
    };
    assert(!match_at(s, p, "msec"@)) by {
        if match_at(s, p, "msec"@) {
            assert(s.subrange(p, p + 4)[1] == s[p + 1]);
            assert(false);
        }
    };
    assert(!match_at(s, p, "ms"@)) by {
        if match_at(s, p, "ms"@) {
            assert(s.subrange(p, p + 2)[1] == s[p + 1]);
            assert(false);
        }
    };
    assert(!match_at(s, p, "seconds"@)) by {
        if match_at(s, p, "seconds"@) {
            assert(s.subrange(p, p + 7)[0] == s[p + 0]);
            assert(s.subrange(p, p + 1)[0] == s[p + 0]);
            assert(false);
        }
    };
    assert(!match_at(s, p, "second"@)) by {
        if match_at(s, p, "second"@) {
            assert(s.subrange(p, p + 6)[0] == s[p + 0]);
            assert(s.subrange(p, p + 1)[0] == s[p + 0]);
            assert(false);
        }
    };
    assert(!match_at(s, p, "secs"@)) by {
        if match_at(s, p, "secs"@) {
            assert(s.subrange(p, p + 4)[0] == s[p + 0]);
            assert(s.subrange(p, p + 1)[0] == s[p + 0]);
            assert(false);
        }
    };
    assert(!match_at(s, p, "sec"@)) by {
        if match_at(s, p, "sec"@) {
            assert(s.subrange(p, p + 3)[0] == s[p + 0]);
            assert(s.subrange(p, p + 1)[0] == s[p + 0]);
            assert(false);
        }
    };
    assert(!match_at(s, p, "s"@)) by {
        if match_at(s, p, "s"@) {
            assert(s.subrange(p, p + 1)[0] == s[p + 0]);
            assert(s.subrange(p, p + 1)[0] == s[p + 0]);
            assert(false);
        }
    };
    assert(!match_at(s, p, "minutes"@)) by {
        if match_at(s, p, "minutes"@) {
            assert(s.subrange(p, p + 7)[1] == s[p + 1]);
            assert(false);
        }
    };
    assert(!match_at(s, p, "minute"@)) by {
        if match_at(s, p, "minute"@) {
            assert(s.subrange(p, p + 6)[1] == s[p + 1]);
            assert(false);
        }
    };
    assert(!match_at(s, p, "mins"@)) by {
        if match_at(s, p, "mins"@) {
            assert(s.subrange(p, p + 4)[1] == s[p + 1]);
            assert(false);
        }
    };
    assert(!match_at(s, p, "min"@)) by {
        if match_at(s, p, "min"@) {
            assert(s.subrange(p, p + 3)[1] == s[p + 1]);
            assert(false);
        }
    };
    assert(match_at(s, p, "m"@));
}

/// With `hours` at `p` and a blank right after it, the resolver yields `Hours`.
proof fn lemma_mid_hours_hours(s: Seq<char>, p: int)
    requires
        0 <= p,
        p + 5 < s.len(),
        s.subrange(p, p + 5) == "hours"@,
        crate::scan::is_sep_space(s[p + 5]),
    ensures
        resolve_unit(s, p) == Some((Unit::Hours, p + 5)),
{
    reveal_strlit("months");
    reveal_strlit("month");
    reveal_strlit("mths");
    reveal_strlit("mth");
    reveal_strlit("M");
    reveal_strlit("days");
    reveal_strlit("day");
    reveal_strlit("dys");
    reveal_strlit("dy");
    reveal_strlit("d");
    reveal_strlit("D");
    reveal_strlit("weeks");
    reveal_strlit("week");
    reveal_strlit("wks");
    reveal_strlit("wk");
    reveal_strlit("w");
    reveal_strlit("W");
    reveal_strlit("years");
    reveal_strlit("year");
    reveal_strlit("yrs");
    reveal_strlit("yr");
    reveal_strlit("y");
    reveal_strlit("Y");
    reveal_strlit("nanos");
    reveal_strlit("nsec");
    reveal_strlit("ns");
    reveal_strlit("micros");
    reveal_strlit("usec");
    reveal_strlit("us");
    reveal_strlit("millis");
    reveal_strlit("msec");
    reveal_strlit("ms");
    reveal_strlit("seconds");
    reveal_strlit("second");
    reveal_strlit("secs");
    reveal_strlit("sec");
    reveal_strlit("s");
    reveal_strlit("minutes");
    reveal_strlit("minute");
    reveal_strlit("mins");
    reveal_strlit("min");
    reveal_strlit("m");
    reveal_strlit("hours");
    reveal_strlit("hour");
    reveal_strlit("hrs");
    reveal_strlit("hr");
    reveal_strlit("h");
    reveal_strlit("H");
    assert(!match_at(s, p, "months"@)) by {
        if match_at(s, p, "months"@) {
            assert(s.subrange(p, p + 6)[0] == s[p + 0]);
            assert(s.subrange(p, p + 5)[0] == s[p + 0]);
            assert(false);
        }
    };
    assert(!match_at(s, p, "month"@)) by {
        if match_at(s, p, "month"@) {
            assert(s.subrange(p, p + 5)[0] == s[p + 0]);
            assert(s.subrange(p, p + 5)[0] == s[p + 0]);
            assert(false);
        }
    };
    assert(!match_at(s, p, "mths"@)) by {
        if match_at(s, p, "mths"@) {
            assert(s.subrange(p, p + 4)[0] == s[p + 0]);
            assert(s.subrange(p, p + 5)[0] == s[p + 0]);
            assert(false);
        }
    };
    assert(!match_at(s, p, "mth"@)) by {
        if match_at(s, p, "mth"@) {
            assert(s.subrange(p, p + 3)[0] == s[p + 0]);
            assert(s.subrange(p, p + 5)[0] == s[p + 0]);
            assert(false);
        }
    };
    assert(!match_at(s, p, "M"@)) by {
        if match_at(s, p, "M"@) {
            assert(s.subrange(p, p + 1)[0] == s[p + 0]);
            assert(s.subrange(p, p + 5)[0] == s[p + 0]);
            assert(false);
        }
    };
    assert(!match_at(s, p, "days"@)) by {
        if match_at(s, p, "days"@) {
            assert(s.subrange(p, p + 4)[0] == s[p + 0]);
            assert(s.subrange(p, p + 5)[0] == s[p + 0]);
            assert(false);
        }
    };
    assert(!match_at(s, p, "day"@)) by {
        if match_at(s, p, "day"@) {
            assert(s.subrange(p, p + 3)[0] == s[p + 0]);
            assert(s.subrange(p, p + 5)[0] == s[p + 0]);
            assert(false);
        }
    };
    assert(!match_at(s, p, "dys"@)) by {
        if match_at(s, p, "dys"@) {
            assert(s.subrange(p, p + 3)[0] == s[p + 0]);
            assert(s.subrange(p, p + 5)[0] == s[p + 0]);
            assert(false);
        }
    };
    assert(!match_at(s, p, "dy"@)) by {
        if match_at(s, p, "dy"@) {
            assert(s.subrange(p, p + 2)[0] == s[p + 0]);
            assert(s.subrange(p, p + 5)[0] == s[p + 0]);
            assert(false);
        }
    };
    assert(!match_at(s, p, "d"@)) by {
        if match_at(s, p, "d"@) {
            assert(s.subrange(p, p + 1)[0] == s[p + 0]);
            assert(s.subrange(p, p + 5)[0] == s[p + 0]);
            assert(false);
        }
    };
    assert(!match_at(s, p, "D"@)) by {
        if match_at(s, p, "D"@) {
            assert(s.subrange(p, p + 1)[0] == s[p + 0]);
            assert(s.subrange(p, p + 5)[0] == s[p + 0]);
            assert(false);
        }
    };
    assert(!match_at(s, p, "weeks"@)) by {
        if match_at(s, p, "weeks"@) {
            assert(s.subrange(p, p + 5)[0] == s[p + 0]);
            assert(s.subrange(p, p + 5)[0] == s[p + 0]);
            assert(false);
        }
    };
    assert(!match_at(s, p, "week"@)) by {
        if match_at(s, p, "week"@) {
            assert(s.subrange(p, p + 4)[0] == s[p + 0]);
            assert(s.subrange(p, p + 5)[0] == s[p + 0]);
            assert(false);
        }
    };
    assert(!match_at(s, p, "wks"@)) by {
        if match_at(s, p, "wks"@) {
            assert(s.subrange(p, p + 3)[0] == s[p + 0]);
            assert(s.subrange(p, p + 5)[0] == s[p + 0]);
            assert(false);
        }
    };
    assert(!match_at(s, p, "wk"@)) by {
        if match_at(s, p, "wk"@) {
            assert(s.subrange(p, p + 2)[0] == s[p + 0]);
            assert(s.subrange(p, p + 5)[0] == s[p + 0]);
            assert(false);
        }
    };
    assert(!match_at(s, p, "w"@)) by {
        if match_at(s, p, "w"@) {
            assert(s.subrange(p, p + 1)[0] == s[p + 0]);
            assert(s.subrange(p, p + 5)[0] == s[p + 0]);
            assert(false);
        }
    };
    assert(!match_at(s, p, "W"@)) by {
        if match_at(s, p, "W"@) {
            assert(s.subrange(p, p + 1)[0] == s[p + 0]);
            assert(s.subrange(p, p + 5)[0] == s[p + 0]);
            assert(false);
        }
    };
    assert(!match_at(s, p, "years"@)) by {
        if match_at(s, p, "years"@) {
            assert(s.subrange(p, p + 5)[0] == s[p + 0]);
            assert(s.subrange(p, p + 5)[0] == s[p + 0]);
            assert(false);
        }
    };
    assert(!match_at(s, p, "year"@)) by {
        if match_at(s, p, "year"@) {
            assert(s.subrange(p, p + 4)[0] == s[p + 0]);
            assert(s.subrange(p, p + 5)[0] == s[p + 0]);
            assert(false);
        }
    };
    assert(!match_at(s, p, "yrs"@)) by {
        if match_at(s, p, "yrs"@) {
            assert(s.subrange(p, p + 3)[0] == s[p + 0]);
            assert(s.subrange(p, p + 5)[0] == s[p + 0]);
            assert(false);
        }
    };
    assert(!match_at(s, p, "yr"@)) by {
        if match_at(s, p, "yr"@) {
            assert(s.subrange(p, p + 2)[0] == s[p + 0]);
            assert(s.subrange(p, p + 5)[0] == s[p + 0]);
            assert(false);
        }
    };
    assert(!match_at(s, p, "y"@)) by {
        if match_at(s, p, "y"@) {
            assert(s.subrange(p, p + 1)[0] == s[p + 0]);
            assert(s.subrange(p, p + 5)[0] == s[p + 0]);
            assert(false);
        }
    };
    assert(!match_at(s, p, "Y"@)) by {
        if match_at(s, p, "Y"@) {
            assert(s.subrange(p, p + 1)[0] == s[p + 0]);
            assert(s.subrange(p, p + 5)[0] == s[p + 0]);
            assert(false);
        }
    };
    assert(!match_at(s, p, "nanos"@)) by {
        if match_at(s, p, "nanos"@) {
            assert(s.subrange(p, p + 5)[0] == s[p + 0]);
            assert(s.subrange(p, p + 5)[0] == s[p + 0]);
            assert(false);
        }
    };
    assert(!match_at(s, p, "nsec"@)) by {
        if match_at(s, p, "nsec"@) {
            assert(s.subrange(p, p + 4)[0] == s[p + 0]);
            assert(s.subrange(p, p + 5)[0] == s[p + 0]);
            assert(false);
        }
    };
    assert(!match_at(s, p, "ns"@)) by {
        if match_at(s, p, "ns"@) {
            assert(s.subrange(p, p + 2)[0] == s[p + 0]);
            assert(s.subrange(p, p + 5)[0] == s[p + 0]);
            assert(false);
        }
    };
    assert(!match_at(s, p, "micros"@)) by {
        if match_at(s, p, "micros"@) {
            assert(s.subrange(p, p + 6)[0] == s[p + 0]);
            assert(s.subrange(p, p + 5)[0] == s[p + 0]);
            assert(false);
        }
    };
    assert(!match_at(s, p, "usec"@)) by {
        if match_at(s, p, "usec"@) {
            assert(s.subrange(p, p + 4)[0] == s[p + 0]);
            assert(s.subrange(p, p + 5)[0] == s[p + 0]);
            assert(false);
        }
    };
    assert(!match_at(s, p, "us"@)) by {
        if match_at(s, p, "us"@) {
            assert(s.subrange(p, p + 2)[0] == s[p + 0]);
            assert(s.subrange(p, p + 5)[0] == s[p + 0]);
            assert(false);
        }
    };
    assert(!match_at(s, p, "millis"@)) by {
        if match_at(s, p, "millis"@) {
            assert(s.subrange(p, p + 6)[0] == s[p + 0]);
            assert(s.subrange(p, p + 5)[0] == s[p + 0]);
            assert(false);
        }
    };
    assert(!match_at(s, p, "msec"@)) by {
        if match_at(s, p, "msec"@) {
            assert(s.subrange(p, p + 4)[0] == s[p + 0]);
            assert(s.subrange(p, p + 5)[0] == s[p + 0]);
            assert(false);
        }
    };
    assert(!match_at(s, p, "ms"@)) by {
        if match_at(s, p, "ms"@) {
            assert(s.subrange(p, p + 2)[0] == s[p + 0]);
            assert(s.subrange(p, p + 5)[0] == s[p + 0]);
            assert(false);
        }
    };
    assert(!match_at(s, p, "seconds"@)) by {
        if match_at(s, p, "seconds"@) {
            assert(s.subrange(p, p + 7)[0] == s[p + 0]);
            assert(s.subrange(p, p + 5)[0] == s[p + 0]);
            assert(false);
        }
    };
    assert(!match_at(s, p, "second"@)) by {
        if match_at(s, p, "second"@) {
            assert(s.subrange(p, p + 6)[0] == s[p + 0]);
            assert(s.subrange(p, p + 5)[0] == s[p + 0]);
            assert(false);
        }
    };
    assert(!match_at(s, p, "secs"@)) by {
        if match_at(s, p, "secs"@) {
            assert(s.subrange(p, p + 4)[0] == s[p + 0]);
            assert(s.subrange(p, p + 5)[0] == s[p + 0]);
            assert(false);
        }
    };
    assert(!match_at(s, p, "sec"@)) by {
        if match_at(s, p, "sec"@) {
            assert(s.subrange(p, p + 3)[0] == s[p + 0]);
            assert(s.subrange(p, p + 5)[0] == s[p + 0]);
            assert(false);
        }
    };
    assert(!match_at(s, p, "s"@)) by {
        if match_at(s, p, "s"@) {
            assert(s.subrange(p, p + 1)[0] == s[p + 0]);
            assert(s.subrange(p, p + 5)[0] == s[p + 0]);
            assert(false);
        }
    };
    assert(!match_at(s, p, "minutes"@)) by {
        if match_at(s, p, "minutes"@) {
            assert(s.subrange(p, p + 7)[0] == s[p + 0]);
            assert(s.subrange(p, p + 5)[0] == s[p + 0]);
            assert(false);
        }
    };
    assert(!match_at(s, p, "minute"@)) by {
        if match_at(s, p, "minute"@) {
            assert(s.subrange(p, p + 6)[0] == s[p + 0]);
            assert(s.subrange(p, p + 5)[0] == s[p + 0]);
            assert(false);
        }
    };
    assert(!match_at(s, p, "mins"@)) by {
        if match_at(s, p, "mins"@) {
            assert(s.subrange(p, p + 4)[0] == s[p + 0]);
            assert(s.subrange(p, p + 5)[0] == s[p + 0]);
            assert(false);
        }
    };
    assert(!match_at(s, p, "min"@)) by {
        if match_at(s, p, "min"@) {
            assert(s.subrange(p, p + 3)[0] == s[p + 0]);
            assert(s.subrange(p, p + 5)[0] == s[p + 0]);
            assert(false);
        }
    };
    assert(!match_at(s, p, "m"@)) by {
        if match_at(s, p, "m"@) {
            assert(s.subrange(p, p + 1)[0] == s[p + 0]);
            assert(s.subrange(p, p + 5)[0] == s[p + 0]);
            assert(false);
        }
    };
    assert(match_at(s, p, "hours"@));
}

/// With `hour` at `p` and a blank right after it, the resolver yields `Hours`.
proof fn lemma_mid_hours_hour(s: Seq<char>, p: int)
    requires
        0 <= p,
        p + 4 < s.len(),
        s.subrange(p, p + 4) == "hour"@,
        crate::scan::is_sep_space(s[p + 4]),
    ensures
        resolve_unit(s, p) == Some((Unit::Hours, p + 4)),
{
    reveal_strlit("months");
    reveal_strlit("month");
    reveal_strlit("mths");
    reveal_strlit("mth");
    reveal_strlit("M");
    reveal_strlit("days");
    reveal_strlit("day");
    reveal_strlit("dys");
    reveal_strlit("dy");
    reveal_strlit("d");
    reveal_strlit("D");
    reveal_strlit("weeks");
    reveal_strlit("week");
    reveal_strlit("wks");
    reveal_strlit("wk");
    reveal_strlit("w");
    reveal_strlit("W");
    reveal_strlit("years");
    reveal_strlit("year");
    reveal_strlit("yrs");
    reveal_strlit("yr");
    reveal_strlit("y");
    reveal_strlit("Y");
    reveal_strlit("nanos");
    reveal_strlit("nsec");
    reveal_strlit("ns");
    reveal_strlit("micros");
    reveal_strlit("usec");
    reveal_strlit("us");
    reveal_strlit("millis");
    reveal_strlit("msec");
    reveal_strlit("ms");
    reveal_strlit("seconds");
    reveal_strlit("second");
    reveal_strlit("secs");
    reveal_strlit("sec");
    reveal_strlit("s");
    reveal_strlit("minutes");
    reveal_strlit("minute");
    reveal_strlit("mins");
    reveal_strlit("min");
    reveal_strlit("m");
    reveal_strlit("hours");
    reveal_strlit("hour");
    reveal_strlit("hrs");
    reveal_strlit("hr");
    reveal_strlit("h");
    reveal_strlit("H");
    assert(!match_at(s, p, "months"@)) by {
        if match_at(s, p, "months"@) {
            assert(s.subrange(p, p + 6)[0] == s[p + 0]);
            assert(s.subrange(p, p + 4)[0] == s[p + 0]);
            assert(false);
        }
    };
    assert(!match_at(s, p, "month"@)) by {
        if match_at(s, p, "month"@) {
            assert(s.subrange(p, p + 5)[0] == s[p + 0]);
            assert(s.subrange(p, p + 4)[0] == s[p + 0]);
            assert(false);
        }
    };
    assert(!match_at(s, p, "mths"@)) by {
        if match_at(s, p, "mths"@) {
            assert(s.subrange(p, p + 4)[0] == s[p + 0]);
            assert(s.subrange(p, p + 4)[0] == s[p + 0]);
            assert(false);
        }
    };
    assert(!match_at(s, p, "mth"@)) by {
        if match_at(s, p, "mth"@) {
            assert(s.subrange(p, p + 3)[0] == s[p + 0]);
            assert(s.subrange(p, p + 4)[0] == s[p + 0]);
            assert(false);
        }
    };
    assert(!match_at(s, p, "M"@)) by {
        if match_at(s, p, "M"@) {
            assert(s.subrange(p, p + 1)[0] == s[p + 0]);
            assert(s.subrange(p, p + 4)[0] == s[p + 0]);
            assert(false);
        }
    };
    assert(!match_at(s, p, "days"@)) by {
        if match_at(s, p, "days"@) {
            assert(s.subrange(p, p + 4)[0] == s[p + 0]);
            assert(s.subrange(p, p + 4)[0] == s[p + 0]);
            assert(false);
        }
    };
    assert(!match_at(s, p, "day"@)) by {
        if match_at(s, p, "day"@) {
            assert(s.subrange(p, p + 3)[0] == s[p + 0]);
            assert(s.subrange(p, p + 4)[0] == s[p + 0]);
            assert(false);
        }
    };
    assert(!match_at(s, p, "dys"@)) by {
        if match_at(s, p, "dys"@) {
            assert(s.subrange(p, p + 3)[0] == s[p + 0]);
            assert(s.subrange(p, p + 4)[0] == s[p + 0]);
            assert(false);
        }
    };
    assert(!match_at(s, p, "dy"@)) by {
        if match_at(s, p, "dy"@) {
            assert(s.subrange(p, p + 2)[0] == s[p + 0]);
            assert(s.subrange(p, p + 4)[0] == s[p + 0]);
            assert(false);
        }
    };
    assert(!match_at(s, p, "d"@)) by {
        if match_at(s, p, "d"@) {
            assert(s.subrange(p, p + 1)[0] == s[p + 0]);
            assert(s.subrange(p, p + 4)[0] == s[p + 0]);
            assert(false);
        }
    };
    assert(!match_at(s, p, "D"@)) by {
        if match_at(s, p, "D"@) {
            assert(s.subrange(p, p + 1)[0] == s[p + 0]);
            assert(s.subrange(p, p + 4)[0] == s[p + 0]);
            assert(false);
        }
    };
    assert(!match_at(s, p, "weeks"@)) by {
        if match_at(s, p, "weeks"@) {
            assert(s.subrange(p, p + 5)[0] == s[p + 0]);
            assert(s.subrange(p, p + 4)[0] == s[p + 0]);
            assert(false);
        }
    };
    assert(!match_at(s, p, "week"@)) by {
        if match_at(s, p, "week"@) {
            assert(s.subrange(p, p + 4)[0] == s[p + 0]);
            assert(s.subrange(p, p + 4)[0] == s[p + 0]);
            assert(false);
        }
    };
    assert(!match_at(s, p, "wks"@)) by {
        if match_at(s, p, "wks"@) {
            assert(s.subrange(p, p + 3)[0] == s[p + 0]);
            assert(s.subrange(p, p + 4)[0] == s[p + 0]);
            assert(false);
        }
    };
    assert(!match_at(s, p, "wk"@)) by {
        if match_at(s, p, "wk"@) {
            assert(s.subrange(p, p + 2)[0] == s[p + 0]);
            assert(s.subrange(p, p + 4)[0] == s[p + 0]);
            assert(false);
        }
    };
    assert(!match_at(s, p, "w"@)) by {
        if match_at(s, p, "w"@) {
            assert(s.subrange(p, p + 1)[0] == s[p + 0]);
            assert(s.subrange(p, p + 4)[0] == s[p + 0]);
            assert(false);
        }
    };
    assert(!match_at(s, p, "W"@)) by {
        if match_at(s, p, "W"@) {
            assert(s.subrange(p, p + 1)[0] == s[p + 0]);
            assert(s.subrange(p, p + 4)[0] == s[p + 0]);
            assert(false);
        }
    };
    assert(!match_at(s, p, "years"@)) by {
        if match_at(s, p, "years"@) {
            assert(s.subrange(p, p + 5)[0] == s[p + 0]);
            assert(s.subrange(p, p + 4)[0] == s[p + 0]);
            assert(false);
        }
    };
    assert(!match_at(s, p, "year"@)) by {
        if match_at(s, p, "year"@) {
            assert(s.subrange(p, p + 4)[0] == s[p + 0]);
            assert(s.subrange(p, p + 4)[0] == s[p + 0]);
            assert(false);
        }
    };
    assert(!match_at(s, p, "yrs"@)) by {
        if match_at(s, p, "yrs"@) {
            assert(s.subrange(p, p + 3)[0] == s[p + 0]);
            assert(s.subrange(p, p + 4)[0] == s[p + 0]);
            assert(false);
        }
    };
    assert(!match_at(s, p, "yr"@)) by {
        if match_at(s, p, "yr"@) {
            assert(s.subrange(p, p + 2)[0] == s[p + 0]);
            assert(s.subrange(p, p + 4)[0] == s[p + 0]);
            assert(false);
        }
    };
    assert(!match_at(s, p, "y"@)) by {
        if match_at(s, p, "y"@) {
            assert(s.subrange(p, p + 1)[0] == s[p + 0]);
            assert(s.subrange(p, p + 4)[0] == s[p + 0]);
            assert(false);
        }
    };
    assert(!match_at(s, p, "Y"@)) by {
        if match_at(s, p, "Y"@) {
            assert(s.subrange(p, p + 1)[0] == s[p + 0]);
            assert(s.subrange(p, p + 4)[0] == s[p + 0]);
            assert(false);
        }
    };
    assert(!match_at(s, p, "nanos"@)) by {
        if match_at(s, p, "nanos"@) {
            assert(s.subrange(p, p + 5)[0] == s[p + 0]);
            assert(s.subrange(p, p + 4)[0] == s[p + 0]);
            assert(false);
        }
    };
    assert(!match_at(s, p, "nsec"@)) by {
        if match_at(s, p, "nsec"@) {
            assert(s.subrange(p, p + 4)[0] == s[p + 0]);
            assert(s.subrange(p, p + 4)[0] == s[p + 0]);
            assert(false);
        }
    };
    assert(!match_at(s, p, "ns"@)) by {
        if match_at(s, p, "ns"@) {
            assert(s.subrange(p, p + 2)[0] == s[p + 0]);
            assert(s.subrange(p, p + 4)[0] == s[p + 0]);
            assert(false);
        }
    };
    assert(!match_at(s, p, "micros"@)) by {
        if match_at(s, p, "micros"@) {
            assert(s.subrange(p, p + 6)[0] == s[p + 0]);
            assert(s.subrange(p, p + 4)[0] == s[p + 0]);
            assert(false);
        }
    };
    assert(!match_at(s, p, "usec"@)) by {
        if match_at(s, p, "usec"@) {
            assert(s.subrange(p, p + 4)[0] == s[p + 0]);
            assert(s.subrange(p, p + 4)[0] == s[p + 0]);
            assert(false);
        }
    };
    assert(!match_at(s, p, "us"@)) by {
        if match_at(s, p, "us"@) {
            assert(s.subrange(p, p + 2)[0] == s[p + 0]);
            assert(s.subrange(p, p + 4)[0] == s[p + 0]);
            assert(false);
        }
    };
    assert(!match_at(s, p, "millis"@)) by {
        if match_at(s, p, "millis"@) {
            assert(s.subrange(p, p + 6)[0] == s[p + 0]);
            assert(s.subrange(p, p + 4)[0] == s[p + 0]);
            assert(false);
        }
    };
    assert(!match_at(s, p, "msec"@)) by {
        if match_at(s, p, "msec"@) {
            assert(s.subrange(p, p + 4)[0] == s[p + 0]);
            assert(s.subrange(p, p + 4)[0] == s[p + 0]);
            assert(false);
        }
    };
    assert(!match_at(s, p, "ms"@)) by {
        if match_at(s, p, "ms"@) {
            assert(s.subrange(p, p + 2)[0] == s[p + 0]);
            assert(s.subrange(p, p + 4)[0] == s[p + 0]);
            assert(false);
        }
    };
    assert(!match_at(s, p, "seconds"@)) by {
        if match_at(s, p, "seconds"@) {
            assert(s.subrange(p, p + 7)[0] == s[p + 0]);
            assert(s.subrange(p, p + 4)[0] == s[p + 0]);
            assert(false);
        }
    };
    assert(!match_at(s, p, "second"@)) by {
        if match_at(s, p, "second"@) {
            assert(s.subrange(p, p + 6)[0] == s[p + 0]);
            assert(s.subrange(p, p + 4)[0] == s[p + 0]);
            assert(false);
        }
    };
    assert(!match_at(s, p, "secs"@)) by {
        if match_at(s, p, "secs"@) {
            assert(s.subrange(p, p + 4)[0] == s[p + 0]);
            assert(s.subrange(p, p + 4)[0] == s[p + 0]);
            assert(false);
        }
    };
    assert(!match_at(s, p, "sec"@)) by {
        if match_at(s, p, "sec"@) {
            assert(s.subrange(p, p + 3)[0] == s[p + 0]);
            assert(s.subrange(p, p + 4)[0] == s[p + 0]);
            assert(false);
        }
    };
    assert(!match_at(s, p, "s"@)) by {
        if match_at(s, p, "s"@) {
            assert(s.subrange(p, p + 1)[0] == s[p + 0]);
            assert(s.subrange(p, p + 4)[0] == s[p + 0]);
            assert(false);
        }
    };
    assert(!match_at(s, p, "minutes"@)) by {
        if match_at(s, p, "minutes"@) {
            assert(s.subrange(p, p + 7)[0] == s[p + 0]);
            assert(s.subrange(p, p + 4)[0] == s[p + 0]);
            assert(false);
        }
    };
    assert(!match_at(s, p, "minute"@)) by {
        if match_at(s, p, "minute"@) {
            assert(s.subrange(p, p + 6)[0] == s[p + 0]);
            assert(s.subrange(p, p + 4)[0] == s[p + 0]);
            assert(false);
        }
    };
    assert(!match_at(s, p, "mins"@)) by {
        if match_at(s, p, "mins"@) {
            assert(s.subrange(p, p + 4)[0] == s[p + 0]);
            assert(s.subrange(p, p + 4)[0] == s[p + 0]);
            assert(false);
        }
    };
    assert(!match_at(s, p, "min"@)) by {
        if match_at(s, p, "min"@) {
            assert(s.subrange(p, p + 3)[0] == s[p + 0]);
            assert(s.subrange(p, p + 4)[0] == s[p + 0]);
            assert(false);
        }
    };
    assert(!match_at(s, p, "m"@)) by {
        if match_at(s, p, "m"@) {
            assert(s.subrange(p, p + 1)[0] == s[p + 0]);
            assert(s.subrange(p, p + 4)[0] == s[p + 0]);
            assert(false);
        }
    };
    assert(!match_at(s, p, "hours"@)) by {
        if match_at(s, p, "hours"@) {
            assert(s.subrange(p, p + 5)[4] == s[p + 4]);
            assert(false);
        }
    };
    assert(match_at(s, p, "hour"@));
}

/// With `hrs` at `p` and a blank right after it, the resolver yields `Hours`.
proof fn lemma_mid_hours_hrs(s: Seq<char>, p: int)
    requires
        0 <= p,
        p + 3 < s.len(),
        s.subrange(p, p + 3) == "hrs"@,
        crate::scan::is_sep_space(s[p + 3]),
    ensures
        resolve_unit(s, p) == Some((Unit::Hours, p + 3)),
{
    reveal_strlit("months");
    reveal_strlit("month");
    reveal_strlit("mths");
    reveal_strlit("mth");
    reveal_strlit("M");
    reveal_strlit("days");
    reveal_strlit("day");
    reveal_strlit("dys");
    reveal_strlit("dy");
    reveal_strlit("d");
    reveal_strlit("D");
    reveal_strlit("weeks");
    reveal_strlit("week");
    reveal_strlit("wks");
    reveal_strlit("wk");
    reveal_strlit("w");
    reveal_strlit("W");
    reveal_strlit("years");
    reveal_strlit("year");
    reveal_strlit("yrs");
    reveal_strlit("yr");
    reveal_strlit("y");
    reveal_strlit("Y");
    reveal_strlit("nanos");
    reveal_strlit("nsec");
    reveal_strlit("ns");
    reveal_strlit("micros");
    reveal_strlit("usec");
    reveal_strlit("us");
    reveal_strlit("millis");
    reveal_strlit("msec");
    reveal_strlit("ms");
    reveal_strlit("seconds");
    reveal_strlit("second");
    reveal_strlit("secs");
    reveal_strlit("sec");
    reveal_strlit("s");
    reveal_strlit("minutes");
    reveal_strlit("minute");
    reveal_strlit("mins");
    reveal_strlit("min");
    reveal_strlit("m");
    reveal_strlit("hours");
    reveal_strlit("hour");
    reveal_strlit("hrs");
    reveal_strlit("hr");
    reveal_strlit("h");
    reveal_strlit("H");
    assert(!match_at(s, p, "months"@)) by {
        if match_at(s, p, "months"@) {
            assert(s.subrange(p, p + 6)[0] == s[p + 0]);
            assert(s.subrange(p, p + 3)[0] == s[p + 0]);
            assert(false);
        }
    };
    assert(!match_at(s, p, "month"@)) by {
        if match_at(s, p, "month"@) {
            assert(s.subrange(p, p + 5)[0] == s[p + 0]);
            assert(s.subrange(p, p + 3)[0] == s[p + 0]);
            assert(false);
        }
    };
    assert(!match_at(s, p, "mths"@)) by {
        if match_at(s, p, "mths"@) {
            assert(s.subrange(p, p + 4)[0] == s[p + 0]);
            assert(s.subrange(p, p + 3)[0] == s[p + 0]);
            assert(false);
        }
    };
    assert(!match_at(s, p, "mth"@)) by {
        if match_at(s, p, "mth"@) {
            assert(s.subrange(p, p + 3)[0] == s[p + 0]);
            assert(s.subrange(p, p + 3)[0] == s[p + 0]);
            assert(false);
        }
    };
    assert(!match_at(s, p, "M"@)) by {
        if match_at(s, p, "M"@) {
            assert(s.subrange(p, p + 1)[0] == s[p + 0]);
            assert(s.subrange(p, p + 3)[0] == s[p + 0]);
            assert(false);
        }
    };
    assert(!match_at(s, p, "days"@)) by {
        if match_at(s, p, "days"@) {
            assert(s.subrange(p, p + 4)[0] == s[p + 0]);
            assert(s.subrange(p, p + 3)[0] == s[p + 0]);
            assert(false);
        }
    };
    assert(!match_at(s, p, "day"@)) by {
        if match_at(s, p, "day"@) {
            assert(s.subrange(p, p + 3)[0] == s[p + 0]);
            assert(s.subrange(p, p + 3)[0] == s[p + 0]);
            assert(false);
        }
    };
    assert(!match_at(s, p, "dys"@)) by {
        if match_at(s, p, "dys"@) {
            assert(s.subrange(p, p + 3)[0] == s[p + 0]);
            assert(s.subrange(p, p + 3)[0] == s[p + 0]);
            assert(false);
        }
    };
    assert(!match_at(s, p, "dy"@)) by {
        if match_at(s, p, "dy"@) {
            assert(s.subrange(p, p + 2)[0] == s[p + 0]);
            assert(s.subrange(p, p + 3)[0] == s[p + 0]);
            assert(false);
        }
    };
    assert(!match_at(s, p, "d"@)) by {
        if match_at(s, p, "d"@) {
            assert(s.subrange(p, p + 1)[0] == s[p + 0]);
            assert(s.subrange(p, p + 3)[0] == s[p + 0]);
            assert(false);
        }
    };
    assert(!match_at(s, p, "D"@)) by {
        if match_at(s, p, "D"@) {
            assert(s.subrange(p, p + 1)[0] == s[p + 0]);
            assert(s.subrange(p, p + 3)[0] == s[p + 0]);
            assert(false);
        }
    };
    assert(!match_at(s, p, "weeks"@)) by {
        if match_at(s, p, "weeks"@) {
            assert(s.subrange(p, p + 5)[0] == s[p + 0]);
            assert(s.subrange(p, p + 3)[0] == s[p + 0]);
            assert(false);
        }
    };
    assert(!match_at(s, p, "week"@)) by {
        if match_at(s, p, "week"@) {
            assert(s.subrange(p, p + 4)[0] == s[p + 0]);
            assert(s.subrange(p, p + 3)[0] == s[p + 0]);
            assert(false);
        }
    };
    assert(!match_at(s, p, "wks"@)) by {
        if match_at(s, p, "wks"@) {
            assert(s.subrange(p, p + 3)[0] == s[p + 0]);
            assert(s.subrange(p, p + 3)[0] == s[p + 0]);
            assert(false);
        }
    };
    assert(!match_at(s, p, "wk"@)) by {
        if match_at(s, p, "wk"@) {
            assert(s.subrange(p, p + 2)[0] == s[p + 0]);
            assert(s.subrange(p, p + 3)[0] == s[p + 0]);
            assert(false);
        }
    };
    assert(!match_at(s, p, "w"@)) by {
        if match_at(s, p, "w"@) {
            assert(s.subrange(p, p + 1)[0] == s[p + 0]);
            assert(s.subrange(p, p + 3)[0] == s[p + 0]);
            assert(false);
        }
    };
    assert(!match_at(s, p, "W"@)) by {
        if match_at(s, p, "W"@) {
            assert(s.subrange(p, p + 1)[0] == s[p + 0]);
            assert(s.subrange(p, p + 3)[0] == s[p + 0]);
            assert(false);
        }
    };
    assert(!match_at(s, p, "years"@)) by {
        if match_at(s, p, "years"@) {
            assert(s.subrange(p, p + 5)[0] == s[p + 0]);
            assert(s.subrange(p, p + 3)[0] == s[p + 0]);
            assert(false);
        }
    };
    assert(!match_at(s, p, "year"@)) by {
        if match_at(s, p, "year"@) {
            assert(s.subrange(p, p + 4)[0] == s[p + 0]);
            assert(s.subrange(p, p + 3)[0] == s[p + 0]);
            assert(false);
        }
    };
    assert(!match_at(s, p, "yrs"@)) by {
        if match_at(s, p, "yrs"@) {
            assert(s.subrange(p, p + 3)[0] == s[p + 0]);
            assert(s.subrange(p, p + 3)[0] == s[p + 0]);
            assert(false);
        }
    };
    assert(!match_at(s, p, "yr"@)) by {
        if match_at(s, p, "yr"@) {
            assert(s.subrange(p, p + 2)[0] == s[p + 0]);
            assert(s.subrange(p, p + 3)[0] == s[p + 0]);
            assert(false);
        }
    };
    assert(!match_at(s, p, "y"@)) by {
        if match_at(s, p, "y"@) {
            assert(s.subrange(p, p + 1)[0] == s[p + 0]);
            assert(s.subrange(p, p + 3)[0] == s[p + 0]);
            assert(false);
        }
    };
    assert(!match_at(s, p, "Y"@)) by {
        if match_at(s, p, "Y"@) {
            assert(s.subrange(p, p + 1)[0] == s[p + 0]);
            assert(s.subrange(p, p + 3)[0] == s[p + 0]);
            assert(false);
        }
    };
    assert(!match_at(s, p, "nanos"@)) by {
        if match_at(s, p, "nanos"@) {
            assert(s.subrange(p, p + 5)[0] == s[p + 0]);
            assert(s.subrange(p, p + 3)[0] == s[p + 0]);
            assert(false);
        }
    };
    assert(!match_at(s, p, "nsec"@)) by {
        if match_at(s, p, "nsec"@) {
            assert(s.subrange(p, p + 4)[0] == s[p + 0]);
            assert(s.subrange(p, p + 3)[0] == s[p + 0]);
            assert(false);
        }
    };
    assert(!match_at(s, p, "ns"@)) by {
        if match_at(s, p, "ns"@) {
            assert(s.subrange(p, p + 2)[0] == s[p + 0]);
            assert(s.subrange(p, p + 3)[0] == s[p + 0]);
            assert(false);
        }
    };
    assert(!match_at(s, p, "micros"@)) by {
        if match_at(s, p, "micros"@) {
            assert(s.subrange(p, p + 6)[0] == s[p + 0]);
            assert(s.subrange(p, p + 3)[0] == s[p + 0]);
            assert(false);
        }
    };
    assert(!match_at(s, p, "usec"@)) by {
        if match_at(s, p, "usec"@) {
            assert(s.subrange(p, p + 4)[0] == s[p + 0]);
            assert(s.subrange(p, p + 3)[0] == s[p + 0]);
            assert(false);
        }
    };
    assert(!match_at(s, p, "us"@)) by {
        if match_at(s, p, "us"@) {
            assert(s.subrange(p, p + 2)[0] == s[p + 0]);
            assert(s.subrange(p, p + 3)[0] == s[p + 0]);
            assert(false);
        }
    };
    assert(!match_at(s, p, "millis"@)) by {
        if match_at(s, p, "millis"@) {
            assert(s.subrange(p, p + 6)[0] == s[p + 0]);
            assert(s.subrange(p, p + 3)[0] == s[p + 0]);
            assert(false);
        }
    };
    assert(!match_at(s, p, "msec"@)) by {
        if match_at(s, p, "msec"@) {
            assert(s.subrange(p, p + 4)[0] == s[p + 0]);
            assert(s.subrange(p, p + 3)[0] == s[p + 0]);
            assert(false);
        }
    };
    assert(!match_at(s, p, "ms"@)) by {
        if match_at(s, p, "ms"@) {
            assert(s.subrange(p, p + 2)[0] == s[p + 0]);
            assert(s.subrange(p, p + 3)[0] == s[p + 0]);
            assert(false);
        }
    };
    assert(!match_at(s, p, "seconds"@)) by {
        if match_at(s, p, "seconds"@) {
            assert(s.subrange(p, p + 7)[0] == s[p + 0]);
            assert(s.subrange(p, p + 3)[0] == s[p + 0]);
            assert(false);
        }
    };
    assert(!match_at(s, p, "second"@)) by {
        if match_at(s, p, "second"@) {
            assert(s.subrange(p, p + 6)[0] == s[p + 0]);
            assert(s.subrange(p, p + 3)[0] == s[p + 0]);
            assert(false);
        }
    };
    assert(!match_at(s, p, "secs"@)) by {
        if match_at(s, p, "secs"@) {
            assert(s.subrange(p, p + 4)[0] == s[p + 0]);
            assert(s.subrange(p, p + 3)[0] == s[p + 0]);
            assert(false);
        }
    };
    assert(!match_at(s, p, "sec"@)) by {
        if match_at(s, p, "sec"@) {
            assert(s.subrange(p, p + 3)[0] == s[p + 0]);
            assert(s.subrange(p, p + 3)[0] == s[p + 0]);
            assert(false);
        }
    };
    assert(!match_at(s, p, "s"@)) by {
        if match_at(s, p, "s"@) {
            assert(s.subrange(p, p + 1)[0] == s[p + 0]);
            assert(s.subrange(p, p + 3)[0] == s[p + 0]);
            assert(false);
        }
    };
    assert(!match_at(s, p, "minutes"@)) by {
        if match_at(s, p, "minutes"@) {
            assert(s.subrange(p, p + 7)[0] == s[p + 0]);
            assert(s.subrange(p, p + 3)[0] == s[p + 0]);
            assert(false);
        }
    };
    assert(!match_at(s, p, "minute"@)) by {
        if match_at(s, p, "minute"@) {
            assert(s.subrange(p, p + 6)[0] == s[p + 0]);
            assert(s.subrange(p, p + 3)[0] == s[p + 0]);
            assert(false);
        }
    };
    assert(!match_at(s, p, "mins"@)) by {
        if match_at(s, p, "mins"@) {
            assert(s.subrange(p, p + 4)[0] == s[p + 0]);
            assert(s.subrange(p, p + 3)[0] == s[p + 0]);
            assert(false);
        }
    };
    assert(!match_at(s, p, "min"@)) by {
        if match_at(s, p, "min"@) {
            assert(s.subrange(p, p + 3)[0] == s[p + 0]);
            assert(s.subrange(p, p + 3)[0] == s[p + 0]);
            assert(false);
        }
    };
    assert(!match_at(s, p, "m"@)) by {
        if match_at(s, p, "m"@) {
            assert(s.subrange(p, p + 1)[0] == s[p + 0]);
            assert(s.subrange(p, p + 3)[0] == s[p + 0]);
            assert(false);
        }
    };
    assert(!match_at(s, p, "hours"@)) by {
        if match_at(s, p, "hours"@) {
            assert(s.subrange(p, p + 5)[1] == s[p + 1]);
            assert(s.subrange(p, p + 3)[1] == s[p + 1]);
            assert(false);
        }
    };
    assert(!match_at(s, p, "hour"@)) by {
        if match_at(s, p, "hour"@) {
            assert(s.subrange(p, p + 4)[1] == s[p + 1]);
            assert(s.subrange(p, p + 3)[1] == s[p + 1]);
            assert(false);
        }
    };
    assert(match_at(s, p, "hrs"@));
}

/// With `hr` at `p` and a blank right after it, the resolver yields `Hours`.
proof fn lemma_mid_hours_hr(s: Seq<char>, p: int)
    requires
        0 <= p,
        p + 2 < s.len(),
        s.subrange(p, p + 2) == "hr"@,
        crate::scan::is_sep_space(s[p + 2]),
    ensures
        resolve_unit(s, p) == Some((Unit::Hours, p + 2)),
{
    reveal_strlit("months");
    reveal_strlit("month");
    reveal_strlit("mths");
    reveal_strlit("mth");
    reveal_strlit("M");
    reveal_strlit("days");
    reveal_strlit("day");
    reveal_strlit("dys");
    reveal_strlit("dy");
    reveal_strlit("d");
    reveal_strlit("D");
    reveal_strlit("weeks");
    reveal_strlit("week");
    reveal_strlit("wks");
    reveal_strlit("wk");
    reveal_strlit("w");
    reveal_strlit("W");
    reveal_strlit("years");
    reveal_strlit("year");
    reveal_strlit("yrs");
    reveal_strlit("yr");
    reveal_strlit("y");
    reveal_strlit("Y");
    reveal_strlit("nanos");
    reveal_strlit("nsec");
    reveal_strlit("ns");
    reveal_strlit("micros");
    reveal_strlit("usec");
    reveal_strlit("us");
    reveal_strlit("millis");
    reveal_strlit("msec");
    reveal_strlit("ms");
    reveal_strlit("seconds");
    reveal_strlit("second");
    reveal_strlit("secs");
    reveal_strlit("sec");
    reveal_strlit("s");
    reveal_strlit("minutes");
    reveal_strlit("minute");
    reveal_strlit("mins");
    reveal_strlit("min");
    reveal_strlit("m");
    reveal_strlit("hours");
    reveal_strlit("hour");
    reveal_strlit("hrs");
    reveal_strlit("hr");
    reveal_strlit("h");
    reveal_strlit("H");
    assert(!match_at(s, p, "months"@)) by {
        if match_at(s, p, "months"@) {
            assert(s.subrange(p, p + 6)[0] == s[p + 0]);
            assert(s.subrange(p, p + 2)[0] == s[p + 0]);
            assert(false);
        }
    };
    assert(!match_at(s, p, "month"@)) by {
        if match_at(s, p, "month"@) {
            assert(s.subrange(p, p + 5)[0] == s[p + 0]);
            assert(s.subrange(p, p + 2)[0] == s[p + 0]);
            assert(false);
        }
    };
    assert(!match_at(s, p, "mths"@)) by {
        if match_at(s, p, "mths"@) {
            assert(s.subrange(p, p + 4)[0] == s[p + 0]);
            assert(s.subrange(p, p + 2)[0] == s[p + 0]);
            assert(false);
        }
    };
    assert(!match_at(s, p, "mth"@)) by {
        if match_at(s, p, "mth"@) {
            assert(s.subrange(p, p + 3)[0] == s[p + 0]);
            assert(s.subrange(p, p + 2)[0] == s[p + 0]);
            assert(false);
        }
    };
    assert(!match_at(s, p, "M"@)) by {
        if match_at(s, p, "M"@) {
            assert(s.subrange(p, p + 1)[0] == s[p + 0]);
            assert(s.subrange(p, p + 2)[0] == s[p + 0]);
            assert(false);
        }
    };
    assert(!match_at(s, p, "days"@)) by {
        if match_at(s, p, "days"@) {
            assert(s.subrange(p, p + 4)[0] == s[p + 0]);
            assert(s.subrange(p, p + 2)[0] == s[p + 0]);
            assert(false);
        }
    };
    assert(!match_at(s, p, "day"@)) by {
        if match_at(s, p, "day"@) {
            assert(s.subrange(p, p + 3)[0] == s[p + 0]);
            assert(s.subrange(p, p + 2)[0] == s[p + 0]);
            assert(false);
        }
    };
    assert(!match_at(s, p, "dys"@)) by {
        if match_at(s, p, "dys"@) {
            assert(s.subrange(p, p + 3)[0] == s[p + 0]);
            assert(s.subrange(p, p + 2)[0] == s[p + 0]);
            assert(false);
        }
    };
    assert(!match_at(s, p, "dy"@)) by {
        if match_at(s, p, "dy"@) {
            assert(s.subrange(p, p + 2)[0] == s[p + 0]);
            assert(s.subrange(p, p + 2)[0] == s[p + 0]);
            assert(false);
        }
    };
    assert(!match_at(s, p, "d"@)) by {
        if match_at(s, p, "d"@) {
            assert(s.subrange(p, p + 1)[0] == s[p + 0]);
            assert(s.subrange(p, p + 2)[0] == s[p + 0]);
            assert(false);
        }
    };
    assert(!match_at(s, p, "D"@)) by {
        if match_at(s, p, "D"@) {
            assert(s.subrange(p, p + 1)[0] == s[p + 0]);
            assert(s.subrange(p, p + 2)[0] == s[p + 0]);
            assert(false);
        }
    };
    assert(!match_at(s, p, "weeks"@)) by {
        if match_at(s, p, "weeks"@) {
            assert(s.subrange(p, p + 5)[0] == s[p + 0]);
            assert(s.subrange(p, p + 2)[0] == s[p + 0]);
            assert(false);
        }
    };
    assert(!match_at(s, p, "week"@)) by {
        if match_at(s, p, "week"@) {
            assert(s.subrange(p, p + 4)[0] == s[p + 0]);
            assert(s.subrange(p, p + 2)[0] == s[p + 0]);
            assert(false);
        }
    };
    assert(!match_at(s, p, "wks"@)) by {
        if match_at(s, p, "wks"@) {
            assert(s.subrange(p, p + 3)[0] == s[p + 0]);
            assert(s.subrange(p, p + 2)[0] == s[p + 0]);
            assert(false);
        }
    };
    assert(!match_at(s, p, "wk"@)) by {
        if match_at(s, p, "wk"@) {
            assert(s.subrange(p, p + 2)[0] == s[p + 0]);
            assert(s.subrange(p, p + 2)[0] == s[p + 0]);
            assert(false);
        }
    };
    assert(!match_at(s, p, "w"@)) by {
        if match_at(s, p, "w"@) {
            assert(s.subrange(p, p + 1)[0] == s[p + 0]);
            assert(s.subrange(p, p + 2)[0] == s[p + 0]);
            assert(false);
        }
    };
    assert(!match_at(s, p, "W"@)) by {
        if match_at(s, p, "W"@) {
            assert(s.subrange(p, p + 1)[0] == s[p + 0]);
            assert(s.subrange(p, p + 2)[0] == s[p + 0]);
            assert(false);
        }
    };
    assert(!match_at(s, p, "years"@)) by {
        if match_at(s, p, "years"@) {
            assert(s.subrange(p, p + 5)[0] == s[p + 0]);
            assert(s.subrange(p, p + 2)[0] == s[p + 0]);
            assert(false);
        }
    };
    assert(!match_at(s, p, "year"@)) by {
        if match_at(s, p, "year"@) {
            assert(s.subrange(p, p + 4)[0] == s[p + 0]);
            assert(s.subrange(p, p + 2)[0] == s[p + 0]);
            assert(false);
        }
    };
    assert(!match_at(s, p, "yrs"@)) by {
        if match_at(s, p, "yrs"@) {
            assert(s.subrange(p, p + 3)[0] == s[p + 0]);
            assert(s.subrange(p, p + 2)[0] == s[p + 0]);
            assert(false);
        }
    };
    assert(!match_at(s, p, "yr"@)) by {
        if match_at(s, p, "yr"@) {
            assert(s.subrange(p, p + 2)[0] == s[p + 0]);
            assert(s.subrange(p, p + 2)[0] == s[p + 0]);
            assert(false);
        }
    };
    assert(!match_at(s, p, "y"@)) by {
        if match_at(s, p, "y"@) {
            assert(s.subrange(p, p + 1)[0] == s[p + 0]);
            assert(s.subrange(p, p + 2)[0] == s[p + 0]);
            assert(false);
        }
    };
    assert(!match_at(s, p, "Y"@)) by {
        if match_at(s, p, "Y"@) {
            assert(s.subrange(p, p + 1)[0] == s[p + 0]);
            assert(s.subrange(p, p + 2)[0] == s[p + 0]);
            assert(false);
        }
    };
    assert(!match_at(s, p, "nanos"@)) by {
        if match_at(s, p, "nanos"@) {
            assert(s.subrange(p, p + 5)[0] == s[p + 0]);
            assert(s.subrange(p, p + 2)[0] == s[p + 0]);
            assert(false);
        }
    };
    assert(!match_at(s, p, "nsec"@)) by {
        if match_at(s, p, "nsec"@) {
            assert(s.subrange(p, p + 4)[0] == s[p + 0]);
            assert(s.subrange(p, p + 2)[0] == s[p + 0]);
            assert(false);
        }
    };
    assert(!match_at(s, p, "ns"@)) by {
        if match_at(s, p, "ns"@) {
            assert(s.subrange(p, p + 2)[0] == s[p + 0]);
            assert(s.subrange(p, p + 2)[0] == s[p + 0]);
            assert(false);
        }
    };
    assert(!match_at(s, p, "micros"@)) by {
        if match_at(s, p, "micros"@) {
            assert(s.subrange(p, p + 6)[0] == s[p + 0]);
            assert(s.subrange(p, p + 2)[0] == s[p + 0]);
            assert(false);
        }
    };
    assert(!match_at(s, p, "usec"@)) by {
        if match_at(s, p, "usec"@) {
            assert(s.subrange(p, p + 4)[0] == s[p + 0]);
            assert(s.subrange(p, p + 2)[0] == s[p + 0]);
            assert(false);
        }
    };
    assert(!match_at(s, p, "us"@)) by {
        if match_at(s, p, "us"@) {
            assert(s.subrange(p, p + 2)[0] == s[p + 0]);
            assert(s.subrange(p, p + 2)[0] == s[p + 0]);
            assert(false);
        }
    };
    assert(!match_at(s, p, "millis"@)) by {
        if match_at(s, p, "millis"@) {
            assert(s.subrange(p, p + 6)[0] == s[p + 0]);
            assert(s.subrange(p, p + 2)[0] == s[p + 0]);
            assert(false);
        }
    };
    assert(!match_at(s, p, "msec"@)) by {
        if match_at(s, p, "msec"@) {
            assert(s.subrange(p, p + 4)[0] == s[p + 0]);
            assert(s.subrange(p, p + 2)[0] == s[p + 0]);
            assert(false);
        }
    };
    assert(!match_at(s, p, "ms"@)) by {
        if match_at(s, p, "ms"@) {
            assert(s.subrange(p, p + 2)[0] == s[p + 0]);
            assert(s.subrange(p, p + 2)[0] == s[p + 0]);
            assert(false);
        }
    };
    assert(!match_at(s, p, "seconds"@)) by {
        if match_at(s, p, "seconds"@) {
            assert(s.subrange(p, p + 7)[0] == s[p + 0]);
            assert(s.subrange(p, p + 2)[0] == s[p + 0]);
            assert(false);
        }
    };
    assert(!match_at(s, p, "second"@)) by {
        if match_at(s, p, "second"@) {
            assert(s.subrange(p, p + 6)[0] == s[p + 0]);
            assert(s.subrange(p, p + 2)[0] == s[p + 0]);
            assert(false);
        }
    };
    assert(!match_at(s, p, "secs"@)) by {
        if match_at(s, p, "secs"@) {
            assert(s.subrange(p, p + 4)[0] == s[p + 0]);
            assert(s.subrange(p, p + 2)[0] == s[p + 0]);
            assert(false);
        }
    };
    assert(!match_at(s, p, "sec"@)) by {
        if match_at(s, p, "sec"@) {
            assert(s.subrange(p, p + 3)[0] == s[p + 0]);
            assert(s.subrange(p, p + 2)[0] == s[p + 0]);
            assert(false);
        }
    };
    assert(!match_at(s, p, "s"@)) by {
        if match_at(s, p, "s"@) {
            assert(s.subrange(p, p + 1)[0] == s[p + 0]);
            assert(s.subrange(p, p + 2)[0] == s[p + 0]);
            assert(false);
        }
    };
    assert(!match_at(s, p, "minutes"@)) by {
        if match_at(s, p, "minutes"@) {
            assert(s.subrange(p, p + 7)[0] == s[p + 0]);
            assert(s.subrange(p, p + 2)[0] == s[p + 0]);
            assert(false);
        }
    };
    assert(!match_at(s, p, "minute"@)) by {
        if match_at(s, p, "minute"@) {
            assert(s.subrange(p, p + 6)[0] == s[p + 0]);
            assert(s.subrange(p, p + 2)[0] == s[p + 0]);
            assert(false);
        }
    };
    assert(!match_at(s, p, "mins"@)) by {
        if match_at(s, p, "mins"@) {
            assert(s.subrange(p, p + 4)[0] == s[p + 0]);
            assert(s.subrange(p, p + 2)[0] == s[p + 0]);
            assert(false);
        }
    };
    assert(!match_at(s, p, "min"@)) by {
        if match_at(s, p, "min"@) {
            assert(s.subrange(p, p + 3)[0] == s[p + 0]);
            assert(s.subrange(p, p + 2)[0] == s[p + 0]);
            assert(false);
        }
    };
    assert(!match_at(s, p, "m"@)) by {
        if match_at(s, p, "m"@) {
            assert(s.subrange(p, p + 1)[0] == s[p + 0]);
            assert(s.subrange(p, p + 2)[0] == s[p + 0]);
            assert(false);
        }
    };
    assert(!match_at(s, p, "hours"@)) by {
        if match_at(s, p, "hours"@) {
            assert(s.subrange(p, p + 5)[1] == s[p + 1]);
            assert(s.subrange(p, p + 2)[1] == s[p + 1]);
            assert(false);
        }
    };
    assert(!match_at(s, p, "hour"@)) by {
        if match_at(s, p, "hour"@) {
            assert(s.subrange(p, p + 4)[1] == s[p + 1]);
            assert(s.subrange(p, p + 2)[1] == s[p + 1]);
            assert(false);
        }
    };
    assert(!match_at(s, p, "hrs"@)) by {
        if match_at(s, p, "hrs"@) {
            assert(s.subrange(p, p + 3)[2] == s[p + 2]);
            assert(false);
        }
    };
    assert(match_at(s, p, "hr"@));
}

/// With `h` at `p` and a blank right after it, the resolver yields `Hours`.
proof fn lemma_mid_hours_h(s: Seq<char>, p: int)
    requires
        0 <= p,
        p + 1 < s.len(),
        s.subrange(p, p + 1) == "h"@,
        crate::scan::is_sep_space(s[p + 1]),
    ensures
        resolve_unit(s, p) == Some((Unit::Hours, p + 1)),
{
    reveal_strlit("months");
    reveal_strlit("month");
    reveal_strlit("mths");
    reveal_strlit("mth");
    reveal_strlit("M");
    reveal_strlit("days");
    reveal_strlit("day");
    reveal_strlit("dys");
    reveal_strlit("dy");
    reveal_strlit("d");
    reveal_strlit("D");
    reveal_strlit("weeks");
    reveal_strlit("week");
    reveal_strlit("wks");
    reveal_strlit("wk");
    reveal_strlit("w");
    reveal_strlit("W");
    reveal_strlit("years");
    reveal_strlit("year");
    reveal_strlit("yrs");
    reveal_strlit("yr");
    reveal_strlit("y");
    reveal_strlit("Y");
    reveal_strlit("nanos");
    reveal_strlit("nsec");
    reveal_strlit("ns");
    reveal_strlit("micros");
    reveal_strlit("usec");
    reveal_strlit("us");
    reveal_strlit("millis");
    reveal_strlit("msec");
    reveal_strlit("ms");
    reveal_strlit("seconds");
    reveal_strlit("second");
    reveal_strlit("secs");
    reveal_strlit("sec");
    reveal_strlit("s");
    reveal_strlit("minutes");
    reveal_strlit("minute");
    reveal_strlit("mins");
    reveal_strlit("min");
    reveal_strlit("m");
    reveal_strlit("hours");
    reveal_strlit("hour");
    reveal_strlit("hrs");
    reveal_strlit("hr");
    reveal_strlit("h");
    reveal_strlit("H");
    assert(!match_at(s, p, "months"@)) by {
        if match_at(s, p, "months"@) {
            assert(s.subrange(p, p + 6)[0] == s[p + 0]);
            assert(s.subrange(p, p + 1)[0] == s[p + 0]);
            assert(false);
        }
    };
    assert(!match_at(s, p, "month"@)) by {
        if match_at(s, p, "month"@) {
            assert(s.subrange(p, p + 5)[0] == s[p + 0]);
            assert(s.subrange(p, p + 1)[0] == s[p + 0]);
            assert(false);
        }
    };
    assert(!match_at(s, p, "mths"@)) by {
        if match_at(s, p, "mths"@) {
            assert(s.subrange(p, p + 4)[0] == s[p + 0]);
            assert(s.subrange(p, p + 1)[0] == s[p + 0]);
            assert(false);
        }
    };
    assert(!match_at(s, p, "mth"@)) by {
        if match_at(s, p, "mth"@) {
            assert(s.subrange(p, p + 3)[0] == s[p + 0]);
            assert(s.subrange(p, p + 1)[0] == s[p + 0]);
            assert(false);
        }
    };
    assert(!match_at(s, p, "M"@)) by {
        if match_at(s, p, "M"@) {
            assert(s.subrange(p, p + 1)[0] == s[p + 0]);
            assert(s.subrange(p, p + 1)[0] == s[p + 0]);
            assert(false);
        }
    };
    assert(!match_at(s, p, "days"@)) by {
        if match_at(s, p, "days"@) {
            assert(s.subrange(p, p + 4)[0] == s[p + 0]);
            assert(s.subrange(p, p + 1)[0] == s[p + 0]);
            assert(false);
        }
    };
    assert(!match_at(s, p, "day"@)) by {
        if match_at(s, p, "day"@) {
            assert(s.subrange(p, p + 3)[0] == s[p + 0]);
            assert(s.subrange(p, p + 1)[0] == s[p + 0]);
            assert(false);
        }
    };
    assert(!match_at(s, p, "dys"@)) by {
        if match_at(s, p, "dys"@) {
            assert(s.subrange(p, p + 3)[0] == s[p + 0]);
            assert(s.subrange(p, p + 1)[0] == s[p + 0]);
            assert(false);
        }
    };
    assert(!match_at(s, p, "dy"@)) by {
        if match_at(s, p, "dy"@) {
            assert(s.subrange(p, p + 2)[0] == s[p + 0]);
            assert(s.subrange(p, p + 1)[0] == s[p + 0]);
            assert(false);
        }
    };
    assert(!match_at(s, p, "d"@)) by {
        if match_at(s, p, "d"@) {
            assert(s.subrange(p, p + 1)[0] == s[p + 0]);
            assert(s.subrange(p, p + 1)[0] == s[p + 0]);
            assert(false);
        }
    };
    assert(!match_at(s, p, "D"@)) by {
        if match_at(s, p, "D"@) {
            assert(s.subrange(p, p + 1)[0] == s[p + 0]);
            assert(s.subrange(p, p + 1)[0] == s[p + 0]);
            assert(false);
        }
    };
    assert(!match_at(s, p, "weeks"@)) by {
        if match_at(s, p, "weeks"@) {
            assert(s.subrange(p, p + 5)[0] == s[p + 0]);
            assert(s.subrange(p, p + 1)[0] == s[p + 0]);
            assert(false);
        }
    };
    assert(!match_at(s, p, "week"@)) by {
        if match_at(s, p, "week"@) {
            assert(s.subrange(p, p + 4)[0] == s[p + 0]);
            assert(s.subrange(p, p + 1)[0] == s[p + 0]);
            assert(false);
        }
    };
    assert(!match_at(s, p, "wks"@)) by {
        if match_at(s, p, "wks"@) {
            assert(s.subrange(p, p + 3)[0] == s[p + 0]);
            assert(s.subrange(p, p + 1)[0] == s[p + 0]);
            assert(false);
        }
    };
    assert(!match_at(s, p, "wk"@)) by {
        if match_at(s, p, "wk"@) {
            assert(s.subrange(p, p + 2)[0] == s[p + 0]);
            assert(s.subrange(p, p + 1)[0] == s[p + 0]);
            assert(false);
        }
    };
    assert(!match_at(s, p, "w"@)) by {
        if match_at(s, p, "w"@) {
            assert(s.subrange(p, p + 1)[0] == s[p + 0]);
            assert(s.subrange(p, p + 1)[0] == s[p + 0]);
            assert(false);
        }
    };
    assert(!match_at(s, p, "W"@)) by {
        if match_at(s, p, "W"@) {
            assert(s.subrange(p, p + 1)[0] == s[p + 0]);
            assert(s.subrange(p, p + 1)[0] == s[p + 0]);
            assert(false);
        }
    };
    assert(!match_at(s, p, "years"@)) by {
        if match_at(s, p, "years"@) {
            assert(s.subrange(p, p + 5)[0] == s[p + 0]);
            assert(s.subrange(p, p + 1)[0] == s[p + 0]);
            assert(false);
        }
    };
    assert(!match_at(s, p, "year"@)) by {
        if match_at(s, p, "year"@) {
            assert(s.subrange(p, p + 4)[0] == s[p + 0]);
            assert(s.subrange(p, p + 1)[0] == s[p + 0]);
            assert(false);
        }
    };
    assert(!match_at(s, p, "yrs"@)) by {
        if match_at(s, p, "yrs"@) {
            assert(s.subrange(p, p + 3)[0] == s[p + 0]);
            assert(s.subrange(p, p + 1)[0] == s[p + 0]);
            assert(false);
        }
    };
    assert(!match_at(s, p, "yr"@)) by {
        if match_at(s, p, "yr"@) {
            assert(s.subrange(p, p + 2)[0] == s[p + 0]);
            assert(s.subrange(p, p + 1)[0] == s[p + 0]);
            assert(false);
        }
    };
    assert(!match_at(s, p, "y"@)) by {
        if match_at(s, p, "y"@) {
            assert(s.subrange(p, p + 1)[0] == s[p + 0]);
            assert(s.subrange(p, p + 1)[0] == s[p + 0]);
            assert(false);
        }
    };
    assert(!match_at(s, p, "Y"@)) by {
        if match_at(s, p, "Y"@) {
            assert(s.subrange(p, p + 1)[0] == s[p + 0]);
            assert(s.subrange(p, p + 1)[0] == s[p + 0]);
            assert(false);
        }
    };
    assert(!match_at(s, p, "nanos"@)) by {
        if match_at(s, p, "nanos"@) {
            assert(s.subrange(p, p + 5)[0] == s[p + 0]);
            assert(s.subrange(p, p + 1)[0] == s[p + 0]);
            assert(false);
        }
    };
    assert(!match_at(s, p, "nsec"@)) by {
        if match_at(s, p, "nsec"@) {
            assert(s.subrange(p, p + 4)[0] == s[p + 0]);
            assert(s.subrange(p, p + 1)[0] == s[p + 0]);
            assert(false);
        }
    };
    assert(!match_at(s, p, "ns"@)) by {
        if match_at(s, p, "ns"@) {
            assert(s.subrange(p, p + 2)[0] == s[p + 0]);
            assert(s.subrange(p, p + 1)[0] == s[p + 0]);
            assert(false);
        }
    };
    assert(!match_at(s, p, "micros"@)) by {
        if match_at(s, p, "micros"@) {
            assert(s.subrange(p, p + 6)[0] == s[p + 0]);
            assert(s.subrange(p, p + 1)[0] == s[p + 0]);
            assert(false);
        }
    };
    assert(!match_at(s, p, "usec"@)) by {
        if match_at(s, p, "usec"@) {
            assert(s.subrange(p, p + 4)[0] == s[p + 0]);
            assert(s.subrange(p, p + 1)[0] == s[p + 0]);
            assert(false);
        }
    };
    assert(!match_at(s, p, "us"@)) by {
        if match_at(s, p, "us"@) {
            assert(s.subrange(p, p + 2)[0] == s[p + 0]);
            assert(s.subrange(p, p + 1)[0] == s[p + 0]);
            assert(false);
        }
    };
    assert(!match_at(s, p, "millis"@)) by {
        if match_at(s, p, "millis"@) {
            assert(s.subrange(p, p + 6)[0] == s[p + 0]);
            assert(s.subrange(p, p + 1)[0] == s[p + 0]);
            assert(false);
        }
    };
    assert(!match_at(s, p, "msec"@)) by {
        if match_at(s, p, "msec"@) {
            assert(s.subrange(p, p + 4)[0] == s[p + 0]);
            assert(s.subrange(p, p + 1)[0] == s[p + 0]);
            assert(false);
        }
    };
    assert(!match_at(s, p, "ms"@)) by {
        if match_at(s, p, "ms"@) {
            assert(s.subrange(p, p + 2)[0] == s[p + 0]);
            assert(s.subrange(p, p + 1)[0] == s[p + 0]);
            assert(false);
        }
    };
    assert(!match_at(s, p, "seconds"@)) by {
        if match_at(s, p, "seconds"@) {
            assert(s.subrange(p, p + 7)[0] == s[p + 0]);
            assert(s.subrange(p, p + 1)[0] == s[p + 0]);
            assert(false);
        }
    };
    assert(!match_at(s, p, "second"@)) by {
        if match_at(s, p, "second"@) {
            assert(s.subrange(p, p + 6)[0] == s[p + 0]);
            assert(s.subrange(p, p + 1)[0] == s[p + 0]);
            assert(false);
        }
    };
    assert(!match_at(s, p, "secs"@)) by {
        if match_at(s, p, "secs"@) {
            assert(s.subrange(p, p + 4)[0] == s[p + 0]);
            assert(s.subrange(p, p + 1)[0] == s[p + 0]);
            assert(false);
        }
    };
    assert(!match_at(s, p, "sec"@)) by {
        if match_at(s, p, "sec"@) {
            assert(s.subrange(p, p + 3)[0] == s[p + 0]);
            assert(s.subrange(p, p + 1)[0] == s[p + 0]);
            assert(false);
        }
    };
    assert(!match_at(s, p, "s"@)) by {
        if match_at(s, p, "s"@) {
            assert(s.subrange(p, p + 1)[0] == s[p + 0]);
            assert(s.subrange(p, p + 1)[0] == s[p + 0]);
            assert(false);
        }
    };
    assert(!match_at(s, p, "minutes"@)) by {
        if match_at(s, p, "minutes"@) {
            assert(s.subrange(p, p + 7)[0] == s[p + 0]);
            assert(s.subrange(p, p + 1)[0] == s[p + 0]);
            assert(false);
        }
    };
    assert(!match_at(s, p, "minute"@)) by {
        if match_at(s, p, "minute"@) {
            assert(s.subrange(p, p + 6)[0] == s[p + 0]);
            assert(s.subrange(p, p + 1)[0] == s[p + 0]);
            assert(false);
        }
    };
    assert(!match_at(s, p, "mins"@)) by {
        if match_at(s, p, "mins"@) {
            assert(s.subrange(p, p + 4)[0] == s[p + 0]);
            assert(s.subrange(p, p + 1)[0] == s[p + 0]);
            assert(false);
        }
    };
    assert(!match_at(s, p, "min"@)) by {
        if match_at(s, p, "min"@) {
            assert(s.subrange(p, p + 3)[0] == s[p + 0]);
            assert(s.subrange(p, p + 1)[0] == s[p + 0]);
            assert(false);
        }
    };
    assert(!match_at(s, p, "m"@)) by {
        if match_at(s, p, "m"@) {
            assert(s.subrange(p, p + 1)[0] == s[p + 0]);
            assert(s.subrange(p, p + 1)[0] == s[p + 0]);
            assert(false);
        }
    };
    assert(!match_at(s, p, "hours"@)) by {
        if match_at(s, p, "hours"@) {
            assert(s.subrange(p, p + 5)[1] == s[p + 1]);
            assert(false);
        }
    };
    assert(!match_at(s, p, "hour"@)) by {
        if match_at(s, p, "hour"@) {
            assert(s.subrange(p, p + 4)[1] == s[p + 1]);
            assert(false);
        }
    };
    assert(!match_at(s, p, "hrs"@)) by {
        if match_at(s, p, "hrs"@) {
            assert(s.subrange(p, p + 3)[1] == s[p + 1]);
            assert(false);
        }
    };
    assert(!match_at(s, p, "hr"@)) by {
        if match_at(s, p, "hr"@) {
            assert(s.subrange(p, p + 2)[1] == s[p + 1]);
            assert(false);
        }
    };
    assert(match_at(s, p, "h"@));
}

/// With `H` at `p` and a blank right after it, the resolver yields `Hours`.
proof fn lemma_mid_hours_cap_h(s: Seq<char>, p: int)
    requires
        0 <= p,
        p + 1 < s.len(),
        s.subrange(p, p + 1) == "H"@,
        crate::scan::is_sep_space(s[p + 1]),
    ensures
        resolve_unit(s, p) == Some((Unit::Hours, p + 1)),
{
    reveal_strlit("months");
    reveal_strlit("month");
    reveal_strlit("mths");
    reveal_strlit("mth");
    reveal_strlit("M");
    reveal_strlit("days");
    reveal_strlit("day");
    reveal_strlit("dys");
    reveal_strlit("dy");
    reveal_strlit("d");
    reveal_strlit("D");
    reveal_strlit("weeks");
    reveal_strlit("week");
    reveal_strlit("wks");
    reveal_strlit("wk");
    reveal_strlit("w");
    reveal_strlit("W");
    reveal_strlit("years");
    reveal_strlit("year");
    reveal_strlit("yrs");
    reveal_strlit("yr");
    reveal_strlit("y");
    reveal_strlit("Y");
    reveal_strlit("nanos");
    reveal_strlit("nsec");
    reveal_strlit("ns");
    reveal_strlit("micros");
    reveal_strlit("usec");
    reveal_strlit("us");
    reveal_strlit("millis");
    reveal_strlit("msec");
    reveal_strlit("ms");
    reveal_strlit("seconds");
    reveal_strlit("second");
    reveal_strlit("secs");
    reveal_strlit("sec");
    reveal_strlit("s");
    reveal_strlit("minutes");
    reveal_strlit("minute");
    reveal_strlit("mins");
    reveal_strlit("min");
    reveal_strlit("m");
    reveal_strlit("hours");
    reveal_strlit("hour");
    reveal_strlit("hrs");
    reveal_strlit("hr");
    reveal_strlit("h");
    reveal_strlit("H");
    assert(!match_at(s, p, "months"@)) by {
        if match_at(s, p, "months"@) {
            assert(s.subrange(p, p + 6)[0] == s[p + 0]);
            assert(s.subrange(p, p + 1)[0] == s[p + 0]);
            assert(false);
        }
    };
    assert(!match_at(s, p, "month"@)) by {
        if match_at(s, p, "month"@) {
            assert(s.subrange(p, p + 5)[0] == s[p + 0]);
            assert(s.subrange(p, p + 1)[0] == s[p + 0]);
            assert(false);
        }
    };
    assert(!match_at(s, p, "mths"@)) by {
        if match_at(s, p, "mths"@) {
            assert(s.subrange(p, p + 4)[0] == s[p + 0]);
            assert(s.subrange(p, p + 1)[0] == s[p + 0]);
            assert(false);
        }
    };
    assert(!match_at(s, p, "mth"@)) by {
        if match_at(s, p, "mth"@) {
            assert(s.subrange(p, p + 3)[0] == s[p + 0]);
            assert(s.subrange(p, p + 1)[0] == s[p + 0]);
            assert(false);
        }
    };
    assert(!match_at(s, p, "M"@)) by {
        if match_at(s, p, "M"@) {
            assert(s.subrange(p, p + 1)[0] == s[p + 0]);
            assert(s.subrange(p, p + 1)[0] == s[p + 0]);
            assert(false);
        }
    };
    assert(!match_at(s, p, "days"@)) by {
        if match_at(s, p, "days"@) {
            assert(s.subrange(p, p + 4)[0] == s[p + 0]);
            assert(s.subrange(p, p + 1)[0] == s[p + 0]);
            assert(false);
        }
    };
    assert(!match_at(s, p, "day"@)) by {
        if match_at(s, p, "day"@) {
            assert(s.subrange(p, p + 3)[0] == s[p + 0]);
            assert(s.subrange(p, p + 1)[0] == s[p + 0]);
            assert(false);
        }
    };
    assert(!match_at(s, p, "dys"@)) by {
        if match_at(s, p, "dys"@) {
            assert(s.subrange(p, p + 3)[0] == s[p + 0]);
            assert(s.subrange(p, p + 1)[0] == s[p + 0]);
            assert(false);
        }
    };
    assert(!match_at(s, p, "dy"@)) by {
        if match_at(s, p, "dy"@) {
            assert(s.subrange(p, p + 2)[0] == s[p + 0]);
            assert(s.subrange(p, p + 1)[0] == s[p + 0]);
            assert(false);
        }
    };
    assert(!match_at(s, p, "d"@)) by {
        if match_at(s, p, "d"@) {
            assert(s.subrange(p, p + 1)[0] == s[p + 0]);
            assert(s.subrange(p, p + 1)[0] == s[p + 0]);
            assert(false);
        }
    };
    assert(!match_at(s, p, "D"@)) by {
        if match_at(s, p, "D"@) {
            assert(s.subrange(p, p + 1)[0] == s[p + 0]);
            assert(s.subrange(p, p + 1)[0] == s[p + 0]);
            assert(false);
        }
    };
    assert(!match_at(s, p, "weeks"@)) by {
        if match_at(s, p, "weeks"@) {
            assert(s.subrange(p, p + 5)[0] == s[p + 0]);
            assert(s.subrange(p, p + 1)[0] == s[p + 0]);
            assert(false);
        }
    };
    assert(!match_at(s, p, "week"@)) by {
        if match_at(s, p, "week"@) {
            assert(s.subrange(p, p + 4)[0] == s[p + 0]);
            assert(s.subrange(p, p + 1)[0] == s[p + 0]);
            assert(false);
        }
    };
    assert(!match_at(s, p, "wks"@)) by {
        if match_at(s, p, "wks"@) {
            assert(s.subrange(p, p + 3)[0] == s[p + 0]);
            assert(s.subrange(p, p + 1)[0] == s[p + 0]);
            assert(false);
        }
    };
    assert(!match_at(s, p, "wk"@)) by {
        if match_at(s, p, "wk"@) {
            assert(s.subrange(p, p + 2)[0] == s[p + 0]);
            assert(s.subrange(p, p + 1)[0] == s[p + 0]);
            assert(false);
        }
    };
    assert(!match_at(s, p, "w"@)) by {
        if match_at(s, p, "w"@) {
            assert(s.subrange(p, p + 1)[0] == s[p + 0]);
            assert(s.subrange(p, p + 1)[0] == s[p + 0]);
            assert(false);
        }
    };
    assert(!match_at(s, p, "W"@)) by {
        if match_at(s, p, "W"@) {
            assert(s.subrange(p, p + 1)[0] == s[p + 0]);
            assert(s.subrange(p, p + 1)[0] == s[p + 0]);
            assert(false);
        }
    };
    assert(!match_at(s, p, "years"@)) by {
        if match_at(s, p, "years"@) {
            assert(s.subrange(p, p + 5)[0] == s[p + 0]);
            assert(s.subrange(p, p + 1)[0] == s[p + 0]);
            assert(false);
        }
    };
    assert(!match_at(s, p, "year"@)) by {
        if match_at(s, p, "year"@) {
            assert(s.subrange(p, p + 4)[0] == s[p + 0]);
            assert(s.subrange(p, p + 1)[0] == s[p + 0]);
            assert(false);
        }
    };
    assert(!match_at(s, p, "yrs"@)) by {
        if match_at(s, p, "yrs"@) {
            assert(s.subrange(p, p + 3)[0] == s[p + 0]);
            assert(s.subrange(p, p + 1)[0] == s[p + 0]);
            assert(false);
        }
    };
    assert(!match_at(s, p, "yr"@)) by {
        if match_at(s, p, "yr"@) {
            assert(s.subrange(p, p + 2)[0] == s[p + 0]);
            assert(s.subrange(p, p + 1)[0] == s[p + 0]);
            assert(false);
        }
    };
    assert(!match_at(s, p, "y"@)) by {
        if match_at(s, p, "y"@) {
            assert(s.subrange(p, p + 1)[0] == s[p + 0]);
            assert(s.subrange(p, p + 1)[0] == s[p + 0]);
            assert(false);
        }
    };
    assert(!match_at(s, p, "Y"@)) by {
        if match_at(s, p, "Y"@) {
            assert(s.subrange(p, p + 1)[0] == s[p + 0]);
            assert(s.subrange(p, p + 1)[0] == s[p + 0]);
            assert(false);
        }
    };
    assert(!match_at(s, p, "nanos"@)) by {
        if match_at(s, p, "nanos"@) {
            assert(s.subrange(p, p + 5)[0] == s[p + 0]);
            assert(s.subrange(p, p + 1)[0] == s[p + 0]);
            assert(false);
        }
    };
    assert(!match_at(s, p, "nsec"@)) by {
        if match_at(s, p, "nsec"@) {
            assert(s.subrange(p, p + 4)[0] == s[p + 0]);
            assert(s.subrange(p, p + 1)[0] == s[p + 0]);
            assert(false);
        }
    };
    assert(!match_at(s, p, "ns"@)) by {
        if match_at(s, p, "ns"@) {
            assert(s.subrange(p, p + 2)[0] == s[p + 0]);
            assert(s.subrange(p, p + 1)[0] == s[p + 0]);
            assert(false);
        }
    };
    assert(!match_at(s, p, "micros"@)) by {
        if match_at(s, p, "micros"@) {
            assert(s.subrange(p, p + 6)[0] == s[p + 0]);
            assert(s.subrange(p, p + 1)[0] == s[p + 0]);
            assert(false);
        }
    };
    assert(!match_at(s, p, "usec"@)) by {
        if match_at(s, p, "usec"@) {
            assert(s.subrange(p, p + 4)[0] == s[p + 0]);
            assert(s.subrange(p, p + 1)[0] == s[p + 0]);
            assert(false);
        }
    };
    assert(!match_at(s, p, "us"@)) by {
        if match_at(s, p, "us"@) {
            assert(s.subrange(p, p + 2)[0] == s[p + 0]);
            assert(s.subrange(p, p + 1)[0] == s[p + 0]);
            assert(false);
        }
    };
    assert(!match_at(s, p, "millis"@)) by {
        if match_at(s, p, "millis"@) {
            assert(s.subrange(p, p + 6)[0] == s[p + 0]);
            assert(s.subrange(p, p + 1)[0] == s[p + 0]);
            assert(false);
        }
    };
    assert(!match_at(s, p, "msec"@)) by {
        if match_at(s, p, "msec"@) {
            assert(s.subrange(p, p + 4)[0] == s[p + 0]);
            assert(s.subrange(p, p + 1)[0] == s[p + 0]);
            assert(false);
        }
    };
    assert(!match_at(s, p, "ms"@)) by {
        if match_at(s, p, "ms"@) {
            assert(s.subrange(p, p + 2)[0] == s[p + 0]);
            assert(s.subrange(p, p + 1)[0] == s[p + 0]);
            assert(false);
        }
    };
    assert(!match_at(s, p, "seconds"@)) by {
        if match_at(s, p, "seconds"@) {
            assert(s.subrange(p, p + 7)[0] == s[p + 0]);
            assert(s.subrange(p, p + 1)[0] == s[p + 0]);
            assert(false);
        }
    };
    assert(!match_at(s, p, "second"@)) by {
        if match_at(s, p, "second"@) {
            assert(s.subrange(p, p + 6)[0] == s[p + 0]);
            assert(s.subrange(p, p + 1)[0] == s[p + 0]);
            assert(false);
        }
    };
    assert(!match_at(s, p, "secs"@)) by {
        if match_at(s, p, "secs"@) {
            assert(s.subrange(p, p + 4)[0] == s[p + 0]);
            assert(s.subrange(p, p + 1)[0] == s[p + 0]);
            assert(false);
        }
    };
    assert(!match_at(s, p, "sec"@)) by {
        if match_at(s, p, "sec"@) {
            assert(s.subrange(p, p + 3)[0] == s[p + 0]);
            assert(s.subrange(p, p + 1)[0] == s[p + 0]);
            assert(false);
        }
    };
    assert(!match_at(s, p, "s"@)) by {
        if match_at(s, p, "s"@) {
            assert(s.subrange(p, p + 1)[0] == s[p + 0]);
            assert(s.subrange(p, p + 1)[0] == s[p + 0]);
            assert(false);
        }
    };
    assert(!match_at(s, p, "minutes"@)) by {
        if match_at(s, p, "minutes"@) {
            assert(s.subrange(p, p + 7)[0] == s[p + 0]);
            assert(s.subrange(p, p + 1)[0] == s[p + 0]);
            assert(false);
        }
    };
    assert(!match_at(s, p, "minute"@)) by {
        if match_at(s, p, "minute"@) {
            assert(s.subrange(p, p + 6)[0] == s[p + 0]);
            assert(s.subrange(p, p + 1)[0] == s[p + 0]);
            assert(false);
        }
    };
    assert(!match_at(s, p, "mins"@)) by {
        if match_at(s, p, "mins"@) {
            assert(s.subrange(p, p + 4)[0] == s[p + 0]);
            assert(s.subrange(p, p + 1)[0] == s[p + 0]);
            assert(false);
        }
    };
    assert(!match_at(s, p, "min"@)) by {
        if match_at(s, p, "min"@) {
            assert(s.subrange(p, p + 3)[0] == s[p + 0]);
            assert(s.subrange(p, p + 1)[0] == s[p + 0]);
            assert(false);
        }
    };
    assert(!match_at(s, p, "m"@)) by {
        if match_at(s, p, "m"@) {
            assert(s.subrange(p, p + 1)[0] == s[p + 0]);
            assert(s.subrange(p, p + 1)[0] == s[p + 0]);
            assert(false);
        }
    };
    assert(!match_at(s, p, "hours"@)) by {
        if match_at(s, p, "hours"@) {
            assert(s.subrange(p, p + 5)[0] == s[p + 0]);
            assert(s.subrange(p, p + 1)[0] == s[p + 0]);
            assert(false);
        }
    };
    assert(!match_at(s, p, "hour"@)) by {
        if match_at(s, p, "hour"@) {
            assert(s.subrange(p, p + 4)[0] == s[p + 0]);
            assert(s.subrange(p, p + 1)[0] == s[p + 0]);
            assert(false);
        }
    };
    assert(!match_at(s, p, "hrs"@)) by {
        if match_at(s, p, "hrs"@) {
            assert(s.subrange(p, p + 3)[0] == s[p + 0]);
            assert(s.subrange(p, p + 1)[0] == s[p + 0]);
            assert(false);
        }
    };
    assert(!match_at(s, p, "hr"@)) by {
        if match_at(s, p, "hr"@) {
            assert(s.subrange(p, p + 2)[0] == s[p + 0]);
            assert(s.subrange(p, p + 1)[0] == s[p + 0]);
            assert(false);
        }
    };
    assert(!match_at(s, p, "h"@)) by {
        if match_at(s, p, "h"@) {
            assert(s.subrange(p, p + 1)[0] == s[p + 0]);
            assert(s.subrange(p, p + 1)[0] == s[p + 0]);
            assert(false);
        }
    };
    assert(match_at(s, p, "H"@));
}

/// Any table suffix at `p` with a blank right after it resolves to its
/// unit, the match ending exactly before the blank.
pub proof fn lemma_resolve_table_before_space(s: Seq<char>, p: int, sfx: Seq<char>, u: Unit)
    requires
        0 <= p,
        is_table_entry(sfx, u),
        p + sfx.len() < s.len(),
        s.subrange(p, p + sfx.len() as int) == sfx,
        crate::scan::is_sep_space(s[p + sfx.len()]),
    ensures
        resolve_unit(s, p) == Some((u, p + sfx.len() as int)),
{
    reveal_strlit("months");
    reveal_strlit("month");
    reveal_strlit("mths");
    reveal_strlit("mth");
    reveal_strlit("M");
    reveal_strlit("days");
    reveal_strlit("day");
    reveal_strlit("dys");
    reveal_strlit("dy");
    reveal_strlit("d");
    reveal_strlit("D");
    reveal_strlit("weeks");
    reveal_strlit("week");
    reveal_strlit("wks");
    reveal_strlit("wk");
    reveal_strlit("w");
    reveal_strlit("W");
    reveal_strlit("years");
    reveal_strlit("year");
    reveal_strlit("yrs");
    reveal_strlit("yr");
    reveal_strlit("y");
    reveal_strlit("Y");
    reveal_strlit("nanos");
    reveal_strlit("nsec");
    reveal_strlit("ns");
    reveal_strlit("micros");
    reveal_strlit("usec");
    reveal_strlit("us");
    reveal_strlit("millis");
    reveal_strlit("msec");
    reveal_strlit("ms");
    reveal_strlit("seconds");
    reveal_strlit("second");
    reveal_strlit("secs");
    reveal_strlit("sec");
    reveal_strlit("s");
    reveal_strlit("minutes");
    reveal_strlit("minute");
    reveal_strlit("mins");
    reveal_strlit("min");
    reveal_strlit("m");
    reveal_strlit("hours");
    reveal_strlit("hour");
    reveal_strlit("hrs");
    reveal_strlit("hr");
    reveal_strlit("h");
    reveal_strlit("H");
    if sfx == "months"@ && u == Unit::Months {
        lemma_mid_months_months(s, p);
    } else if sfx == "month"@ && u == Unit::Months {
        lemma_mid_months_month(s, p);
    } else if sfx == "mths"@ && u == Unit::Months {
        lemma_mid_months_mths(s, p);
    } else if sfx == "mth"@ && u == Unit::Months {
        lemma_mid_months_mth(s, p);
    } else if sfx == "M"@ && u == Unit::Months {
        lemma_mid_months_cap_m(s, p);
    } else if sfx == "days"@ && u == Unit::Days {
        lemma_mid_days_days(s, p);
    } else if sfx == "day"@ && u == Unit::Days {
        lemma_mid_days_day(s, p);
    } else if sfx == "dys"@ && u == Unit::Days {
        lemma_mid_days_dys(s, p);
    } else if sfx == "dy"@ && u == Unit::Days {
        lemma_mid_days_dy(s, p);
    } else if sfx == "d"@ && u == Unit::Days {
        lemma_mid_days_d(s, p);
    } else if sfx == "D"@ && u == Unit::Days {
        lemma_mid_days_cap_d(s, p);
    } else if sfx == "weeks"@ && u == Unit::Weeks {
        lemma_mid_weeks_weeks(s, p);
    } else if sfx == "week"@ && u == Unit::Weeks {
        lemma_mid_weeks_week(s, p);
    } else if sfx == "wks"@ && u == Unit::Weeks {
        lemma_mid_weeks_wks(s, p);
    } else if sfx == "wk"@ && u == Unit::Weeks {
        lemma_mid_weeks_wk(s, p);
    } else if sfx == "w"@ && u == Unit::Weeks {
        lemma_mid_weeks_w(s, p);
    } else if sfx == "W"@ && u == Unit::Weeks {
        lemma_mid_weeks_cap_w(s, p);
    } else if sfx == "years"@ && u == Unit::Years {
        lemma_mid_years_years(s, p);
    } else if sfx == "year"@ && u == Unit::Years {
        lemma_mid_years_year(s, p);
    } else if sfx == "yrs"@ && u == Unit::Years {
        lemma_mid_years_yrs(s, p);
    } else if sfx == "yr"@ && u == Unit::Years {
        lemma_mid_years_yr(s, p);
    } else if sfx == "y"@ && u == Unit::Years {
        lemma_mid_years_y(s, p);
    } else if sfx == "Y"@ && u == Unit::Years {
        lemma_mid_years_cap_y(s, p);
    } else if sfx == "nanos"@ && u == Unit::Nanos {
        lemma_mid_nanos_nanos(s, p);
    } else if sfx == "nsec"@ && u == Unit::Nanos {
        lemma_mid_nanos_nsec(s, p);
    } else if sfx == "ns"@ && u == Unit::Nanos {
        lemma_mid_nanos_ns(s, p);
    } else if sfx == "micros"@ && u == Unit::Micros {
        lemma_mid_micros_micros(s, p);
    } else if sfx == "usec"@ && u == Unit::Micros {
        lemma_mid_micros_usec(s, p);
    } else if sfx == "us"@ && u == Unit::Micros {
        lemma_mid_micros_us(s, p);
    } else if sfx == "millis"@ && u == Unit::Millis {
        lemma_mid_millis_millis(s, p);
    } else if sfx == "msec"@ && u == Unit::Millis {
        lemma_mid_millis_msec(s, p);
    } else if sfx == "ms"@ && u == Unit::Millis {
        lemma_mid_millis_ms(s, p);
    } else if sfx == "seconds"@ && u == Unit::Seconds {
        lemma_mid_seconds_seconds(s, p);
    } else if sfx == "second"@ && u == Unit::Seconds {
        lemma_mid_seconds_second(s, p);
    } else if sfx == "secs"@ && u == Unit::Seconds {
        lemma_mid_seconds_secs(s, p);
    } else if sfx == "sec"@ && u == Unit::Seconds {
        lemma_mid_seconds_sec(s, p);
    } else if sfx == "s"@ && u == Unit::Seconds {
        lemma_mid_seconds_s(s, p);
    } else if sfx == "minutes"@ && u == Unit::Minutes {
        lemma_mid_minutes_minutes(s, p);
    } else if sfx == "minute"@ && u == Unit::Minutes {
        lemma_mid_minutes_minute(s, p);
    } else if sfx == "mins"@ && u == Unit::Minutes {
        lemma_mid_minutes_mins(s, p);
    } else if sfx == "min"@ && u == Unit::Minutes {
        lemma_mid_minutes_min(s, p);
    } else if sfx == "m"@ && u == Unit::Minutes {
        lemma_mid_minutes_m(s, p);
    } else if sfx == "hours"@ && u == Unit::Hours {
        lemma_mid_hours_hours(s, p);
    } else if sfx == "hour"@ && u == Unit::Hours {
        lemma_mid_hours_hour(s, p);
    } else if sfx == "hrs"@ && u == Unit::Hours {
        lemma_mid_hours_hrs(s, p);
    } else if sfx == "hr"@ && u == Unit::Hours {
        lemma_mid_hours_hr(s, p);
    } else if sfx == "h"@ && u == Unit::Hours {
        lemma_mid_hours_h(s, p);
    } else if sfx == "H"@ && u == Unit::Hours {
        lemma_mid_hours_cap_h(s, p);
    } else {
        assert(false);
    }
}


/// With `months` at `p` and the word `and` right after it, the resolver
/// yields `Months`.
proof fn lemma_preand_months_months(s: Seq<char>, p: int)
    requires
        0 <= p,
        p + 9 <= s.len(),
        s.subrange(p, p + 6) == "months"@,
        s[p + 6] == 'a',
        s[p + 7] == 'n',
        s[p + 8] == 'd',
    ensures
        resolve_unit(s, p) == Some((Unit::Months, p + 6)),
{
    reveal_strlit("months");
    reveal_strlit("month");
    reveal_strlit("mths");
    reveal_strlit("mth");
    reveal_strlit("M");
    reveal_strlit("days");
    reveal_strlit("day");
    reveal_strlit("dys");
    reveal_strlit("dy");
    reveal_strlit("d");
    reveal_strlit("D");
    reveal_strlit("weeks");
    reveal_strlit("week");
    reveal_strlit("wks");
    reveal_strlit("wk");
    reveal_strlit("w");
    reveal_strlit("W");
    reveal_strlit("years");
    reveal_strlit("year");
    reveal_strlit("yrs");
    reveal_strlit("yr");
    reveal_strlit("y");
    reveal_strlit("Y");
    reveal_strlit("nanos");
    reveal_strlit("nsec");
    reveal_strlit("ns");
    reveal_strlit("micros");
    reveal_strlit("usec");
    reveal_strlit("us");
    reveal_strlit("millis");
    reveal_strlit("msec");
    reveal_strlit("ms");
    reveal_strlit("seconds");
    reveal_strlit("second");
    reveal_strlit("secs");
    reveal_strlit("sec");
    reveal_strlit("s");
    reveal_strlit("minutes");
    reveal_strlit("minute");
    reveal_strlit("mins");
    reveal_strlit("min");
    reveal_strlit("m");
    reveal_strlit("hours");
    reveal_strlit("hour");
    reveal_strlit("hrs");
    reveal_strlit("hr");
    reveal_strlit("h");
    reveal_strlit("H");
    assert(match_at(s, p, "months"@));
}

/// With `month` at `p` and the word `and` right after it, the resolver
/// yields `Months`.
proof fn lemma_preand_months_month(s: Seq<char>, p: int)
    requires
        0 <= p,
        p + 8 <= s.len(),
        s.subrange(p, p + 5) == "month"@,
        s[p + 5] == 'a',
        s[p + 6] == 'n',
        s[p + 7] == 'd',
    ensures
        resolve_unit(s, p) == Some((Unit::Months, p + 5)),
{
    reveal_strlit("months");
    reveal_strlit("month");
    reveal_strlit("mths");
    reveal_strlit("mth");
    reveal_strlit("M");
    reveal_strlit("days");
    reveal_strlit("day");
    reveal_strlit("dys");
    reveal_strlit("dy");
    reveal_strlit("d");
    reveal_strlit("D");
    reveal_strlit("weeks");
    reveal_strlit("week");
    reveal_strlit("wks");
    reveal_strlit("wk");
    reveal_strlit("w");
    reveal_strlit("W");
    reveal_strlit("years");
    reveal_strlit("year");
    reveal_strlit("yrs");
    reveal_strlit("yr");
    reveal_strlit("y");
    reveal_strlit("Y");
    reveal_strlit("nanos");
    reveal_strlit("nsec");
    reveal_strlit("ns");
    reveal_strlit("micros");
    reveal_strlit("usec");
    reveal_strlit("us");
    reveal_strlit("millis");
    reveal_strlit("msec");
    reveal_strlit("ms");
    reveal_strlit("seconds");
    reveal_strlit("second");
    reveal_strlit("secs");
    reveal_strlit("sec");
    reveal_strlit("s");
    reveal_strlit("minutes");
    reveal_strlit("minute");
    reveal_strlit("mins");
    reveal_strlit("min");
    reveal_strlit("m");
    reveal_strlit("hours");
    reveal_strlit("hour");
    reveal_strlit("hrs");
    reveal_strlit("hr");
    reveal_strlit("h");
    reveal_strlit("H");
    assert(!match_at(s, p, "months"@)) by {
        if match_at(s, p, "months"@) {
            assert(s.subrange(p, p + 6)[5] == s[p + 5]);
            assert(false);
        }
    };
    assert(match_at(s, p, "month"@));
}

/// With `mths` at `p` and the word `and` right after it, the resolver
/// yields `Months`.
proof fn lemma_preand_months_mths(s: Seq<char>, p: int)
    requires
        0 <= p,
        p + 7 <= s.len(),
        s.subrange(p, p + 4) == "mths"@,
        s[p + 4] == 'a',
        s[p + 5] == 'n',
        s[p + 6] == 'd',
    ensures
        resolve_unit(s, p) == Some((Unit::Months, p + 4)),
{
    reveal_strlit("months");
    reveal_strlit("month");
    reveal_strlit("mths");
    reveal_strlit("mth");
    reveal_strlit("M");
    reveal_strlit("days");
    reveal_strlit("day");
    reveal_strlit("dys");
    reveal_strlit("dy");
    reveal_strlit("d");
    reveal_strlit("D");
    reveal_strlit("weeks");
    reveal_strlit("week");
    reveal_strlit("wks");
    reveal_strlit("wk");
    reveal_strlit("w");
    reveal_strlit("W");
    reveal_strlit("years");
    reveal_strlit("year");
    reveal_strlit("yrs");
    reveal_strlit("yr");
    reveal_strlit("y");
    reveal_strlit("Y");
    reveal_strlit("nanos");
    reveal_strlit("nsec");
    reveal_strlit("ns");
    reveal_strlit("micros");
    reveal_strlit("usec");
    reveal_strlit("us");
    reveal_strlit("millis");
    reveal_strlit("msec");
    reveal_strlit("ms");
    reveal_strlit("seconds");
    reveal_strlit("second");
    reveal_strlit("secs");
    reveal_strlit("sec");
    reveal_strlit("s");
    reveal_strlit("minutes");
    reveal_strlit("minute");
    reveal_strlit("mins");
    reveal_strlit("min");
    reveal_strlit("m");
    reveal_strlit("hours");
    reveal_strlit("hour");
    reveal_strlit("hrs");
    reveal_strlit("hr");
    reveal_strlit("h");
    reveal_strlit("H");
    assert(!match_at(s, p, "months"@)) by {
        if match_at(s, p, "months"@) {
            assert(s.subrange(p, p + 6)[1] == s[p + 1]);
            assert(s.subrange(p, p + 4)[1] == s[p + 1]);
            assert(false);
        }
    };
    assert(!match_at(s, p, "month"@)) by {
        if match_at(s, p, "month"@) {
            assert(s.subrange(p, p + 5)[1] == s[p + 1]);
            assert(s.subrange(p, p + 4)[1] == s[p + 1]);
            assert(false);
        }
    };
    assert(match_at(s, p, "mths"@));
}

/// With `mth` at `p` and the word `and` right after it, the resolver
/// yields `Months`.
proof fn lemma_preand_months_mth(s: Seq<char>, p: int)
    requires
        0 <= p,
        p + 6 <= s.len(),
        s.subrange(p, p + 3) == "mth"@,
        s[p + 3] == 'a',
        s[p + 4] == 'n',
        s[p + 5] == 'd',
    ensures
        resolve_unit(s, p) == Some((Unit::Months, p + 3)),
{
    reveal_strlit("months");
    reveal_strlit("month");
    reveal_strlit("mths");
    reveal_strlit("mth");
    reveal_strlit("M");
    reveal_strlit("days");
    reveal_strlit("day");
    reveal_strlit("dys");
    reveal_strlit("dy");
    reveal_strlit("d");
    reveal_strlit("D");
    reveal_strlit("weeks");
    reveal_strlit("week");
    reveal_strlit("wks");
    reveal_strlit("wk");
    reveal_strlit("w");
    reveal_strlit("W");
    reveal_strlit("years");
    reveal_strlit("year");
    reveal_strlit("yrs");
    reveal_strlit("yr");
    reveal_strlit("y");
    reveal_strlit("Y");
    reveal_strlit("nanos");
    reveal_strlit("nsec");
    reveal_strlit("ns");
    reveal_strlit("micros");
    reveal_strlit("usec");
    reveal_strlit("us");
    reveal_strlit("millis");
    reveal_strlit("msec");
    reveal_strlit("ms");
    reveal_strlit("seconds");
    reveal_strlit("second");
    reveal_strlit("secs");
    reveal_strlit("sec");
    reveal_strlit("s");
    reveal_strlit("minutes");
    reveal_strlit("minute");
    reveal_strlit("mins");
    reveal_strlit("min");
    reveal_strlit("m");
    reveal_strlit("hours");
    reveal_strlit("hour");
    reveal_strlit("hrs");
    reveal_strlit("hr");
    reveal_strlit("h");
    reveal_strlit("H");
    assert(!match_at(s, p, "months"@)) by {
        if match_at(s, p, "months"@) {
            assert(s.subrange(p, p + 6)[1] == s[p + 1]);
            assert(s.subrange(p, p + 3)[1] == s[p + 1]);
            assert(false);
        }
    };
    assert(!match_at(s, p, "month"@)) by {
        if match_at(s, p, "month"@) {
            assert(s.subrange(p, p + 5)[1] == s[p + 1]);
            assert(s.subrange(p, p + 3)[1] == s[p + 1]);
            assert(false);
        }
    };
    assert(!match_at(s, p, "mths"@)) by {
        if match_at(s, p, "mths"@) {
            assert(s.subrange(p, p + 4)[3] == s[p + 3]);
            assert(false);
        }
    };
    assert(match_at(s, p, "mth"@));
}

/// With `M` at `p` and the word `and` right after it, the resolver
/// yields `Months`.
proof fn lemma_preand_months_cap_m(s: Seq<char>, p: int)
    requires
        0 <= p,
        p + 4 <= s.len(),
        s.subrange(p, p + 1) == "M"@,
        s[p + 1] == 'a',
        s[p + 2] == 'n',
        s[p + 3] == 'd',
    ensures
        resolve_unit(s, p) == Some((Unit::Months, p + 1)),
{
    reveal_strlit("months");
    reveal_strlit("month");
    reveal_strlit("mths");
    reveal_strlit("mth");
    reveal_strlit("M");
    reveal_strlit("days");
    reveal_strlit("day");
    reveal_strlit("dys");
    reveal_strlit("dy");
    reveal_strlit("d");
    reveal_strlit("D");
    reveal_strlit("weeks");
    reveal_strlit("week");
    reveal_strlit("wks");
    reveal_strlit("wk");
    reveal_strlit("w");
    reveal_strlit("W");
    reveal_strlit("years");
    reveal_strlit("year");
    reveal_strlit("yrs");
    reveal_strlit("yr");
    reveal_strlit("y");
    reveal_strlit("Y");
    reveal_strlit("nanos");
    reveal_strlit("nsec");
    reveal_strlit("ns");
    reveal_strlit("micros");
    reveal_strlit("usec");
    reveal_strlit("us");
    reveal_strlit("millis");
    reveal_strlit("msec");
    reveal_strlit("ms");
    reveal_strlit("seconds");
    reveal_strlit("second");
    reveal_strlit("secs");
    reveal_strlit("sec");
    reveal_strlit("s");
    reveal_strlit("minutes");
    reveal_strlit("minute");
    reveal_strlit("mins");
    reveal_strlit("min");
    reveal_strlit("m");
    reveal_strlit("hours");
    reveal_strlit("hour");
    reveal_strlit("hrs");
    reveal_strlit("hr");
    reveal_strlit("h");
    reveal_strlit("H");
    assert(!match_at(s, p, "months"@)) by {
        if match_at(s, p, "months"@) {
            assert(s.subrange(p, p + 6)[0] == s[p + 0]);
            assert(s.subrange(p, p + 1)[0] == s[p + 0]);
            assert(false);
        }
    };
    assert(!match_at(s, p, "month"@)) by {
        if match_at(s, p, "month"@) {
            assert(s.subrange(p, p + 5)[0] == s[p + 0]);
            assert(s.subrange(p, p + 1)[0] == s[p + 0]);
            assert(false);
        }
    };
    assert(!match_at(s, p, "mths"@)) by {
        if match_at(s, p, "mths"@) {
            assert(s.subrange(p, p + 4)[0] == s[p + 0]);
            assert(s.subrange(p, p + 1)[0] == s[p + 0]);
            assert(false);
        }
    };
    assert(!match_at(s, p, "mth"@)) by {
        if match_at(s, p, "mth"@) {
            assert(s.subrange(p, p + 3)[0] == s[p + 0]);
            assert(s.subrange(p, p + 1)[0] == s[p + 0]);
            assert(false);
        }
    };
    assert(match_at(s, p, "M"@));
}

/// With `days` at `p` and the word `and` right after it, the resolver
/// yields `Days`.
proof fn lemma_preand_days_days(s: Seq<char>, p: int)
    requires
        0 <= p,
        p + 7 <= s.len(),
        s.subrange(p, p + 4) == "days"@,
        s[p + 4] == 'a',
        s[p + 5] == 'n',
        s[p + 6] == 'd',
    ensures
        resolve_unit(s, p) == Some((Unit::Days, p + 4)),
{
    reveal_strlit("months");
    reveal_strlit("month");
    reveal_strlit("mths");
    reveal_strlit("mth");
    reveal_strlit("M");
    reveal_strlit("days");
    reveal_strlit("day");
    reveal_strlit("dys");
    reveal_strlit("dy");
    reveal_strlit("d");
    reveal_strlit("D");
    reveal_strlit("weeks");
    reveal_strlit("week");
    reveal_strlit("wks");
    reveal_strlit("wk");
    reveal_strlit("w");
    reveal_strlit("W");
    reveal_strlit("years");
    reveal_strlit("year");
    reveal_strlit("yrs");
    reveal_strlit("yr");
    reveal_strlit("y");
    reveal_strlit("Y");
    reveal_strlit("nanos");
    reveal_strlit("nsec");
    reveal_strlit("ns");
    reveal_strlit("micros");
    reveal_strlit("usec");
    reveal_strlit("us");
    reveal_strlit("millis");
    reveal_strlit("msec");
    reveal_strlit("ms");
    reveal_strlit("seconds");
    reveal_strlit("second");
    reveal_strlit("secs");
    reveal_strlit("sec");
    reveal_strlit("s");
    reveal_strlit("minutes");
    reveal_strlit("minute");
    reveal_strlit("mins");
    reveal_strlit("min");
    reveal_strlit("m");
    reveal_strlit("hours");
    reveal_strlit("hour");
    reveal_strlit("hrs");
    reveal_strlit("hr");
    reveal_strlit("h");
    reveal_strlit("H");
    assert(!match_at(s, p, "months"@)) by {
        if match_at(s, p, "months"@) {
            assert(s.subrange(p, p + 6)[0] == s[p + 0]);
            assert(s.subrange(p, p + 4)[0] == s[p + 0]);
            assert(false);
        }
    };
    assert(!match_at(s, p, "month"@)) by {
        if match_at(s, p, "month"@) {
            assert(s.subrange(p, p + 5)[0] == s[p + 0]);
            assert(s.subrange(p, p + 4)[0] == s[p + 0]);
            assert(false);
        }
    };
    assert(!match_at(s, p, "mths"@)) by {
        if match_at(s, p, "mths"@) {
            assert(s.subrange(p, p + 4)[0] == s[p + 0]);
            assert(s.subrange(p, p + 4)[0] == s[p + 0]);
            assert(false);
        }
    };
    assert(!match_at(s, p, "mth"@)) by {
        if match_at(s, p, "mth"@) {
            assert(s.subrange(p, p + 3)[0] == s[p + 0]);
            assert(s.subrange(p, p + 4)[0] == s[p + 0]);
            assert(false);
        }
    };
    assert(!match_at(s, p, "M"@)) by {
        if match_at(s, p, "M"@) {
            assert(s.subrange(p, p + 1)[0] == s[p + 0]);
            assert(s.subrange(p, p + 4)[0] == s[p + 0]);
            assert(false);
        }
    };
    assert(match_at(s, p, "days"@));
}

/// With `day` at `p` and the word `and` right after it, the resolver
/// yields `Days`.
proof fn lemma_preand_days_day(s: Seq<char>, p: int)
    requires
        0 <= p,
        p + 6 <= s.len(),
        s.subrange(p, p + 3) == "day"@,
        s[p + 3] == 'a',
        s[p + 4] == 'n',
        s[p + 5] == 'd',
    ensures
        resolve_unit(s, p) == Some((Unit::Days, p + 3)),
{
    reveal_strlit("months");
    reveal_strlit("month");
    reveal_strlit("mths");
    reveal_strlit("mth");
    reveal_strlit("M");
    reveal_strlit("days");
    reveal_strlit("day");
    reveal_strlit("dys");
    reveal_strlit("dy");
    reveal_strlit("d");
    reveal_strlit("D");
    reveal_strlit("weeks");
    reveal_strlit("week");
    reveal_strlit("wks");
    reveal_strlit("wk");
    reveal_strlit("w");
    reveal_strlit("W");
    reveal_strlit("years");
    reveal_strlit("year");
    reveal_strlit("yrs");
    reveal_strlit("yr");
    reveal_strlit("y");
    reveal_strlit("Y");
    reveal_strlit("nanos");
    reveal_strlit("nsec");
    reveal_strlit("ns");
    reveal_strlit("micros");
    reveal_strlit("usec");
    reveal_strlit("us");
    reveal_strlit("millis");
    reveal_strlit("msec");
    reveal_strlit("ms");
    reveal_strlit("seconds");
    reveal_strlit("second");
    reveal_strlit("secs");
    reveal_strlit("sec");
    reveal_strlit("s");
    reveal_strlit("minutes");
    reveal_strlit("minute");
    reveal_strlit("mins");
    reveal_strlit("min");
    reveal_strlit("m");
    reveal_strlit("hours");
    reveal_strlit("hour");
    reveal_strlit("hrs");
    reveal_strlit("hr");
    reveal_strlit("h");
    reveal_strlit("H");
    assert(!match_at(s, p, "months"@)) by {
        if match_at(s, p, "months"@) {
            assert(s.subrange(p, p + 6)[0] == s[p + 0]);
            assert(s.subrange(p, p + 3)[0] == s[p + 0]);
            assert(false);
        }
    };
    assert(!match_at(s, p, "month"@)) by {
        if match_at(s, p, "month"@) {
            assert(s.subrange(p, p + 5)[0] == s[p + 0]);
            assert(s.subrange(p, p + 3)[0] == s[p + 0]);
            assert(false);
        }
    };
    assert(!match_at(s, p, "mths"@)) by {
        if match_at(s, p, "mths"@) {
            assert(s.subrange(p, p + 4)[0] == s[p + 0]);
            assert(s.subrange(p, p + 3)[0] == s[p + 0]);
            assert(false);
        }
    };
    assert(!match_at(s, p, "mth"@)) by {
        if match_at(s, p, "mth"@) {
            assert(s.subrange(p, p + 3)[0] == s[p + 0]);
            assert(s.subrange(p, p + 3)[0] == s[p + 0]);
            assert(false);
        }
    };
    assert(!match_at(s, p, "M"@)) by {
        if match_at(s, p, "M"@) {
            assert(s.subrange(p, p + 1)[0] == s[p + 0]);
            assert(s.subrange(p, p + 3)[0] == s[p + 0]);
            assert(false);
        }
    };
    assert(!match_at(s, p, "days"@)) by {
        if match_at(s, p, "days"@) {
            assert(s.subrange(p, p + 4)[3] == s[p + 3]);
            assert(false);
        }
    };
    assert(match_at(s, p, "day"@));
}

/// With `dys` at `p` and the word `and` right after it, the resolver
/// yields `Days`.
proof fn lemma_preand_days_dys(s: Seq<char>, p: int)
    requires
        0 <= p,
        p + 6 <= s.len(),
        s.subrange(p, p + 3) == "dys"@,
        s[p + 3] == 'a',
        s[p + 4] == 'n',
        s[p + 5] == 'd',
    ensures
        resolve_unit(s, p) == Some((Unit::Days, p + 3)),
{
    reveal_strlit("months");
    reveal_strlit("month");
    reveal_strlit("mths");
    reveal_strlit("mth");
    reveal_strlit("M");
    reveal_strlit("days");
    reveal_strlit("day");
    reveal_strlit("dys");
    reveal_strlit("dy");
    reveal_strlit("d");
    reveal_strlit("D");
    reveal_strlit("weeks");
    reveal_strlit("week");
    reveal_strlit("wks");
    reveal_strlit("wk");
    reveal_strlit("w");
    reveal_strlit("W");
    reveal_strlit("years");
    reveal_strlit("year");
    reveal_strlit("yrs");
    reveal_strlit("yr");
    reveal_strlit("y");
    reveal_strlit("Y");
    reveal_strlit("nanos");
    reveal_strlit("nsec");
    reveal_strlit("ns");
    reveal_strlit("micros");
    reveal_strlit("usec");
    reveal_strlit("us");
    reveal_strlit("millis");
    reveal_strlit("msec");
    reveal_strlit("ms");
    reveal_strlit("seconds");
    reveal_strlit("second");
    reveal_strlit("secs");
    reveal_strlit("sec");
    reveal_strlit("s");
    reveal_strlit("minutes");
    reveal_strlit("minute");
    reveal_strlit("mins");
    reveal_strlit("min");
    reveal_strlit("m");
    reveal_strlit("hours");
    reveal_strlit("hour");
    reveal_strlit("hrs");
    reveal_strlit("hr");
    reveal_strlit("h");
    reveal_strlit("H");
    assert(!match_at(s, p, "months"@)) by {
        if match_at(s, p, "months"@) {
            assert(s.subrange(p, p + 6)[0] == s[p + 0]);
            assert(s.subrange(p, p + 3)[0] == s[p + 0]);
            assert(false);
        }
    };
    assert(!match_at(s, p, "month"@)) by {
        if match_at(s, p, "month"@) {
            assert(s.subrange(p, p + 5)[0] == s[p + 0]);
            assert(s.subrange(p, p + 3)[0] == s[p + 0]);
            assert(false);
        }
    };
    assert(!match_at(s, p, "mths"@)) by {
        if match_at(s, p, "mths"@) {
            assert(s.subrange(p, p + 4)[0] == s[p + 0]);
            assert(s.subrange(p, p + 3)[0] == s[p + 0]);
            assert(false);
        }
    };
    assert(!match_at(s, p, "mth"@)) by {
        if match_at(s, p, "mth"@) {
            assert(s.subrange(p, p + 3)[0] == s[p + 0]);
            assert(s.subrange(p, p + 3)[0] == s[p + 0]);
            assert(false);
        }
    };
    assert(!match_at(s, p, "M"@)) by {
        if match_at(s, p, "M"@) {
            assert(s.subrange(p, p + 1)[0] == s[p + 0]);
            assert(s.subrange(p, p + 3)[0] == s[p + 0]);
            assert(false);
        }
    };
    assert(!match_at(s, p, "days"@)) by {
        if match_at(s, p, "days"@) {
            assert(s.subrange(p, p + 4)[1] == s[p + 1]);
            assert(s.subrange(p, p + 3)[1] == s[p + 1]);
            assert(false);
        }
    };
    assert(!match_at(s, p, "day"@)) by {
        if match_at(s, p, "day"@) {
            assert(s.subrange(p, p + 3)[1] == s[p + 1]);
            assert(s.subrange(p, p + 3)[1] == s[p + 1]);
            assert(false);
        }
    };
    assert(match_at(s, p, "dys"@));
}

/// With `dy` at `p` and the word `and` right after it, the resolver
/// yields `Days`.
proof fn lemma_preand_days_dy(s: Seq<char>, p: int)
    requires
        0 <= p,
        p + 5 <= s.len(),
        s.subrange(p, p + 2) == "dy"@,
        s[p + 2] == 'a',
        s[p + 3] == 'n',
        s[p + 4] == 'd',
    ensures
        resolve_unit(s, p) == Some((Unit::Days, p + 2)),
{
    reveal_strlit("months");
    reveal_strlit("month");
    reveal_strlit("mths");
    reveal_strlit("mth");
    reveal_strlit("M");
    reveal_strlit("days");
    reveal_strlit("day");
    reveal_strlit("dys");
    reveal_strlit("dy");
    reveal_strlit("d");
    reveal_strlit("D");
    reveal_strlit("weeks");
    reveal_strlit("week");
    reveal_strlit("wks");
    reveal_strlit("wk");
    reveal_strlit("w");
    reveal_strlit("W");
    reveal_strlit("years");
    reveal_strlit("year");
    reveal_strlit("yrs");
    reveal_strlit("yr");
    reveal_strlit("y");
    reveal_strlit("Y");
    reveal_strlit("nanos");
    reveal_strlit("nsec");
    reveal_strlit("ns");
    reveal_strlit("micros");
    reveal_strlit("usec");
    reveal_strlit("us");
    reveal_strlit("millis");
    reveal_strlit("msec");
    reveal_strlit("ms");
    reveal_strlit("seconds");
    reveal_strlit("second");
    reveal_strlit("secs");
    reveal_strlit("sec");
    reveal_strlit("s");
    reveal_strlit("minutes");
    reveal_strlit("minute");
    reveal_strlit("mins");
    reveal_strlit("min");
    reveal_strlit("m");
    reveal_strlit("hours");
    reveal_strlit("hour");
    reveal_strlit("hrs");
    reveal_strlit("hr");
    reveal_strlit("h");
    reveal_strlit("H");
    assert(!match_at(s, p, "months"@)) by {
        if match_at(s, p, "months"@) {
            assert(s.subrange(p, p + 6)[0] == s[p + 0]);
            assert(s.subrange(p, p + 2)[0] == s[p + 0]);
            assert(false);
        }
    };
    assert(!match_at(s, p, "month"@)) by {
        if match_at(s, p, "month"@) {
            assert(s.subrange(p, p + 5)[0] == s[p + 0]);
            assert(s.subrange(p, p + 2)[0] == s[p + 0]);
            assert(false);
        }
    };
    assert(!match_at(s, p, "mths"@)) by {
        if match_at(s, p, "mths"@) {
            assert(s.subrange(p, p + 4)[0] == s[p + 0]);
            assert(s.subrange(p, p + 2)[0] == s[p + 0]);
            assert(false);
        }
    };
    assert(!match_at(s, p, "mth"@)) by {
        if match_at(s, p, "mth"@) {
            assert(s.subrange(p, p + 3)[0] == s[p + 0]);
            assert(s.subrange(p, p + 2)[0] == s[p + 0]);
            assert(false);
        }
    };
    assert(!match_at(s, p, "M"@)) by {
        if match_at(s, p, "M"@) {
            assert(s.subrange(p, p + 1)[0] == s[p + 0]);
            assert(s.subrange(p, p + 2)[0] == s[p + 0]);
            assert(false);
        }
    };
    assert(!match_at(s, p, "days"@)) by {
        if match_at(s, p, "days"@) {
            assert(s.subrange(p, p + 4)[1] == s[p + 1]);
            assert(s.subrange(p, p + 2)[1] == s[p + 1]);
            assert(false);
        }
    };
    assert(!match_at(s, p, "day"@)) by {
        if match_at(s, p, "day"@) {
            assert(s.subrange(p, p + 3)[1] == s[p + 1]);
            assert(s.subrange(p, p + 2)[1] == s[p + 1]);
            assert(false);
        }
    };
    assert(!match_at(s, p, "dys"@)) by {
        if match_at(s, p, "dys"@) {
            assert(s.subrange(p, p + 3)[2] == s[p + 2]);
            assert(false);
        }
    };
    assert(match_at(s, p, "dy"@));
}

/// With `d` at `p` and the word `and` right after it, the resolver
/// yields `Days`.
proof fn lemma_preand_days_d(s: Seq<char>, p: int)
    requires
        0 <= p,
        p + 4 <= s.len(),
        s.subrange(p, p + 1) == "d"@,
        s[p + 1] == 'a',
        s[p + 2] == 'n',
        s[p + 3] == 'd',
    ensures
        resolve_unit(s, p) == Some((Unit::Days, p + 1)),
{
    reveal_strlit("months");
    reveal_strlit("month");
    reveal_strlit("mths");
    reveal_strlit("mth");
    reveal_strlit("M");
    reveal_strlit("days");
    reveal_strlit("day");
    reveal_strlit("dys");
    reveal_strlit("dy");
    reveal_strlit("d");
    reveal_strlit("D");
    reveal_strlit("weeks");
    reveal_strlit("week");
    reveal_strlit("wks");
    reveal_strlit("wk");
    reveal_strlit("w");
    reveal_strlit("W");
    reveal_strlit("years");
    reveal_strlit("year");
    reveal_strlit("yrs");
    reveal_strlit("yr");
    reveal_strlit("y");
    reveal_strlit("Y");
    reveal_strlit("nanos");
    reveal_strlit("nsec");
    reveal_strlit("ns");
    reveal_strlit("micros");
    reveal_strlit("usec");
    reveal_strlit("us");
    reveal_strlit("millis");
    reveal_strlit("msec");
    reveal_strlit("ms");
    reveal_strlit("seconds");
    reveal_strlit("second");
    reveal_strlit("secs");
    reveal_strlit("sec");
    reveal_strlit("s");
    reveal_strlit("minutes");
    reveal_strlit("minute");
    reveal_strlit("mins");
    reveal_strlit("min");
    reveal_strlit("m");
    reveal_strlit("hours");
    reveal_strlit("hour");
    reveal_strlit("hrs");
    reveal_strlit("hr");
    reveal_strlit("h");
    reveal_strlit("H");
    assert(!match_at(s, p, "months"@)) by {
        if match_at(s, p, "months"@) {
            assert(s.subrange(p, p + 6)[0] == s[p + 0]);
            assert(s.subrange(p, p + 1)[0] == s[p + 0]);
            assert(false);
        }
    };
    assert(!match_at(s, p, "month"@)) by {
        if match_at(s, p, "month"@) {
            assert(s.subrange(p, p + 5)[0] == s[p + 0]);
            assert(s.subrange(p, p + 1)[0] == s[p + 0]);
            assert(false);
        }
    };
    assert(!match_at(s, p, "mths"@)) by {
        if match_at(s, p, "mths"@) {
            assert(s.subrange(p, p + 4)[0] == s[p + 0]);
            assert(s.subrange(p, p + 1)[0] == s[p + 0]);
            assert(false);
        }
    };
    assert(!match_at(s, p, "mth"@)) by {
        if match_at(s, p, "mth"@) {
            assert(s.subrange(p, p + 3)[0] == s[p + 0]);
            assert(s.subrange(p, p + 1)[0] == s[p + 0]);
            assert(false);
        }
    };
    assert(!match_at(s, p, "M"@)) by {
        if match_at(s, p, "M"@) {
            assert(s.subrange(p, p + 1)[0] == s[p + 0]);
            assert(s.subrange(p, p + 1)[0] == s[p + 0]);
            assert(false);
        }
    };
    assert(!match_at(s, p, "days"@)) by {
        if match_at(s, p, "days"@) {
            assert(s.subrange(p, p + 4)[2] == s[p + 2]);
            assert(false);
        }
    };
    assert(!match_at(s, p, "day"@)) by {
        if match_at(s, p, "day"@) {
            assert(s.subrange(p, p + 3)[2] == s[p + 2]);
            assert(false);
        }
    };
    assert(!match_at(s, p, "dys"@)) by {
        if match_at(s, p, "dys"@) {
            assert(s.subrange(p, p + 3)[1] == s[p + 1]);
            assert(false);
        }
    };
    assert(!match_at(s, p, "dy"@)) by {
        if match_at(s, p, "dy"@) {
            assert(s.subrange(p, p + 2)[1] == s[p + 1]);
            assert(false);
        }
    };
    assert(match_at(s, p, "d"@));
}

/// With `D` at `p` and the word `and` right after it, the resolver
/// yields `Days`.
proof fn lemma_preand_days_cap_d(s: Seq<char>, p: int)
    requires
        0 <= p,
        p + 4 <= s.len(),
        s.subrange(p, p + 1) == "D"@,
        s[p + 1] == 'a',
        s[p + 2] == 'n',
        s[p + 3] == 'd',
    ensures
        resolve_unit(s, p) == Some((Unit::Days, p + 1)),
{
    reveal_strlit("months");
    reveal_strlit("month");
    reveal_strlit("mths");
    reveal_strlit("mth");
    reveal_strlit("M");
    reveal_strlit("days");
    reveal_strlit("day");
    reveal_strlit("dys");
    reveal_strlit("dy");
    reveal_strlit("d");
    reveal_strlit("D");
    reveal_strlit("weeks");
    reveal_strlit("week");
    reveal_strlit("wks");
    reveal_strlit("wk");
    reveal_strlit("w");
    reveal_strlit("W");
    reveal_strlit("years");
    reveal_strlit("year");
    reveal_strlit("yrs");
    reveal_strlit("yr");
    reveal_strlit("y");
    reveal_strlit("Y");
    reveal_strlit("nanos");
    reveal_strlit("nsec");
    reveal_strlit("ns");
    reveal_strlit("micros");
    reveal_strlit("usec");
    reveal_strlit("us");
    reveal_strlit("millis");
    reveal_strlit("msec");
    reveal_strlit("ms");
    reveal_strlit("seconds");
    reveal_strlit("second");
    reveal_strlit("secs");
    reveal_strlit("sec");
    reveal_strlit("s");
    reveal_strlit("minutes");
    reveal_strlit("minute");
    reveal_strlit("mins");
    reveal_strlit("min");
    reveal_strlit("m");
    reveal_strlit("hours");
    reveal_strlit("hour");
    reveal_strlit("hrs");
    reveal_strlit("hr");
    reveal_strlit("h");
    reveal_strlit("H");
    assert(!match_at(s, p, "months"@)) by {
        if match_at(s, p, "months"@) {
            assert(s.subrange(p, p + 6)[0] == s[p + 0]);
            assert(s.subrange(p, p + 1)[0] == s[p + 0]);
            assert(false);
        }
    };
    assert(!match_at(s, p, "month"@)) by {
        if match_at(s, p, "month"@) {
            assert(s.subrange(p, p + 5)[0] == s[p + 0]);
            assert(s.subrange(p, p + 1)[0] == s[p + 0]);
            assert(false);
        }
    };
    assert(!match_at(s, p, "mths"@)) by {
        if match_at(s, p, "mths"@) {
            assert(s.subrange(p, p + 4)[0] == s[p + 0]);
            assert(s.subrange(p, p + 1)[0] == s[p + 0]);
            assert(false);
        }
    };
    assert(!match_at(s, p, "mth"@)) by {
        if match_at(s, p, "mth"@) {
            assert(s.subrange(p, p + 3)[0] == s[p + 0]);
            assert(s.subrange(p, p + 1)[0] == s[p + 0]);
            assert(false);
        }
    };
    assert(!match_at(s, p, "M"@)) by {
        if match_at(s, p, "M"@) {
            assert(s.subrange(p, p + 1)[0] == s[p + 0]);
            assert(s.subrange(p, p + 1)[0] == s[p + 0]);
            assert(false);
        }
    };
    assert(!match_at(s, p, "days"@)) by {
        if match_at(s, p, "days"@) {
            assert(s.subrange(p, p + 4)[0] == s[p + 0]);
            assert(s.subrange(p, p + 1)[0] == s[p + 0]);
            assert(false);
        }
    };
    assert(!match_at(s, p, "day"@)) by {
        if match_at(s, p, "day"@) {
            assert(s.subrange(p, p + 3)[0] == s[p + 0]);
            assert(s.subrange(p, p + 1)[0] == s[p + 0]);
            assert(false);
        }
    };
    assert(!match_at(s, p, "dys"@)) by {
        if match_at(s, p, "dys"@) {
            assert(s.subrange(p, p + 3)[0] == s[p + 0]);
            assert(s.subrange(p, p + 1)[0] == s[p + 0]);
            assert(false);
        }
    };
    assert(!match_at(s, p, "dy"@)) by {
        if match_at(s, p, "dy"@) {
            assert(s.subrange(p, p + 2)[0] == s[p + 0]);
            assert(s.subrange(p, p + 1)[0] == s[p + 0]);
            assert(false);
        }
    };
    assert(!match_at(s, p, "d"@)) by {
        if match_at(s, p, "d"@) {
            assert(s.subrange(p, p + 1)[0] == s[p + 0]);
            assert(s.subrange(p, p + 1)[0] == s[p + 0]);
            assert(false);
        }
    };
    assert(match_at(s, p, "D"@));
}

/// With `weeks` at `p` and the word `and` right after it, the resolver
/// yields `Weeks`.
proof fn lemma_preand_weeks_weeks(s: Seq<char>, p: int)
    requires
        0 <= p,
        p + 8 <= s.len(),
        s.subrange(p, p + 5) == "weeks"@,
        s[p + 5] == 'a',
        s[p + 6] == 'n',
        s[p + 7] == 'd',
    ensures
        resolve_unit(s, p) == Some((Unit::Weeks, p + 5)),
{
    reveal_strlit("months");
    reveal_strlit("month");
    reveal_strlit("mths");
    reveal_strlit("mth");
    reveal_strlit("M");
    reveal_strlit("days");
    reveal_strlit("day");
    reveal_strlit("dys");
    reveal_strlit("dy");
    reveal_strlit("d");
    reveal_strlit("D");
    reveal_strlit("weeks");
    reveal_strlit("week");
    reveal_strlit("wks");
    reveal_strlit("wk");
    reveal_strlit("w");
    reveal_strlit("W");
    reveal_strlit("years");
    reveal_strlit("year");
    reveal_strlit("yrs");
    reveal_strlit("yr");
    reveal_strlit("y");
    reveal_strlit("Y");
    reveal_strlit("nanos");
    reveal_strlit("nsec");
    reveal_strlit("ns");
    reveal_strlit("micros");
    reveal_strlit("usec");
    reveal_strlit("us");
    reveal_strlit("millis");
    reveal_strlit("msec");
    reveal_strlit("ms");
    reveal_strlit("seconds");
    reveal_strlit("second");
    reveal_strlit("secs");
    reveal_strlit("sec");
    reveal_strlit("s");
    reveal_strlit("minutes");
    reveal_strlit("minute");
    reveal_strlit("mins");
    reveal_strlit("min");
    reveal_strlit("m");
    reveal_strlit("hours");
    reveal_strlit("hour");
    reveal_strlit("hrs");
    reveal_strlit("hr");
    reveal_strlit("h");
    reveal_strlit("H");
    assert(!match_at(s, p, "months"@)) by {
        if match_at(s, p, "months"@) {
            assert(s.subrange(p, p + 6)[0] == s[p + 0]);
            assert(s.subrange(p, p + 5)[0] == s[p + 0]);
            assert(false);
        }
    };
    assert(!match_at(s, p, "month"@)) by {
        if match_at(s, p, "month"@) {
            assert(s.subrange(p, p + 5)[0] == s[p + 0]);
            assert(s.subrange(p, p + 5)[0] == s[p + 0]);
            assert(false);
        }
    };
    assert(!match_at(s, p, "mths"@)) by {
        if match_at(s, p, "mths"@) {
            assert(s.subrange(p, p + 4)[0] == s[p + 0]);
            assert(s.subrange(p, p + 5)[0] == s[p + 0]);
            assert(false);
        }
    };
    assert(!match_at(s, p, "mth"@)) by {
        if match_at(s, p, "mth"@) {
            assert(s.subrange(p, p + 3)[0] == s[p + 0]);
            assert(s.subrange(p, p + 5)[0] == s[p + 0]);
            assert(false);
        }
    };
    assert(!match_at(s, p, "M"@)) by {
        if match_at(s, p, "M"@) {
            assert(s.subrange(p, p + 1)[0] == s[p + 0]);
            assert(s.subrange(p, p + 5)[0] == s[p + 0]);
            assert(false);
        }
    };
    assert(!match_at(s, p, "days"@)) by {
        if match_at(s, p, "days"@) {
            assert(s.subrange(p, p + 4)[0] == s[p + 0]);
            assert(s.subrange(p, p + 5)[0] == s[p + 0]);
            assert(false);
        }
    };
    assert(!match_at(s, p, "day"@)) by {
        if match_at(s, p, "day"@) {
            assert(s.subrange(p, p + 3)[0] == s[p + 0]);
            assert(s.subrange(p, p + 5)[0] == s[p + 0]);
            assert(false);
        }
    };
    assert(!match_at(s, p, "dys"@)) by {
        if match_at(s, p, "dys"@) {
            assert(s.subrange(p, p + 3)[0] == s[p + 0]);
            assert(s.subrange(p, p + 5)[0] == s[p + 0]);
            assert(false);
        }
    };
    assert(!match_at(s, p, "dy"@)) by {
        if match_at(s, p, "dy"@) {
            assert(s.subrange(p, p + 2)[0] == s[p + 0]);
            assert(s.subrange(p, p + 5)[0] == s[p + 0]);
            assert(false);
        }
    };
    assert(!match_at(s, p, "d"@)) by {
        if match_at(s, p, "d"@) {
            assert(s.subrange(p, p + 1)[0] == s[p + 0]);
            assert(s.subrange(p, p + 5)[0] == s[p + 0]);
            assert(false);
        }
    };
    assert(!match_at(s, p, "D"@)) by {
        if match_at(s, p, "D"@) {
            assert(s.subrange(p, p + 1)[0] == s[p + 0]);
            assert(s.subrange(p, p + 5)[0] == s[p + 0]);
            assert(false);
        }
    };
    assert(match_at(s, p, "weeks"@));
}

/// With `week` at `p` and the word `and` right after it, the resolver
/// yields `Weeks`.
proof fn lemma_preand_weeks_week(s: Seq<char>, p: int)
    requires
        0 <= p,
        p + 7 <= s.len(),
        s.subrange(p, p + 4) == "week"@,
        s[p + 4] == 'a',
        s[p + 5] == 'n',
        s[p + 6] == 'd',
    ensures
        resolve_unit(s, p) == Some((Unit::Weeks, p + 4)),
{
    reveal_strlit("months");
    reveal_strlit("month");
    reveal_strlit("mths");
    reveal_strlit("mth");
    reveal_strlit("M");
    reveal_strlit("days");
    reveal_strlit("day");
    reveal_strlit("dys");
    reveal_strlit("dy");
    reveal_strlit("d");
    reveal_strlit("D");
    reveal_strlit("weeks");
    reveal_strlit("week");
    reveal_strlit("wks");
    reveal_strlit("wk");
    reveal_strlit("w");
    reveal_strlit("W");
    reveal_strlit("years");
    reveal_strlit("year");
    reveal_strlit("yrs");
    reveal_strlit("yr");
    reveal_strlit("y");
    reveal_strlit("Y");
    reveal_strlit("nanos");
    reveal_strlit("nsec");
    reveal_strlit("ns");
    reveal_strlit("micros");
    reveal_strlit("usec");
    reveal_strlit("us");
    reveal_strlit("millis");
    reveal_strlit("msec");
    reveal_strlit("ms");
    reveal_strlit("seconds");
    reveal_strlit("second");
    reveal_strlit("secs");
    reveal_strlit("sec");
    reveal_strlit("s");
    reveal_strlit("minutes");
    reveal_strlit("minute");
    reveal_strlit("mins");
    reveal_strlit("min");
    reveal_strlit("m");
    reveal_strlit("hours");
    reveal_strlit("hour");
    reveal_strlit("hrs");
    reveal_strlit("hr");
    reveal_strlit("h");
    reveal_strlit("H");
    assert(!match_at(s, p, "months"@)) by {
        if match_at(s, p, "months"@) {
            assert(s.subrange(p, p + 6)[0] == s[p + 0]);
            assert(s.subrange(p, p + 4)[0] == s[p + 0]);
            assert(false);
        }
    };
    assert(!match_at(s, p, "month"@)) by {
        if match_at(s, p, "month"@) {
            assert(s.subrange(p, p + 5)[0] == s[p + 0]);
            assert(s.subrange(p, p + 4)[0] == s[p + 0]);
            assert(false);
        }
    };
    assert(!match_at(s, p, "mths"@)) by {
        if match_at(s, p, "mths"@) {
            assert(s.subrange(p, p + 4)[0] == s[p + 0]);
            assert(s.subrange(p, p + 4)[0] == s[p + 0]);
            assert(false);
        }
    };
    assert(!match_at(s, p, "mth"@)) by {
        if match_at(s, p, "mth"@) {
            assert(s.subrange(p, p + 3)[0] == s[p + 0]);
            assert(s.subrange(p, p + 4)[0] == s[p + 0]);
            assert(false);
        }
    };
    assert(!match_at(s, p, "M"@)) by {
        if match_at(s, p, "M"@) {
            assert(s.subrange(p, p + 1)[0] == s[p + 0]);
            assert(s.subrange(p, p + 4)[0] == s[p + 0]);
            assert(false);
        }
    };
    assert(!match_at(s, p, "days"@)) by {
        if match_at(s, p, "days"@) {
            assert(s.subrange(p, p + 4)[0] == s[p + 0]);
            assert(s.subrange(p, p + 4)[0] == s[p + 0]);
            assert(false);
        }
    };
    assert(!match_at(s, p, "day"@)) by {
        if match_at(s, p, "day"@) {
            assert(s.subrange(p, p + 3)[0] == s[p + 0]);
            assert(s.subrange(p, p + 4)[0] == s[p + 0]);
            assert(false);
        }
    };
    assert(!match_at(s, p, "dys"@)) by {
        if match_at(s, p, "dys"@) {
            assert(s.subrange(p, p + 3)[0] == s[p + 0]);
            assert(s.subrange(p, p + 4)[0] == s[p + 0]);
            assert(false);
        }
    };
    assert(!match_at(s, p, "dy"@)) by {
        if match_at(s, p, "dy"@) {
            assert(s.subrange(p, p + 2)[0] == s[p + 0]);
            assert(s.subrange(p, p + 4)[0] == s[p + 0]);
            assert(false);
        }
    };
    assert(!match_at(s, p, "d"@)) by {
        if match_at(s, p, "d"@) {
            assert(s.subrange(p, p + 1)[0] == s[p + 0]);
            assert(s.subrange(p, p + 4)[0] == s[p + 0]);
            assert(false);
        }
    };
    assert(!match_at(s, p, "D"@)) by {
        if match_at(s, p, "D"@) {
            assert(s.subrange(p, p + 1)[0] == s[p + 0]);
            assert(s.subrange(p, p + 4)[0] == s[p + 0]);
            assert(false);
        }
    };
    assert(!match_at(s, p, "weeks"@)) by {
        if match_at(s, p, "weeks"@) {
            assert(s.subrange(p, p + 5)[4] == s[p + 4]);
            assert(false);
        }
    };
    assert(match_at(s, p, "week"@));
}

/// With `wks` at `p` and the word `and` right after it, the resolver
/// yields `Weeks`.
proof fn lemma_preand_weeks_wks(s: Seq<char>, p: int)
    requires
        0 <= p,
        p + 6 <= s.len(),
        s.subrange(p, p + 3) == "wks"@,
        s[p + 3] == 'a',
        s[p + 4] == 'n',
        s[p + 5] == 'd',
    ensures
        resolve_unit(s, p) == Some((Unit::Weeks, p + 3)),
{
    reveal_strlit("months");
    reveal_strlit("month");
    reveal_strlit("mths");
    reveal_strlit("mth");
    reveal_strlit("M");
    reveal_strlit("days");
    reveal_strlit("day");
    reveal_strlit("dys");
    reveal_strlit("dy");
    reveal_strlit("d");
    reveal_strlit("D");
    reveal_strlit("weeks");
    reveal_strlit("week");
    reveal_strlit("wks");
    reveal_strlit("wk");
    reveal_strlit("w");
    reveal_strlit("W");
    reveal_strlit("years");
    reveal_strlit("year");
    reveal_strlit("yrs");
    reveal_strlit("yr");
    reveal_strlit("y");
    reveal_strlit("Y");
    reveal_strlit("nanos");
    reveal_strlit("nsec");
    reveal_strlit("ns");
    reveal_strlit("micros");
    reveal_strlit("usec");
    reveal_strlit("us");
    reveal_strlit("millis");
    reveal_strlit("msec");
    reveal_strlit("ms");
    reveal_strlit("seconds");
    reveal_strlit("second");
    reveal_strlit("secs");
    reveal_strlit("sec");
    reveal_strlit("s");
    reveal_strlit("minutes");
    reveal_strlit("minute");
    reveal_strlit("mins");
    reveal_strlit("min");
    reveal_strlit("m");
    reveal_strlit("hours");
    reveal_strlit("hour");
    reveal_strlit("hrs");
    reveal_strlit("hr");
    reveal_strlit("h");
    reveal_strlit("H");
    assert(!match_at(s, p, "months"@)) by {
        if match_at(s, p, "months"@) {
            assert(s.subrange(p, p + 6)[0] == s[p + 0]);
            assert(s.subrange(p, p + 3)[0] == s[p + 0]);
            assert(false);
        }
    };
    assert(!match_at(s, p, "month"@)) by {
        if match_at(s, p, "month"@) {
            assert(s.subrange(p, p + 5)[0] == s[p + 0]);
            assert(s.subrange(p, p + 3)[0] == s[p + 0]);
            assert(false);
        }
    };
    assert(!match_at(s, p, "mths"@)) by {
        if match_at(s, p, "mths"@) {
            assert(s.subrange(p, p + 4)[0] == s[p + 0]);
            assert(s.subrange(p, p + 3)[0] == s[p + 0]);
            assert(false);
        }
    };
    assert(!match_at(s, p, "mth"@)) by {
        if match_at(s, p, "mth"@) {
            assert(s.subrange(p, p + 3)[0] == s[p + 0]);
            assert(s.subrange(p, p + 3)[0] == s[p + 0]);
            assert(false);
        }
    };
    assert(!match_at(s, p, "M"@)) by {
        if match_at(s, p, "M"@) {
            assert(s.subrange(p, p + 1)[0] == s[p + 0]);
            assert(s.subrange(p, p + 3)[0] == s[p + 0]);
            assert(false);
        }
    };
    assert(!match_at(s, p, "days"@)) by {
        if match_at(s, p, "days"@) {
            assert(s.subrange(p, p + 4)[0] == s[p + 0]);
            assert(s.subrange(p, p + 3)[0] == s[p + 0]);
            assert(false);
        }
    };
    assert(!match_at(s, p, "day"@)) by {
        if match_at(s, p, "day"@) {
            assert(s.subrange(p, p + 3)[0] == s[p + 0]);
            assert(s.subrange(p, p + 3)[0] == s[p + 0]);
            assert(false);
        }
    };
    assert(!match_at(s, p, "dys"@)) by {
        if match_at(s, p, "dys"@) {
            assert(s.subrange(p, p + 3)[0] == s[p + 0]);
            assert(s.subrange(p, p + 3)[0] == s[p + 0]);
            assert(false);
        }
    };
    assert(!match_at(s, p, "dy"@)) by {
        if match_at(s, p, "dy"@) {
            assert(s.subrange(p, p + 2)[0] == s[p + 0]);
            assert(s.subrange(p, p + 3)[0] == s[p + 0]);
            assert(false);
        }
    };
    assert(!match_at(s, p, "d"@)) by {
        if match_at(s, p, "d"@) {
            assert(s.subrange(p, p + 1)[0] == s[p + 0]);
            assert(s.subrange(p, p + 3)[0] == s[p + 0]);
            assert(false);
        }
    };
    assert(!match_at(s, p, "D"@)) by {
        if match_at(s, p, "D"@) {
            assert(s.subrange(p, p + 1)[0] == s[p + 0]);
            assert(s.subrange(p, p + 3)[0] == s[p + 0]);
            assert(false);
        }
    };
    assert(!match_at(s, p, "weeks"@)) by {
        if match_at(s, p, "weeks"@) {
            assert(s.subrange(p, p + 5)[1] == s[p + 1]);
            assert(s.subrange(p, p + 3)[1] == s[p + 1]);
            assert(false);
        }
    };
    assert(!match_at(s, p, "week"@)) by {
        if match_at(s, p, "week"@) {
            assert(s.subrange(p, p + 4)[1] == s[p + 1]);
            assert(s.subrange(p, p + 3)[1] == s[p + 1]);
            assert(false);
        }
    };
    assert(match_at(s, p, "wks"@));
}

/// With `wk` at `p` and the word `and` right after it, the resolver
/// yields `Weeks`.
proof fn lemma_preand_weeks_wk(s: Seq<char>, p: int)
    requires
        0 <= p,
        p + 5 <= s.len(),
        s.subrange(p, p + 2) == "wk"@,
        s[p + 2] == 'a',
        s[p + 3] == 'n',
        s[p + 4] == 'd',
    ensures
        resolve_unit(s, p) == Some((Unit::Weeks, p + 2)),
{
    reveal_strlit("months");
    reveal_strlit("month");
    reveal_strlit("mths");
    reveal_strlit("mth");
    reveal_strlit("M");
    reveal_strlit("days");
    reveal_strlit("day");
    reveal_strlit("dys");
    reveal_strlit("dy");
    reveal_strlit("d");
    reveal_strlit("D");
    reveal_strlit("weeks");
    reveal_strlit("week");
    reveal_strlit("wks");
    reveal_strlit("wk");
    reveal_strlit("w");
    reveal_strlit("W");
    reveal_strlit("years");
    reveal_strlit("year");
    reveal_strlit("yrs");
    reveal_strlit("yr");
    reveal_strlit("y");
    reveal_strlit("Y");
    reveal_strlit("nanos");
    reveal_strlit("nsec");
    reveal_strlit("ns");
    reveal_strlit("micros");
    reveal_strlit("usec");
    reveal_strlit("us");
    reveal_strlit("millis");
    reveal_strlit("msec");
    reveal_strlit("ms");
    reveal_strlit("seconds");
    reveal_strlit("second");
    reveal_strlit("secs");
    reveal_strlit("sec");
    reveal_strlit("s");
    reveal_strlit("minutes");
    reveal_strlit("minute");
    reveal_strlit("mins");
    reveal_strlit("min");
    reveal_strlit("m");
    reveal_strlit("hours");
    reveal_strlit("hour");
    reveal_strlit("hrs");
    reveal_strlit("hr");
    reveal_strlit("h");
    reveal_strlit("H");
    assert(!match_at(s, p, "months"@)) by {
        if match_at(s, p, "months"@) {
            assert(s.subrange(p, p + 6)[0] == s[p + 0]);
            assert(s.subrange(p, p + 2)[0] == s[p + 0]);
            assert(false);
        }
    };
    assert(!match_at(s, p, "month"@)) by {
        if match_at(s, p, "month"@) {
            assert(s.subrange(p, p + 5)[0] == s[p + 0]);
            assert(s.subrange(p, p + 2)[0] == s[p + 0]);
            assert(false);
        }
    };
    assert(!match_at(s, p, "mths"@)) by {
        if match_at(s, p, "mths"@) {
            assert(s.subrange(p, p + 4)[0] == s[p + 0]);
            assert(s.subrange(p, p + 2)[0] == s[p + 0]);
            assert(false);
        }
    };
    assert(!match_at(s, p, "mth"@)) by {
        if match_at(s, p, "mth"@) {
            assert(s.subrange(p, p + 3)[0] == s[p + 0]);
            assert(s.subrange(p, p + 2)[0] == s[p + 0]);
            assert(false);
        }
    };
    assert(!match_at(s, p, "M"@)) by {
        if match_at(s, p, "M"@) {
            assert(s.subrange(p, p + 1)[0] == s[p + 0]);
            assert(s.subrange(p, p + 2)[0] == s[p + 0]);
            assert(false);
        }
    };
    assert(!match_at(s, p, "days"@)) by {
        if match_at(s, p, "days"@) {
            assert(s.subrange(p, p + 4)[0] == s[p + 0]);
            assert(s.subrange(p, p + 2)[0] == s[p + 0]);
            assert(false);
        }
    };
    assert(!match_at(s, p, "day"@)) by {
        if match_at(s, p, "day"@) {
            assert(s.subrange(p, p + 3)[0] == s[p + 0]);
            assert(s.subrange(p, p + 2)[0] == s[p + 0]);
            assert(false);
        }
    };
    assert(!match_at(s, p, "dys"@)) by {
        if match_at(s, p, "dys"@) {
            assert(s.subrange(p, p + 3)[0] == s[p + 0]);
            assert(s.subrange(p, p + 2)[0] == s[p + 0]);
            assert(false);
        }
    };
    assert(!match_at(s, p, "dy"@)) by {
        if match_at(s, p, "dy"@) {
            assert(s.subrange(p, p + 2)[0] == s[p + 0]);
            assert(s.subrange(p, p + 2)[0] == s[p + 0]);
            assert(false);
        }
    };
    assert(!match_at(s, p, "d"@)) by {
        if match_at(s, p, "d"@) {
            assert(s.subrange(p, p + 1)[0] == s[p + 0]);
            assert(s.subrange(p, p + 2)[0] == s[p + 0]);
            assert(false);
        }
    };
    assert(!match_at(s, p, "D"@)) by {
        if match_at(s, p, "D"@) {
            assert(s.subrange(p, p + 1)[0] == s[p + 0]);
            assert(s.subrange(p, p + 2)[0] == s[p + 0]);
            assert(false);
        }
    };
    assert(!match_at(s, p, "weeks"@)) by {
        if match_at(s, p, "weeks"@) {
            assert(s.subrange(p, p + 5)[1] == s[p + 1]);
            assert(s.subrange(p, p + 2)[1] == s[p + 1]);
            assert(false);
        }
    };
    assert(!match_at(s, p, "week"@)) by {
        if match_at(s, p, "week"@) {
            assert(s.subrange(p, p + 4)[1] == s[p + 1]);
            assert(s.subrange(p, p + 2)[1] == s[p + 1]);
            assert(false);
        }
    };
    assert(!match_at(s, p, "wks"@)) by {
        if match_at(s, p, "wks"@) {
            assert(s.subrange(p, p + 3)[2] == s[p + 2]);
            assert(false);
        }
    };
    assert(match_at(s, p, "wk"@));
}

/// With `w` at `p` and the word `and` right after it, the resolver
/// yields `Weeks`.
proof fn lemma_preand_weeks_w(s: Seq<char>, p: int)
    requires
        0 <= p,
        p + 4 <= s.len(),
        s.subrange(p, p + 1) == "w"@,
        s[p + 1] == 'a',
        s[p + 2] == 'n',
        s[p + 3] == 'd',
    ensures
        resolve_unit(s, p) == Some((Unit::Weeks, p + 1)),
{
    reveal_strlit("months");
    reveal_strlit("month");
    reveal_strlit("mths");
    reveal_strlit("mth");
    reveal_strlit("M");
    reveal_strlit("days");
    reveal_strlit("day");
    reveal_strlit("dys");
    reveal_strlit("dy");
    reveal_strlit("d");
    reveal_strlit("D");
    reveal_strlit("weeks");
    reveal_strlit("week");
    reveal_strlit("wks");
    reveal_strlit("wk");
    reveal_strlit("w");
    reveal_strlit("W");
    reveal_strlit("years");
    reveal_strlit("year");
    reveal_strlit("yrs");
    reveal_strlit("yr");
    reveal_strlit("y");
    reveal_strlit("Y");
    reveal_strlit("nanos");
    reveal_strlit("nsec");
    reveal_strlit("ns");
    reveal_strlit("micros");
    reveal_strlit("usec");
    reveal_strlit("us");
    reveal_strlit("millis");
    reveal_strlit("msec");
    reveal_strlit("ms");
    reveal_strlit("seconds");
    reveal_strlit("second");
    reveal_strlit("secs");
    reveal_strlit("sec");
    reveal_strlit("s");
    reveal_strlit("minutes");
    reveal_strlit("minute");
    reveal_strlit("mins");
    reveal_strlit("min");
    reveal_strlit("m");
    reveal_strlit("hours");
    reveal_strlit("hour");
    reveal_strlit("hrs");
    reveal_strlit("hr");
    reveal_strlit("h");
    reveal_strlit("H");
    assert(!match_at(s, p, "months"@)) by {
        if match_at(s, p, "months"@) {
            assert(s.subrange(p, p + 6)[0] == s[p + 0]);
            assert(s.subrange(p, p + 1)[0] == s[p + 0]);
            assert(false);
        }
    };
    assert(!match_at(s, p, "month"@)) by {
        if match_at(s, p, "month"@) {
            assert(s.subrange(p, p + 5)[0] == s[p + 0]);
            assert(s.subrange(p, p + 1)[0] == s[p + 0]);
            assert(false);
        }
    };
    assert(!match_at(s, p, "mths"@)) by {
        if match_at(s, p, "mths"@) {
            assert(s.subrange(p, p + 4)[0] == s[p + 0]);
            assert(s.subrange(p, p + 1)[0] == s[p + 0]);
            assert(false);
        }
    };
    assert(!match_at(s, p, "mth"@)) by {
        if match_at(s, p, "mth"@) {
            assert(s.subrange(p, p + 3)[0] == s[p + 0]);
            assert(s.subrange(p, p + 1)[0] == s[p + 0]);
            assert(false);
        }
    };
    assert(!match_at(s, p, "M"@)) by {
        if match_at(s, p, "M"@) {
            assert(s.subrange(p, p + 1)[0] == s[p + 0]);
            assert(s.subrange(p, p + 1)[0] == s[p + 0]);
            assert(false);
        }
    };
    assert(!match_at(s, p, "days"@)) by {
        if match_at(s, p, "days"@) {
            assert(s.subrange(p, p + 4)[0] == s[p + 0]);
            assert(s.subrange(p, p + 1)[0] == s[p + 0]);
            assert(false);
        }
    };
    assert(!match_at(s, p, "day"@)) by {
        if match_at(s, p, "day"@) {
            assert(s.subrange(p, p + 3)[0] == s[p + 0]);
            assert(s.subrange(p, p + 1)[0] == s[p + 0]);
            assert(false);
        }
    };
    assert(!match_at(s, p, "dys"@)) by {
        if match_at(s, p, "dys"@) {
            assert(s.subrange(p, p + 3)[0] == s[p + 0]);
            assert(s.subrange(p, p + 1)[0] == s[p + 0]);
            assert(false);
        }
    };
    assert(!match_at(s, p, "dy"@)) by {
        if match_at(s, p, "dy"@) {
            assert(s.subrange(p, p + 2)[0] == s[p + 0]);
            assert(s.subrange(p, p + 1)[0] == s[p + 0]);
            assert(false);
        }
    };
    assert(!match_at(s, p, "d"@)) by {
        if match_at(s, p, "d"@) {
            assert(s.subrange(p, p + 1)[0] == s[p + 0]);
            assert(s.subrange(p, p + 1)[0] == s[p + 0]);
            assert(false);
        }
    };
    assert(!match_at(s, p, "D"@)) by {
        if match_at(s, p, "D"@) {
            assert(s.subrange(p, p + 1)[0] == s[p + 0]);
            assert(s.subrange(p, p + 1)[0] == s[p + 0]);
            assert(false);
        }
    };
    assert(!match_at(s, p, "weeks"@)) by {
        if match_at(s, p, "weeks"@) {
            assert(s.subrange(p, p + 5)[1] == s[p + 1]);
            assert(false);
        }
    };
    assert(!match_at(s, p, "week"@)) by {
        if match_at(s, p, "week"@) {
            assert(s.subrange(p, p + 4)[1] == s[p + 1]);
            assert(false);
        }
    };
    assert(!match_at(s, p, "wks"@)) by {
        if match_at(s, p, "wks"@) {
            assert(s.subrange(p, p + 3)[1] == s[p + 1]);
            assert(false);
        }
    };
    assert(!match_at(s, p, "wk"@)) by {
        if match_at(s, p, "wk"@) {
            assert(s.subrange(p, p + 2)[1] == s[p + 1]);
            assert(false);
        }
    };
    assert(match_at(s, p, "w"@));
}

/// With `W` at `p` and the word `and` right after it, the resolver
/// yields `Weeks`.
proof fn lemma_preand_weeks_cap_w(s: Seq<char>, p: int)
    requires
        0 <= p,
        p + 4 <= s.len(),
        s.subrange(p, p + 1) == "W"@,
        s[p + 1] == 'a',
        s[p + 2] == 'n',
        s[p + 3] == 'd',
    ensures
        resolve_unit(s, p) == Some((Unit::Weeks, p + 1)),
{
    reveal_strlit("months");
    reveal_strlit("month");
    reveal_strlit("mths");
    reveal_strlit("mth");
    reveal_strlit("M");
    reveal_strlit("days");
    reveal_strlit("day");
    reveal_strlit("dys");
    reveal_strlit("dy");
    reveal_strlit("d");
    reveal_strlit("D");
    reveal_strlit("weeks");
    reveal_strlit("week");
    reveal_strlit("wks");
    reveal_strlit("wk");
    reveal_strlit("w");
    reveal_strlit("W");
    reveal_strlit("years");
    reveal_strlit("year");
    reveal_strlit("yrs");
    reveal_strlit("yr");
    reveal_strlit("y");
    reveal_strlit("Y");
    reveal_strlit("nanos");
    reveal_strlit("nsec");
    reveal_strlit("ns");
    reveal_strlit("micros");
    reveal_strlit("usec");
    reveal_strlit("us");
    reveal_strlit("millis");
    reveal_strlit("msec");
    reveal_strlit("ms");
    reveal_strlit("seconds");
    reveal_strlit("second");
    reveal_strlit("secs");
    reveal_strlit("sec");
    reveal_strlit("s");
    reveal_strlit("minutes");
    reveal_strlit("minute");
    reveal_strlit("mins");
    reveal_strlit("min");
    reveal_strlit("m");
    reveal_strlit("hours");
    reveal_strlit("hour");
    reveal_strlit("hrs");
    reveal_strlit("hr");
    reveal_strlit("h");
    reveal_strlit("H");
    assert(!match_at(s, p, "months"@)) by {
        if match_at(s, p, "months"@) {
            assert(s.subrange(p, p + 6)[0] == s[p + 0]);
            assert(s.subrange(p, p + 1)[0] == s[p + 0]);
            assert(false);
        }
    };
    assert(!match_at(s, p, "month"@)) by {
        if match_at(s, p, "month"@) {
            assert(s.subrange(p, p + 5)[0] == s[p + 0]);
            assert(s.subrange(p, p + 1)[0] == s[p + 0]);
            assert(false);
        }
    };
    assert(!match_at(s, p, "mths"@)) by {
        if match_at(s, p, "mths"@) {
            assert(s.subrange(p, p + 4)[0] == s[p + 0]);
            assert(s.subrange(p, p + 1)[0] == s[p + 0]);
            assert(false);
        }
    };
    assert(!match_at(s, p, "mth"@)) by {
        if match_at(s, p, "mth"@) {
            assert(s.subrange(p, p + 3)[0] == s[p + 0]);
            assert(s.subrange(p, p + 1)[0] == s[p + 0]);
            assert(false);
        }
    };
    assert(!match_at(s, p, "M"@)) by {
        if match_at(s, p, "M"@) {
            assert(s.subrange(p, p + 1)[0] == s[p + 0]);
            assert(s.subrange(p, p + 1)[0] == s[p + 0]);
            assert(false);
        }
    };
    assert(!match_at(s, p, "days"@)) by {
        if match_at(s, p, "days"@) {
            assert(s.subrange(p, p + 4)[0] == s[p + 0]);
            assert(s.subrange(p, p + 1)[0] == s[p + 0]);
            assert(false);
        }
    };
    assert(!match_at(s, p, "day"@)) by {
        if match_at(s, p, "day"@) {
            assert(s.subrange(p, p + 3)[0] == s[p + 0]);
            assert(s.subrange(p, p + 1)[0] == s[p + 0]);
            assert(false);
        }
    };
    assert(!match_at(s, p, "dys"@)) by {
        if match_at(s, p, "dys"@) {
            assert(s.subrange(p, p + 3)[0] == s[p + 0]);
            assert(s.subrange(p, p + 1)[0] == s[p + 0]);
            assert(false);
        }
    };
    assert(!match_at(s, p, "dy"@)) by {
        if match_at(s, p, "dy"@) {
            assert(s.subrange(p, p + 2)[0] == s[p + 0]);
            assert(s.subrange(p, p + 1)[0] == s[p + 0]);
            assert(false);
        }
    };
    assert(!match_at(s, p, "d"@)) by {
        if match_at(s, p, "d"@) {
            assert(s.subrange(p, p + 1)[0] == s[p + 0]);
            assert(s.subrange(p, p + 1)[0] == s[p + 0]);
            assert(false);
        }
    };
    assert(!match_at(s, p, "D"@)) by {
        if match_at(s, p, "D"@) {
            assert(s.subrange(p, p + 1)[0] == s[p + 0]);
            assert(s.subrange(p, p + 1)[0] == s[p + 0]);
            assert(false);
        }
    };
    assert(!match_at(s, p, "weeks"@)) by {
        if match_at(s, p, "weeks"@) {
            assert(s.subrange(p, p + 5)[0] == s[p + 0]);
            assert(s.subrange(p, p + 1)[0] == s[p + 0]);
            assert(false);
        }
    };
    assert(!match_at(s, p, "week"@)) by {
        if match_at(s, p, "week"@) {
            assert(s.subrange(p, p + 4)[0] == s[p + 0]);
            assert(s.subrange(p, p + 1)[0] == s[p + 0]);
            assert(false);
        }
    };
    assert(!match_at(s, p, "wks"@)) by {
        if match_at(s, p, "wks"@) {
            assert(s.subrange(p, p + 3)[0] == s[p + 0]);
            assert(s.subrange(p, p + 1)[0] == s[p + 0]);
            assert(false);
        }
    };
    assert(!match_at(s, p, "wk"@)) by {
        if match_at(s, p, "wk"@) {
            assert(s.subrange(p, p + 2)[0] == s[p + 0]);
            assert(s.subrange(p, p + 1)[0] == s[p + 0]);
            assert(false);
        }
    };
    assert(!match_at(s, p, "w"@)) by {
        if match_at(s, p, "w"@) {
            assert(s.subrange(p, p + 1)[0] == s[p + 0]);
            assert(s.subrange(p, p + 1)[0] == s[p + 0]);
            assert(false);
        }
    };
    assert(match_at(s, p, "W"@));
}

/// With `years` at `p` and the word `and` right after it, the resolver
/// yields `Years`.
proof fn lemma_preand_years_years(s: Seq<char>, p: int)
    requires
        0 <= p,
        p + 8 <= s.len(),
        s.subrange(p, p + 5) == "years"@,
        s[p + 5] == 'a',
        s[p + 6] == 'n',
        s[p + 7] == 'd',
    ensures
        resolve_unit(s, p) == Some((Unit::Years, p + 5)),
{
    reveal_strlit("months");
    reveal_strlit("month");
    reveal_strlit("mths");
    reveal_strlit("mth");
    reveal_strlit("M");
    reveal_strlit("days");
    reveal_strlit("day");
    reveal_strlit("dys");
    reveal_strlit("dy");
    reveal_strlit("d");
    reveal_strlit("D");
    reveal_strlit("weeks");
    reveal_strlit("week");
    reveal_strlit("wks");
    reveal_strlit("wk");
    reveal_strlit("w");
    reveal_strlit("W");
    reveal_strlit("years");
    reveal_strlit("year");
    reveal_strlit("yrs");
    reveal_strlit("yr");
    reveal_strlit("y");
    reveal_strlit("Y");
    reveal_strlit("nanos");
    reveal_strlit("nsec");
    reveal_strlit("ns");
    reveal_strlit("micros");
    reveal_strlit("usec");
    reveal_strlit("us");
    reveal_strlit("millis");
    reveal_strlit("msec");
    reveal_strlit("ms");
    reveal_strlit("seconds");
    reveal_strlit("second");
    reveal_strlit("secs");
    reveal_strlit("sec");
    reveal_strlit("s");
    reveal_strlit("minutes");
    reveal_strlit("minute");
    reveal_strlit("mins");
    reveal_strlit("min");
    reveal_strlit("m");
    reveal_strlit("hours");
    reveal_strlit("hour");
    reveal_strlit("hrs");
    reveal_strlit("hr");
    reveal_strlit("h");
    reveal_strlit("H");
    assert(!match_at(s, p, "months"@)) by {
        if match_at(s, p, "months"@) {
            assert(s.subrange(p, p + 6)[0] == s[p + 0]);
            assert(s.subrange(p, p + 5)[0] == s[p + 0]);
            assert(false);
        }
    };
    assert(!match_at(s, p, "month"@)) by {
        if match_at(s, p, "month"@) {
            assert(s.subrange(p, p + 5)[0] == s[p + 0]);
            assert(s.subrange(p, p + 5)[0] == s[p + 0]);
            assert(false);
        }
    };
    assert(!match_at(s, p, "mths"@)) by {
        if match_at(s, p, "mths"@) {
            assert(s.subrange(p, p + 4)[0] == s[p + 0]);
            assert(s.subrange(p, p + 5)[0] == s[p + 0]);
            assert(false);
        }
    };
    assert(!match_at(s, p, "mth"@)) by {
        if match_at(s, p, "mth"@) {
            assert(s.subrange(p, p + 3)[0] == s[p + 0]);
            assert(s.subrange(p, p + 5)[0] == s[p + 0]);
            assert(false);
        }
    };
    assert(!match_at(s, p, "M"@)) by {
        if match_at(s, p, "M"@) {
            assert(s.subrange(p, p + 1)[0] == s[p + 0]);
            assert(s.subrange(p, p + 5)[0] == s[p + 0]);
            assert(false);
        }
    };
    assert(!match_at(s, p, "days"@)) by {
        if match_at(s, p, "days"@) {
            assert(s.subrange(p, p + 4)[0] == s[p + 0]);
            assert(s.subrange(p, p + 5)[0] == s[p + 0]);
            assert(false);
        }
    };
    assert(!match_at(s, p, "day"@)) by {
        if match_at(s, p, "day"@) {
            assert(s.subrange(p, p + 3)[0] == s[p + 0]);
            assert(s.subrange(p, p + 5)[0] == s[p + 0]);
            assert(false);
        }
    };
    assert(!match_at(s, p, "dys"@)) by {
        if match_at(s, p, "dys"@) {
            assert(s.subrange(p, p + 3)[0] == s[p + 0]);
            assert(s.subrange(p, p + 5)[0] == s[p + 0]);
            assert(false);
        }
    };
    assert(!match_at(s, p, "dy"@)) by {
        if match_at(s, p, "dy"@) {
            assert(s.subrange(p, p + 2)[0] == s[p + 0]);
            assert(s.subrange(p, p + 5)[0] == s[p + 0]);
            assert(false);
        }
    };
    assert(!match_at(s, p, "d"@)) by {
        if match_at(s, p, "d"@) {
            assert(s.subrange(p, p + 1)[0] == s[p + 0]);
            assert(s.subrange(p, p + 5)[0] == s[p + 0]);
            assert(false);
        }
    };
    assert(!match_at(s, p, "D"@)) by {
        if match_at(s, p, "D"@) {
            assert(s.subrange(p, p + 1)[0] == s[p + 0]);
            assert(s.subrange(p, p + 5)[0] == s[p + 0]);
            assert(false);
        }
    };
    assert(!match_at(s, p, "weeks"@)) by {
        if match_at(s, p, "weeks"@) {
            assert(s.subrange(p, p + 5)[0] == s[p + 0]);
            assert(s.subrange(p, p + 5)[0] == s[p + 0]);
            assert(false);
        }
    };
    assert(!match_at(s, p, "week"@)) by {
        if match_at(s, p, "week"@) {
            assert(s.subrange(p, p + 4)[0] == s[p + 0]);
            assert(s.subrange(p, p + 5)[0] == s[p + 0]);
            assert(false);
        }
    };
    assert(!match_at(s, p, "wks"@)) by {
        if match_at(s, p, "wks"@) {
            assert(s.subrange(p, p + 3)[0] == s[p + 0]);
            assert(s.subrange(p, p + 5)[0] == s[p + 0]);
            assert(false);
        }
    };
    assert(!match_at(s, p, "wk"@)) by {
        if match_at(s, p, "wk"@) {
            assert(s.subrange(p, p + 2)[0] == s[p + 0]);
            assert(s.subrange(p, p + 5)[0] == s[p + 0]);
            assert(false);
        }
    };
    assert(!match_at(s, p, "w"@)) by {
        if match_at(s, p, "w"@) {
            assert(s.subrange(p, p + 1)[0] == s[p + 0]);
            assert(s.subrange(p, p + 5)[0] == s[p + 0]);
            assert(false);
        }
    };
    assert(!match_at(s, p, "W"@)) by {
        if match_at(s, p, "W"@) {
            assert(s.subrange(p, p + 1)[0] == s[p + 0]);
            assert(s.subrange(p, p + 5)[0] == s[p + 0]);
            assert(false);
        }
    };
    assert(match_at(s, p, "years"@));
}

/// With `year` at `p` and the word `and` right after it, the resolver
/// yields `Years`.
proof fn lemma_preand_years_year(s: Seq<char>, p: int)
    requires
        0 <= p,
        p + 7 <= s.len(),
        s.subrange(p, p + 4) == "year"@,
        s[p + 4] == 'a',
        s[p + 5] == 'n',
        s[p + 6] == 'd',
    ensures
        resolve_unit(s, p) == Some((Unit::Years, p + 4)),
{
    reveal_strlit("months");
    reveal_strlit("month");
    reveal_strlit("mths");
    reveal_strlit("mth");
    reveal_strlit("M");
    reveal_strlit("days");
    reveal_strlit("day");
    reveal_strlit("dys");
    reveal_strlit("dy");
    reveal_strlit("d");
    reveal_strlit("D");
    reveal_strlit("weeks");
    reveal_strlit("week");
    reveal_strlit("wks");
    reveal_strlit("wk");
    reveal_strlit("w");
    reveal_strlit("W");
    reveal_strlit("years");
    reveal_strlit("year");
    reveal_strlit("yrs");
    reveal_strlit("yr");
    reveal_strlit("y");
    reveal_strlit("Y");
    reveal_strlit("nanos");
    reveal_strlit("nsec");
    reveal_strlit("ns");
    reveal_strlit("micros");
    reveal_strlit("usec");
    reveal_strlit("us");
    reveal_strlit("millis");
    reveal_strlit("msec");
    reveal_strlit("ms");
    reveal_strlit("seconds");
    reveal_strlit("second");
    reveal_strlit("secs");
    reveal_strlit("sec");
    reveal_strlit("s");
    reveal_strlit("minutes");
    reveal_strlit("minute");
    reveal_strlit("mins");
    reveal_strlit("min");
    reveal_strlit("m");
    reveal_strlit("hours");
    reveal_strlit("hour");
    reveal_strlit("hrs");
    reveal_strlit("hr");
    reveal_strlit("h");
    reveal_strlit("H");
    assert(!match_at(s, p, "months"@)) by {
        if match_at(s, p, "months"@) {
            assert(s.subrange(p, p + 6)[0] == s[p + 0]);
            assert(s.subrange(p, p + 4)[0] == s[p + 0]);
            assert(false);
        }
    };
    assert(!match_at(s, p, "month"@)) by {
        if match_at(s, p, "month"@) {
            assert(s.subrange(p, p + 5)[0] == s[p + 0]);
            assert(s.subrange(p, p + 4)[0] == s[p + 0]);
            assert(false);
        }
    };
    assert(!match_at(s, p, "mths"@)) by {
        if match_at(s, p, "mths"@) {
            assert(s.subrange(p, p + 4)[0] == s[p + 0]);
            assert(s.subrange(p, p + 4)[0] == s[p + 0]);
            assert(false);
        }
    };
    assert(!match_at(s, p, "mth"@)) by {
        if match_at(s, p, "mth"@) {
            assert(s.subrange(p, p + 3)[0] == s[p + 0]);
            assert(s.subrange(p, p + 4)[0] == s[p + 0]);
            assert(false);
        }
    };
    assert(!match_at(s, p, "M"@)) by {
        if match_at(s, p, "M"@) {
            assert(s.subrange(p, p + 1)[0] == s[p + 0]);
            assert(s.subrange(p, p + 4)[0] == s[p + 0]);
            assert(false);
        }
    };
    assert(!match_at(s, p, "days"@)) by {
        if match_at(s, p, "days"@) {
            assert(s.subrange(p, p + 4)[0] == s[p + 0]);
            assert(s.subrange(p, p + 4)[0] == s[p + 0]);
            assert(false);
        }
    };
    assert(!match_at(s, p, "day"@)) by {
        if match_at(s, p, "day"@) {
            assert(s.subrange(p, p + 3)[0] == s[p + 0]);
            assert(s.subrange(p, p + 4)[0] == s[p + 0]);
            assert(false);
        }
    };
    assert(!match_at(s, p, "dys"@)) by {
        if match_at(s, p, "dys"@) {
            assert(s.subrange(p, p + 3)[0] == s[p + 0]);
            assert(s.subrange(p, p + 4)[0] == s[p + 0]);
            assert(false);
        }
    };
    assert(!match_at(s, p, "dy"@)) by {
        if match_at(s, p, "dy"@) {
            assert(s.subrange(p, p + 2)[0] == s[p + 0]);
            assert(s.subrange(p, p + 4)[0] == s[p + 0]);
            assert(false);
        }
    };
    assert(!match_at(s, p, "d"@)) by {
        if match_at(s, p, "d"@) {
            assert(s.subrange(p, p + 1)[0] == s[p + 0]);
            assert(s.subrange(p, p + 4)[0] == s[p + 0]);
            assert(false);
        }
    };
    assert(!match_at(s, p, "D"@)) by {
        if match_at(s, p, "D"@) {
            assert(s.subrange(p, p + 1)[0] == s[p + 0]);
            assert(s.subrange(p, p + 4)[0] == s[p + 0]);
            assert(false);
        }
    };
    assert(!match_at(s, p, "weeks"@)) by {
        if match_at(s, p, "weeks"@) {
            assert(s.subrange(p, p + 5)[0] == s[p + 0]);
            assert(s.subrange(p, p + 4)[0] == s[p + 0]);
            assert(false);
        }
    };
    assert(!match_at(s, p, "week"@)) by {
        if match_at(s, p, "week"@) {
            assert(s.subrange(p, p + 4)[0] == s[p + 0]);
            assert(s.subrange(p, p + 4)[0] == s[p + 0]);
            assert(false);
        }
    };
    assert(!match_at(s, p, "wks"@)) by {
        if match_at(s, p, "wks"@) {
            assert(s.subrange(p, p + 3)[0] == s[p + 0]);
            assert(s.subrange(p, p + 4)[0] == s[p + 0]);
            assert(false);
        }
    };
    assert(!match_at(s, p, "wk"@)) by {
        if match_at(s, p, "wk"@) {
            assert(s.subrange(p, p + 2)[0] == s[p + 0]);
            assert(s.subrange(p, p + 4)[0] == s[p + 0]);
            assert(false);
        }
    };
    assert(!match_at(s, p, "w"@)) by {
        if match_at(s, p, "w"@) {
            assert(s.subrange(p, p + 1)[0] == s[p + 0]);
            assert(s.subrange(p, p + 4)[0] == s[p + 0]);
            assert(false);
        }
    };
    assert(!match_at(s, p, "W"@)) by {
        if match_at(s, p, "W"@) {
            assert(s.subrange(p, p + 1)[0] == s[p + 0]);
            assert(s.subrange(p, p + 4)[0] == s[p + 0]);
            assert(false);
        }
    };
    assert(!match_at(s, p, "years"@)) by {
        if match_at(s, p, "years"@) {
            assert(s.subrange(p, p + 5)[4] == s[p + 4]);
            assert(false);
        }
    };
    assert(match_at(s, p, "year"@));
}

/// With `yrs` at `p` and the word `and` right after it, the resolver
/// yields `Years`.
proof fn lemma_preand_years_yrs(s: Seq<char>, p: int)
    requires
        0 <= p,
        p + 6 <= s.len(),
        s.subrange(p, p + 3) == "yrs"@,
        s[p + 3] == 'a',
        s[p + 4] == 'n',
        s[p + 5] == 'd',
    ensures
        resolve_unit(s, p) == Some((Unit::Years, p + 3)),
{
    reveal_strlit("months");
    reveal_strlit("month");
    reveal_strlit("mths");
    reveal_strlit("mth");
    reveal_strlit("M");
    reveal_strlit("days");
    reveal_strlit("day");
    reveal_strlit("dys");
    reveal_strlit("dy");
    reveal_strlit("d");
    reveal_strlit("D");
    reveal_strlit("weeks");
    reveal_strlit("week");
    reveal_strlit("wks");
    reveal_strlit("wk");
    reveal_strlit("w");
    reveal_strlit("W");
    reveal_strlit("years");
    reveal_strlit("year");
    reveal_strlit("yrs");
    reveal_strlit("yr");
    reveal_strlit("y");
    reveal_strlit("Y");
    reveal_strlit("nanos");
    reveal_strlit("nsec");
    reveal_strlit("ns");
    reveal_strlit("micros");
    reveal_strlit("usec");
    reveal_strlit("us");
    reveal_strlit("millis");
    reveal_strlit("msec");
    reveal_strlit("ms");
    reveal_strlit("seconds");
    reveal_strlit("second");
    reveal_strlit("secs");
    reveal_strlit("sec");
    reveal_strlit("s");
    reveal_strlit("minutes");
    reveal_strlit("minute");
    reveal_strlit("mins");
    reveal_strlit("min");
    reveal_strlit("m");
    reveal_strlit("hours");
    reveal_strlit("hour");
    reveal_strlit("hrs");
    reveal_strlit("hr");
    reveal_strlit("h");
    reveal_strlit("H");
    assert(!match_at(s, p, "months"@)) by {
        if match_at(s, p, "months"@) {
            assert(s.subrange(p, p + 6)[0] == s[p + 0]);
            assert(s.subrange(p, p + 3)[0] == s[p + 0]);
            assert(false);
        }
    };
    assert(!match_at(s, p, "month"@)) by {
        if match_at(s, p, "month"@) {
            assert(s.subrange(p, p + 5)[0] == s[p + 0]);
            assert(s.subrange(p, p + 3)[0] == s[p + 0]);
            assert(false);
        }
    };
    assert(!match_at(s, p, "mths"@)) by {
        if match_at(s, p, "mths"@) {
            assert(s.subrange(p, p + 4)[0] == s[p + 0]);
            assert(s.subrange(p, p + 3)[0] == s[p + 0]);
            assert(false);
        }
    };
    assert(!match_at(s, p, "mth"@)) by {
        if match_at(s, p, "mth"@) {
            assert(s.subrange(p, p + 3)[0] == s[p + 0]);
            assert(s.subrange(p, p + 3)[0] == s[p + 0]);
            assert(false);
        }
    };
    assert(!match_at(s, p, "M"@)) by {
        if match_at(s, p, "M"@) {
            assert(s.subrange(p, p + 1)[0] == s[p + 0]);
            assert(s.subrange(p, p + 3)[0] == s[p + 0]);
            assert(false);
        }
    };
    assert(!match_at(s, p, "days"@)) by {
        if match_at(s, p, "days"@) {
            assert(s.subrange(p, p + 4)[0] == s[p + 0]);
            assert(s.subrange(p, p + 3)[0] == s[p + 0]);
            assert(false);
        }
    };
    assert(!match_at(s, p, "day"@)) by {
        if match_at(s, p, "day"@) {
            assert(s.subrange(p, p + 3)[0] == s[p + 0]);
            assert(s.subrange(p, p + 3)[0] == s[p + 0]);
            assert(false);
        }
    };
    assert(!match_at(s, p, "dys"@)) by {
        if match_at(s, p, "dys"@) {
            assert(s.subrange(p, p + 3)[0] == s[p + 0]);
            assert(s.subrange(p, p + 3)[0] == s[p + 0]);
            assert(false);
        }
    };
    assert(!match_at(s, p, "dy"@)) by {
        if match_at(s, p, "dy"@) {
            assert(s.subrange(p, p + 2)[0] == s[p + 0]);
            assert(s.subrange(p, p + 3)[0] == s[p + 0]);
            assert(false);
        }
    };
    assert(!match_at(s, p, "d"@)) by {
        if match_at(s, p, "d"@) {
            assert(s.subrange(p, p + 1)[0] == s[p + 0]);
            assert(s.subrange(p, p + 3)[0] == s[p + 0]);
            assert(false);
        }
    };
    assert(!match_at(s, p, "D"@)) by {
        if match_at(s, p, "D"@) {
            assert(s.subrange(p, p + 1)[0] == s[p + 0]);
            assert(s.subrange(p, p + 3)[0] == s[p + 0]);
            assert(false);
        }
    };
    assert(!match_at(s, p, "weeks"@)) by {
        if match_at(s, p, "weeks"@) {
            assert(s.subrange(p, p + 5)[0] == s[p + 0]);
            assert(s.subrange(p, p + 3)[0] == s[p + 0]);
            assert(false);
        }
    };
    assert(!match_at(s, p, "week"@)) by {
        if match_at(s, p, "week"@) {
            assert(s.subrange(p, p + 4)[0] == s[p + 0]);
            assert(s.subrange(p, p + 3)[0] == s[p + 0]);
            assert(false);
        }
    };
    assert(!match_at(s, p, "wks"@)) by {
        if match_at(s, p, "wks"@) {
            assert(s.subrange(p, p + 3)[0] == s[p + 0]);
            assert(s.subrange(p, p + 3)[0] == s[p + 0]);
            assert(false);
        }
    };
    assert(!match_at(s, p, "wk"@)) by {
        if match_at(s, p, "wk"@) {
            assert(s.subrange(p, p + 2)[0] == s[p + 0]);
            assert(s.subrange(p, p + 3)[0] == s[p + 0]);
            assert(false);
        }
    };
    assert(!match_at(s, p, "w"@)) by {
        if match_at(s, p, "w"@) {
            assert(s.subrange(p, p + 1)[0] == s[p + 0]);
            assert(s.subrange(p, p + 3)[0] == s[p + 0]);
            assert(false);
        }
    };
    assert(!match_at(s, p, "W"@)) by {
        if match_at(s, p, "W"@) {
            assert(s.subrange(p, p + 1)[0] == s[p + 0]);
            assert(s.subrange(p, p + 3)[0] == s[p + 0]);
            assert(false);
        }
    };
    assert(!match_at(s, p, "years"@)) by {
        if match_at(s, p, "years"@) {
            assert(s.subrange(p, p + 5)[1] == s[p + 1]);
            assert(s.subrange(p, p + 3)[1] == s[p + 1]);
            assert(false);
        }
    };
    assert(!match_at(s, p, "year"@)) by {
        if match_at(s, p, "year"@) {
            assert(s.subrange(p, p + 4)[1] == s[p + 1]);
            assert(s.subrange(p, p + 3)[1] == s[p + 1]);
            assert(false);
        }
    };
    assert(match_at(s, p, "yrs"@));
}

/// With `yr` at `p` and the word `and` right after it, the resolver
/// yields `Years`.
proof fn lemma_preand_years_yr(s: Seq<char>, p: int)
    requires
        0 <= p,
        p + 5 <= s.len(),
        s.subrange(p, p + 2) == "yr"@,
        s[p + 2] == 'a',
        s[p + 3] == 'n',
        s[p + 4] == 'd',
    ensures
        resolve_unit(s, p) == Some((Unit::Years, p + 2)),
{
    reveal_strlit("months");
    reveal_strlit("month");
    reveal_strlit("mths");
    reveal_strlit("mth");
    reveal_strlit("M");
    reveal_strlit("days");
    reveal_strlit("day");
    reveal_strlit("dys");
    reveal_strlit("dy");
    reveal_strlit("d");
    reveal_strlit("D");
    reveal_strlit("weeks");
    reveal_strlit("week");
    reveal_strlit("wks");
    reveal_strlit("wk");
    reveal_strlit("w");
    reveal_strlit("W");
    reveal_strlit("years");
    reveal_strlit("year");
    reveal_strlit("yrs");
    reveal_strlit("yr");
    reveal_strlit("y");
    reveal_strlit("Y");
    reveal_strlit("nanos");
    reveal_strlit("nsec");
    reveal_strlit("ns");
    reveal_strlit("micros");
    reveal_strlit("usec");
    reveal_strlit("us");
    reveal_strlit("millis");
    reveal_strlit("msec");
    reveal_strlit("ms");
    reveal_strlit("seconds");
    reveal_strlit("second");
    reveal_strlit("secs");
    reveal_strlit("sec");
    reveal_strlit("s");
    reveal_strlit("minutes");
    reveal_strlit("minute");
    reveal_strlit("mins");
    reveal_strlit("min");
    reveal_strlit("m");
    reveal_strlit("hours");
    reveal_strlit("hour");
    reveal_strlit("hrs");
    reveal_strlit("hr");
    reveal_strlit("h");
    reveal_strlit("H");
    assert(!match_at(s, p, "months"@)) by {
        if match_at(s, p, "months"@) {
            assert(s.subrange(p, p + 6)[0] == s[p + 0]);
            assert(s.subrange(p, p + 2)[0] == s[p + 0]);
            assert(false);
        }
    };
    assert(!match_at(s, p, "month"@)) by {
        if match_at(s, p, "month"@) {
            assert(s.subrange(p, p + 5)[0] == s[p + 0]);
            assert(s.subrange(p, p + 2)[0] == s[p + 0]);
            assert(false);
        }
    };
    assert(!match_at(s, p, "mths"@)) by {
        if match_at(s, p, "mths"@) {
            assert(s.subrange(p, p + 4)[0] == s[p + 0]);
            assert(s.subrange(p, p + 2)[0] == s[p + 0]);
            assert(false);
        }
    };
    assert(!match_at(s, p, "mth"@)) by {
        if match_at(s, p, "mth"@) {
            assert(s.subrange(p, p + 3)[0] == s[p + 0]);
            assert(s.subrange(p, p + 2)[0] == s[p + 0]);
            assert(false);
        }
    };
    assert(!match_at(s, p, "M"@)) by {
        if match_at(s, p, "M"@) {
            assert(s.subrange(p, p + 1)[0] == s[p + 0]);
            assert(s.subrange(p, p + 2)[0] == s[p + 0]);
            assert(false);
        }
    };
    assert(!match_at(s, p, "days"@)) by {
        if match_at(s, p, "days"@) {
            assert(s.subrange(p, p + 4)[0] == s[p + 0]);
            assert(s.subrange(p, p + 2)[0] == s[p + 0]);
            assert(false);
        }
    };
    assert(!match_at(s, p, "day"@)) by {
        if match_at(s, p, "day"@) {
            assert(s.subrange(p, p + 3)[0] == s[p + 0]);
            assert(s.subrange(p, p + 2)[0] == s[p + 0]);
            assert(false);
        }
    };
    assert(!match_at(s, p, "dys"@)) by {
        if match_at(s, p, "dys"@) {
            assert(s.subrange(p, p + 3)[0] == s[p + 0]);
            assert(s.subrange(p, p + 2)[0] == s[p + 0]);
            assert(false);
        }
    };
    assert(!match_at(s, p, "dy"@)) by {
        if match_at(s, p, "dy"@) {
            assert(s.subrange(p, p + 2)[0] == s[p + 0]);
            assert(s.subrange(p, p + 2)[0] == s[p + 0]);
            assert(false);
        }
    };
    assert(!match_at(s, p, "d"@)) by {
        if match_at(s, p, "d"@) {
            assert(s.subrange(p, p + 1)[0] == s[p + 0]);
            assert(s.subrange(p, p + 2)[0] == s[p + 0]);
            assert(false);
        }
    };
    assert(!match_at(s, p, "D"@)) by {
        if match_at(s, p, "D"@) {
            assert(s.subrange(p, p + 1)[0] == s[p + 0]);
            assert(s.subrange(p, p + 2)[0] == s[p + 0]);
            assert(false);
        }
    };
    assert(!match_at(s, p, "weeks"@)) by {
        if match_at(s, p, "weeks"@) {
            assert(s.subrange(p, p + 5)[0] == s[p + 0]);
            assert(s.subrange(p, p + 2)[0] == s[p + 0]);
            assert(false);
        }
    };
    assert(!match_at(s, p, "week"@)) by {
        if match_at(s, p, "week"@) {
            assert(s.subrange(p, p + 4)[0] == s[p + 0]);
            assert(s.subrange(p, p + 2)[0] == s[p + 0]);
            assert(false);
        }
    };
    assert(!match_at(s, p, "wks"@)) by {
        if match_at(s, p, "wks"@) {
            assert(s.subrange(p, p + 3)[0] == s[p + 0]);
            assert(s.subrange(p, p + 2)[0] == s[p + 0]);
            assert(false);
        }
    };
    assert(!match_at(s, p, "wk"@)) by {
        if match_at(s, p, "wk"@) {
            assert(s.subrange(p, p + 2)[0] == s[p + 0]);
            assert(s.subrange(p, p + 2)[0] == s[p + 0]);
            assert(false);
        }
    };
    assert(!match_at(s, p, "w"@)) by {
        if match_at(s, p, "w"@) {
            assert(s.subrange(p, p + 1)[0] == s[p + 0]);
            assert(s.subrange(p, p + 2)[0] == s[p + 0]);
            assert(false);
        }
    };
    assert(!match_at(s, p, "W"@)) by {
        if match_at(s, p, "W"@) {
            assert(s.subrange(p, p + 1)[0] == s[p + 0]);
            assert(s.subrange(p, p + 2)[0] == s[p + 0]);
            assert(false);
        }
    };
    assert(!match_at(s, p, "years"@)) by {
        if match_at(s, p, "years"@) {
            assert(s.subrange(p, p + 5)[1] == s[p + 1]);
            assert(s.subrange(p, p + 2)[1] == s[p + 1]);
            assert(false);
        }
    };
    assert(!match_at(s, p, "year"@)) by {
        if match_at(s, p, "year"@) {
            assert(s.subrange(p, p + 4)[1] == s[p + 1]);
            assert(s.subrange(p, p + 2)[1] == s[p + 1]);
            assert(false);
        }
    };
    assert(!match_at(s, p, "yrs"@)) by {
        if match_at(s, p, "yrs"@) {
            assert(s.subrange(p, p + 3)[2] == s[p + 2]);
            assert(false);
        }
    };
    assert(match_at(s, p, "yr"@));
}

/// With `y` at `p` and the word `and` right after it, the resolver
/// yields `Years`.
proof fn lemma_preand_years_y(s: Seq<char>, p: int)
    requires
        0 <= p,
        p + 4 <= s.len(),
        s.subrange(p, p + 1) == "y"@,
        s[p + 1] == 'a',
        s[p + 2] == 'n',
        s[p + 3] == 'd',
    ensures
        resolve_unit(s, p) == Some((Unit::Years, p + 1)),
{
    reveal_strlit("months");
    reveal_strlit("month");
    reveal_strlit("mths");
    reveal_strlit("mth");
    reveal_strlit("M");
    reveal_strlit("days");
    reveal_strlit("day");
    reveal_strlit("dys");
    reveal_strlit("dy");
    reveal_strlit("d");
    reveal_strlit("D");
    reveal_strlit("weeks");
    reveal_strlit("week");
    reveal_strlit("wks");
    reveal_strlit("wk");
    reveal_strlit("w");
    reveal_strlit("W");
    reveal_strlit("years");
    reveal_strlit("year");
    reveal_strlit("yrs");
    reveal_strlit("yr");
    reveal_strlit("y");
    reveal_strlit("Y");
    reveal_strlit("nanos");
    reveal_strlit("nsec");
    reveal_strlit("ns");
    reveal_strlit("micros");
    reveal_strlit("usec");
    reveal_strlit("us");
    reveal_strlit("millis");
    reveal_strlit("msec");
    reveal_strlit("ms");
    reveal_strlit("seconds");
    reveal_strlit("second");
    reveal_strlit("secs");
    reveal_strlit("sec");
    reveal_strlit("s");
    reveal_strlit("minutes");
    reveal_strlit("minute");
    reveal_strlit("mins");
    reveal_strlit("min");
    reveal_strlit("m");
    reveal_strlit("hours");
    reveal_strlit("hour");
    reveal_strlit("hrs");
    reveal_strlit("hr");
    reveal_strlit("h");
    reveal_strlit("H");
    assert(!match_at(s, p, "months"@)) by {
        if match_at(s, p, "months"@) {
            assert(s.subrange(p, p + 6)[0] == s[p + 0]);
            assert(s.subrange(p, p + 1)[0] == s[p + 0]);
            assert(false);
        }
    };
    assert(!match_at(s, p, "month"@)) by {
        if match_at(s, p, "month"@) {
            assert(s.subrange(p, p + 5)[0] == s[p + 0]);
            assert(s.subrange(p, p + 1)[0] == s[p + 0]);
            assert(false);
        }
    };
    assert(!match_at(s, p, "mths"@)) by {
        if match_at(s, p, "mths"@) {
            assert(s.subrange(p, p + 4)[0] == s[p + 0]);
            assert(s.subrange(p, p + 1)[0] == s[p + 0]);
            assert(false);
        }
    };
    assert(!match_at(s, p, "mth"@)) by {
        if match_at(s, p, "mth"@) {
            assert(s.subrange(p, p + 3)[0] == s[p + 0]);
            assert(s.subrange(p, p + 1)[0] == s[p + 0]);
            assert(false);
        }
    };
    assert(!match_at(s, p, "M"@)) by {
        if match_at(s, p, "M"@) {
            assert(s.subrange(p, p + 1)[0] == s[p + 0]);
            assert(s.subrange(p, p + 1)[0] == s[p + 0]);
            assert(false);
        }
    };
    assert(!match_at(s, p, "days"@)) by {
        if match_at(s, p, "days"@) {
            assert(s.subrange(p, p + 4)[0] == s[p + 0]);
            assert(s.subrange(p, p + 1)[0] == s[p + 0]);
            assert(false);
        }
    };
    assert(!match_at(s, p, "day"@)) by {
        if match_at(s, p, "day"@) {
            assert(s.subrange(p, p + 3)[0] == s[p + 0]);
            assert(s.subrange(p, p + 1)[0] == s[p + 0]);
            assert(false);
        }
    };
    assert(!match_at(s, p, "dys"@)) by {
        if match_at(s, p, "dys"@) {
            assert(s.subrange(p, p + 3)[0] == s[p + 0]);
            assert(s.subrange(p, p + 1)[0] == s[p + 0]);
            assert(false);
        }
    };
    assert(!match_at(s, p, "dy"@)) by {
        if match_at(s, p, "dy"@) {
            assert(s.subrange(p, p + 2)[0] == s[p + 0]);
            assert(s.subrange(p, p + 1)[0] == s[p + 0]);
            assert(false);
        }
    };
    assert(!match_at(s, p, "d"@)) by {
        if match_at(s, p, "d"@) {
            assert(s.subrange(p, p + 1)[0] == s[p + 0]);
            assert(s.subrange(p, p + 1)[0] == s[p + 0]);
            assert(false);
        }
    };
    assert(!match_at(s, p, "D"@)) by {
        if match_at(s, p, "D"@) {
            assert(s.subrange(p, p + 1)[0] == s[p + 0]);
            assert(s.subrange(p, p + 1)[0] == s[p + 0]);
            assert(false);
        }
    };
    assert(!match_at(s, p, "weeks"@)) by {
        if match_at(s, p, "weeks"@) {
            assert(s.subrange(p, p + 5)[0] == s[p + 0]);
            assert(s.subrange(p, p + 1)[0] == s[p + 0]);
            assert(false);
        }
    };
    assert(!match_at(s, p, "week"@)) by {
        if match_at(s, p, "week"@) {
            assert(s.subrange(p, p + 4)[0] == s[p + 0]);
            assert(s.subrange(p, p + 1)[0] == s[p + 0]);
            assert(false);
        }
    };
    assert(!match_at(s, p, "wks"@)) by {
        if match_at(s, p, "wks"@) {
            assert(s.subrange(p, p + 3)[0] == s[p + 0]);
            assert(s.subrange(p, p + 1)[0] == s[p + 0]);
            assert(false);
        }
    };
    assert(!match_at(s, p, "wk"@)) by {
        if match_at(s, p, "wk"@) {
            assert(s.subrange(p, p + 2)[0] == s[p + 0]);
            assert(s.subrange(p, p + 1)[0] == s[p + 0]);
            assert(false);
        }
    };
    assert(!match_at(s, p, "w"@)) by {
        if match_at(s, p, "w"@) {
            assert(s.subrange(p, p + 1)[0] == s[p + 0]);
            assert(s.subrange(p, p + 1)[0] == s[p + 0]);
            assert(false);
        }
    };
    assert(!match_at(s, p, "W"@)) by {
        if match_at(s, p, "W"@) {
            assert(s.subrange(p, p + 1)[0] == s[p + 0]);
            assert(s.subrange(p, p + 1)[0] == s[p + 0]);
            assert(false);
        }
    };
    assert(!match_at(s, p, "years"@)) by {
        if match_at(s, p, "years"@) {
            assert(s.subrange(p, p + 5)[1] == s[p + 1]);
            assert(false);
        }
    };
    assert(!match_at(s, p, "year"@)) by {
        if match_at(s, p, "year"@) {
            assert(s.subrange(p, p + 4)[1] == s[p + 1]);
            assert(false);
        }
    };
    assert(!match_at(s, p, "yrs"@)) by {
        if match_at(s, p, "yrs"@) {
            assert(s.subrange(p, p + 3)[1] == s[p + 1]);
            assert(false);
        }
    };
    assert(!match_at(s, p, "yr"@)) by {
        if match_at(s, p, "yr"@) {
            assert(s.subrange(p, p + 2)[1] == s[p + 1]);
            assert(false);
        }
    };
    assert(match_at(s, p, "y"@));
}

/// With `Y` at `p` and the word `and` right after it, the resolver
/// yields `Years`.
proof fn lemma_preand_years_cap_y(s: Seq<char>, p: int)
    requires
        0 <= p,
        p + 4 <= s.len(),
        s.subrange(p, p + 1) == "Y"@,
        s[p + 1] == 'a',
        s[p + 2] == 'n',
        s[p + 3] == 'd',
    ensures
        resolve_unit(s, p) == Some((Unit::Years, p + 1)),
{
    reveal_strlit("months");
    reveal_strlit("month");
    reveal_strlit("mths");
    reveal_strlit("mth");
    reveal_strlit("M");
    reveal_strlit("days");
    reveal_strlit("day");
    reveal_strlit("dys");
    reveal_strlit("dy");
    reveal_strlit("d");
    reveal_strlit("D");
    reveal_strlit("weeks");
    reveal_strlit("week");
    reveal_strlit("wks");
    reveal_strlit("wk");
    reveal_strlit("w");
    reveal_strlit("W");
    reveal_strlit("years");
    reveal_strlit("year");
    reveal_strlit("yrs");
    reveal_strlit("yr");
    reveal_strlit("y");
    reveal_strlit("Y");
    reveal_strlit("nanos");
    reveal_strlit("nsec");
    reveal_strlit("ns");
    reveal_strlit("micros");
    reveal_strlit("usec");
    reveal_strlit("us");
    reveal_strlit("millis");
    reveal_strlit("msec");
    reveal_strlit("ms");
    reveal_strlit("seconds");
    reveal_strlit("second");
    reveal_strlit("secs");
    reveal_strlit("sec");
    reveal_strlit("s");
    reveal_strlit("minutes");
    reveal_strlit("minute");
    reveal_strlit("mins");
    reveal_strlit("min");
    reveal_strlit("m");
    reveal_strlit("hours");
    reveal_strlit("hour");
    reveal_strlit("hrs");
    reveal_strlit("hr");
    reveal_strlit("h");
    reveal_strlit("H");
    assert(!match_at(s, p, "months"@)) by {
        if match_at(s, p, "months"@) {
            assert(s.subrange(p, p + 6)[0] == s[p + 0]);
            assert(s.subrange(p, p + 1)[0] == s[p + 0]);
            assert(false);
        }
    };
    assert(!match_at(s, p, "month"@)) by {
        if match_at(s, p, "month"@) {
            assert(s.subrange(p, p + 5)[0] == s[p + 0]);
            assert(s.subrange(p, p + 1)[0] == s[p + 0]);
            assert(false);
        }
    };
    assert(!match_at(s, p, "mths"@)) by {
        if match_at(s, p, "mths"@) {
            assert(s.subrange(p, p + 4)[0] == s[p + 0]);
            assert(s.subrange(p, p + 1)[0] == s[p + 0]);
            assert(false);
        }
    };
    assert(!match_at(s, p, "mth"@)) by {
        if match_at(s, p, "mth"@) {
            assert(s.subrange(p, p + 3)[0] == s[p + 0]);
            assert(s.subrange(p, p + 1)[0] == s[p + 0]);
            assert(false);
        }
    };
    assert(!match_at(s, p, "M"@)) by {
        if match_at(s, p, "M"@) {
            assert(s.subrange(p, p + 1)[0] == s[p + 0]);
            assert(s.subrange(p, p + 1)[0] == s[p + 0]);
            assert(false);
        }
    };
    assert(!match_at(s, p, "days"@)) by {
        if match_at(s, p, "days"@) {
            assert(s.subrange(p, p + 4)[0] == s[p + 0]);
            assert(s.subrange(p, p + 1)[0] == s[p + 0]);
            assert(false);
        }
    };
    assert(!match_at(s, p, "day"@)) by {
        if match_at(s, p, "day"@) {
            assert(s.subrange(p, p + 3)[0] == s[p + 0]);
            assert(s.subrange(p, p + 1)[0] == s[p + 0]);
            assert(false);
        }
    };
    assert(!match_at(s, p, "dys"@)) by {
        if match_at(s, p, "dys"@) {
            assert(s.subrange(p, p + 3)[0] == s[p + 0]);
            assert(s.subrange(p, p + 1)[0] == s[p + 0]);
            assert(false);
        }
    };
    assert(!match_at(s, p, "dy"@)) by {
        if match_at(s, p, "dy"@) {
            assert(s.subrange(p, p + 2)[0] == s[p + 0]);
            assert(s.subrange(p, p + 1)[0] == s[p + 0]);
            assert(false);
        }
    };
    assert(!match_at(s, p, "d"@)) by {
        if match_at(s, p, "d"@) {
            assert(s.subrange(p, p + 1)[0] == s[p + 0]);
            assert(s.subrange(p, p + 1)[0] == s[p + 0]);
            assert(false);
        }
    };
    assert(!match_at(s, p, "D"@)) by {
        if match_at(s, p, "D"@) {
            assert(s.subrange(p, p + 1)[0] == s[p + 0]);
            assert(s.subrange(p, p + 1)[0] == s[p + 0]);
            assert(false);
        }
    };
    assert(!match_at(s, p, "weeks"@)) by {
        if match_at(s, p, "weeks"@) {
            assert(s.subrange(p, p + 5)[0] == s[p + 0]);
            assert(s.subrange(p, p + 1)[0] == s[p + 0]);
            assert(false);
        }
    };
    assert(!match_at(s, p, "week"@)) by {
        if match_at(s, p, "week"@) {
            assert(s.subrange(p, p + 4)[0] == s[p + 0]);
            assert(s.subrange(p, p + 1)[0] == s[p + 0]);
            assert(false);
        }
    };
    assert(!match_at(s, p, "wks"@)) by {
        if match_at(s, p, "wks"@) {
            assert(s.subrange(p, p + 3)[0] == s[p + 0]);
            assert(s.subrange(p, p + 1)[0] == s[p + 0]);
            assert(false);
        }
    };
    assert(!match_at(s, p, "wk"@)) by {
        if match_at(s, p, "wk"@) {
            assert(s.subrange(p, p + 2)[0] == s[p + 0]);
            assert(s.subrange(p, p + 1)[0] == s[p + 0]);
            assert(false);
        }
    };
    assert(!match_at(s, p, "w"@)) by {
        if match_at(s, p, "w"@) {
            assert(s.subrange(p, p + 1)[0] == s[p + 0]);
            assert(s.subrange(p, p + 1)[0] == s[p + 0]);
            assert(false);
        }
    };
    assert(!match_at(s, p, "W"@)) by {
        if match_at(s, p, "W"@) {
            assert(s.subrange(p, p + 1)[0] == s[p + 0]);
            assert(s.subrange(p, p + 1)[0] == s[p + 0]);
            assert(false);
        }
    };
    assert(!match_at(s, p, "years"@)) by {
        if match_at(s, p, "years"@) {
            assert(s.subrange(p, p + 5)[0] == s[p + 0]);
            assert(s.subrange(p, p + 1)[0] == s[p + 0]);
            assert(false);
        }
    };
    assert(!match_at(s, p, "year"@)) by {
        if match_at(s, p, "year"@) {
            assert(s.subrange(p, p + 4)[0] == s[p + 0]);
            assert(s.subrange(p, p + 1)[0] == s[p + 0]);
            assert(false);
        }
    };
    assert(!match_at(s, p, "yrs"@)) by {
        if match_at(s, p, "yrs"@) {
            assert(s.subrange(p, p + 3)[0] == s[p + 0]);
            assert(s.subrange(p, p + 1)[0] == s[p + 0]);
            assert(false);
        }
    };
    assert(!match_at(s, p, "yr"@)) by {
        if match_at(s, p, "yr"@) {
            assert(s.subrange(p, p + 2)[0] == s[p + 0]);
            assert(s.subrange(p, p + 1)[0] == s[p + 0]);
            assert(false);
        }
    };
    assert(!match_at(s, p, "y"@)) by {
        if match_at(s, p, "y"@) {
            assert(s.subrange(p, p + 1)[0] == s[p + 0]);
            assert(s.subrange(p, p + 1)[0] == s[p + 0]);
            assert(false);
        }
    };
    assert(match_at(s, p, "Y"@));
}

/// With `nanos` at `p` and the word `and` right after it, the resolver
/// yields `Nanos`.
proof fn lemma_preand_nanos_nanos(s: Seq<char>, p: int)
    requires
        0 <= p,
        p + 8 <= s.len(),
        s.subrange(p, p + 5) == "nanos"@,
        s[p + 5] == 'a',
        s[p + 6] == 'n',
        s[p + 7] == 'd',
    ensures
        resolve_unit(s, p) == Some((Unit::Nanos, p + 5)),
{
    reveal_strlit("months");
    reveal_strlit("month");
    reveal_strlit("mths");
    reveal_strlit("mth");
    reveal_strlit("M");
    reveal_strlit("days");
    reveal_strlit("day");
    reveal_strlit("dys");
    reveal_strlit("dy");
    reveal_strlit("d");
    reveal_strlit("D");
    reveal_strlit("weeks");
    reveal_strlit("week");
    reveal_strlit("wks");
    reveal_strlit("wk");
    reveal_strlit("w");
    reveal_strlit("W");
    reveal_strlit("years");
    reveal_strlit("year");
    reveal_strlit("yrs");
    reveal_strlit("yr");
    reveal_strlit("y");
    reveal_strlit("Y");
    reveal_strlit("nanos");
    reveal_strlit("nsec");
    reveal_strlit("ns");
    reveal_strlit("micros");
    reveal_strlit("usec");
    reveal_strlit("us");
    reveal_strlit("millis");
    reveal_strlit("msec");
    reveal_strlit("ms");
    reveal_strlit("seconds");
    reveal_strlit("second");
    reveal_strlit("secs");
    reveal_strlit("sec");
    reveal_strlit("s");
    reveal_strlit("minutes");
    reveal_strlit("minute");
    reveal_strlit("mins");
    reveal_strlit("min");
    reveal_strlit("m");
    reveal_strlit("hours");
    reveal_strlit("hour");
    reveal_strlit("hrs");
    reveal_strlit("hr");
    reveal_strlit("h");
    reveal_strlit("H");
    assert(!match_at(s, p, "months"@)) by {
        if match_at(s, p, "months"@) {
            assert(s.subrange(p, p + 6)[0] == s[p + 0]);
            assert(s.subrange(p, p + 5)[0] == s[p + 0]);
            assert(false);
        }
    };
    assert(!match_at(s, p, "month"@)) by {
        if match_at(s, p, "month"@) {
            assert(s.subrange(p, p + 5)[0] == s[p + 0]);
            assert(s.subrange(p, p + 5)[0] == s[p + 0]);
            assert(false);
        }
    };
    assert(!match_at(s, p, "mths"@)) by {
        if match_at(s, p, "mths"@) {
            assert(s.subrange(p, p + 4)[0] == s[p + 0]);
            assert(s.subrange(p, p + 5)[0] == s[p + 0]);
            assert(false);
        }
    };
    assert(!match_at(s, p, "mth"@)) by {
        if match_at(s, p, "mth"@) {
            assert(s.subrange(p, p + 3)[0] == s[p + 0]);
            assert(s.subrange(p, p + 5)[0] == s[p + 0]);
            assert(false);
        }
    };
    assert(!match_at(s, p, "M"@)) by {
        if match_at(s, p, "M"@) {
            assert(s.subrange(p, p + 1)[0] == s[p + 0]);
            assert(s.subrange(p, p + 5)[0] == s[p + 0]);
            assert(false);
        }
    };
    assert(!match_at(s, p, "days"@)) by {
        if match_at(s, p, "days"@) {
            assert(s.subrange(p, p + 4)[0] == s[p + 0]);
            assert(s.subrange(p, p + 5)[0] == s[p + 0]);
            assert(false);
        }
    };
    assert(!match_at(s, p, "day"@)) by {
        if match_at(s, p, "day"@) {
            assert(s.subrange(p, p + 3)[0] == s[p + 0]);
            assert(s.subrange(p, p + 5)[0] == s[p + 0]);
            assert(false);
        }
    };
    assert(!match_at(s, p, "dys"@)) by {
        if match_at(s, p, "dys"@) {
            assert(s.subrange(p, p + 3)[0] == s[p + 0]);
            assert(s.subrange(p, p + 5)[0] == s[p + 0]);
            assert(false);
        }
    };
    assert(!match_at(s, p, "dy"@)) by {
        if match_at(s, p, "dy"@) {
            assert(s.subrange(p, p + 2)[0] == s[p + 0]);
            assert(s.subrange(p, p + 5)[0] == s[p + 0]);
            assert(false);
        }
    };
    assert(!match_at(s, p, "d"@)) by {
        if match_at(s, p, "d"@) {
            assert(s.subrange(p, p + 1)[0] == s[p + 0]);
            assert(s.subrange(p, p + 5)[0] == s[p + 0]);
            assert(false);
        }
    };
    assert(!match_at(s, p, "D"@)) by {
        if match_at(s, p, "D"@) {
            assert(s.subrange(p, p + 1)[0] == s[p + 0]);
            assert(s.subrange(p, p + 5)[0] == s[p + 0]);
            assert(false);
        }
    };
    assert(!match_at(s, p, "weeks"@)) by {
        if match_at(s, p, "weeks"@) {
            assert(s.subrange(p, p + 5)[0] == s[p + 0]);
            assert(s.subrange(p, p + 5)[0] == s[p + 0]);
            assert(false);
        }
    };
    assert(!match_at(s, p, "week"@)) by {
        if match_at(s, p, "week"@) {
            assert(s.subrange(p, p + 4)[0] == s[p + 0]);
            assert(s.subrange(p, p + 5)[0] == s[p + 0]);
            assert(false);
        }
    };
    assert(!match_at(s, p, "wks"@)) by {
        if match_at(s, p, "wks"@) {
            assert(s.subrange(p, p + 3)[0] == s[p + 0]);
            assert(s.subrange(p, p + 5)[0] == s[p + 0]);
            assert(false);
        }
    };
    assert(!match_at(s, p, "wk"@)) by {
        if match_at(s, p, "wk"@) {
            assert(s.subrange(p, p + 2)[0] == s[p + 0]);
            assert(s.subrange(p, p + 5)[0] == s[p + 0]);
            assert(false);
        }
    };
    assert(!match_at(s, p, "w"@)) by {
        if match_at(s, p, "w"@) {
            assert(s.subrange(p, p + 1)[0] == s[p + 0]);
            assert(s.subrange(p, p + 5)[0] == s[p + 0]);
            assert(false);
        }
    };
    assert(!match_at(s, p, "W"@)) by {
        if match_at(s, p, "W"@) {
            assert(s.subrange(p, p + 1)[0] == s[p + 0]);
            assert(s.subrange(p, p + 5)[0] == s[p + 0]);
            assert(false);
        }
    };
    assert(!match_at(s, p, "years"@)) by {
        if match_at(s, p, "years"@) {
            assert(s.subrange(p, p + 5)[0] == s[p + 0]);
            assert(s.subrange(p, p + 5)[0] == s[p + 0]);
            assert(false);
        }
    };
    assert(!match_at(s, p, "year"@)) by {
        if match_at(s, p, "year"@) {
            assert(s.subrange(p, p + 4)[0] == s[p + 0]);
            assert(s.subrange(p, p + 5)[0] == s[p + 0]);
            assert(false);
        }
    };
    assert(!match_at(s, p, "yrs"@)) by {
        if match_at(s, p, "yrs"@) {
            assert(s.subrange(p, p + 3)[0] == s[p + 0]);
            assert(s.subrange(p, p + 5)[0] == s[p + 0]);
            assert(false);
        }
    };
    assert(!match_at(s, p, "yr"@)) by {
        if match_at(s, p, "yr"@) {
            assert(s.subrange(p, p + 2)[0] == s[p + 0]);
            assert(s.subrange(p, p + 5)[0] == s[p + 0]);
            assert(false);
        }
    };
    assert(!match_at(s, p, "y"@)) by {
        if match_at(s, p, "y"@) {
            assert(s.subrange(p, p + 1)[0] == s[p + 0]);
            assert(s.subrange(p, p + 5)[0] == s[p + 0]);
            assert(false);
        }
    };
    assert(!match_at(s, p, "Y"@)) by {
        if match_at(s, p, "Y"@) {
            assert(s.subrange(p, p + 1)[0] == s[p + 0]);
            assert(s.subrange(p, p + 5)[0] == s[p + 0]);
            assert(false);
        }
    };
    assert(match_at(s, p, "nanos"@));
}

/// With `nsec` at `p` and the word `and` right after it, the resolver
/// yields `Nanos`.
proof fn lemma_preand_nanos_nsec(s: Seq<char>, p: int)
    requires
        0 <= p,
        p + 7 <= s.len(),
        s.subrange(p, p + 4) == "nsec"@,
        s[p + 4] == 'a',
        s[p + 5] == 'n',
        s[p + 6] == 'd',
    ensures
        resolve_unit(s, p) == Some((Unit::Nanos, p + 4)),
{
    reveal_strlit("months");
    reveal_strlit("month");
    reveal_strlit("mths");
    reveal_strlit("mth");
    reveal_strlit("M");
    reveal_strlit("days");
    reveal_strlit("day");
    reveal_strlit("dys");
    reveal_strlit("dy");
    reveal_strlit("d");
    reveal_strlit("D");
    reveal_strlit("weeks");
    reveal_strlit("week");
    reveal_strlit("wks");
    reveal_strlit("wk");
    reveal_strlit("w");
    reveal_strlit("W");
    reveal_strlit("years");
    reveal_strlit("year");
    reveal_strlit("yrs");
    reveal_strlit("yr");
    reveal_strlit("y");
    reveal_strlit("Y");
    reveal_strlit("nanos");
    reveal_strlit("nsec");
    reveal_strlit("ns");
    reveal_strlit("micros");
    reveal_strlit("usec");
    reveal_strlit("us");
    reveal_strlit("millis");
    reveal_strlit("msec");
    reveal_strlit("ms");
    reveal_strlit("seconds");
    reveal_strlit("second");
    reveal_strlit("secs");
    reveal_strlit("sec");
    reveal_strlit("s");
    reveal_strlit("minutes");
    reveal_strlit("minute");
    reveal_strlit("mins");
    reveal_strlit("min");
    reveal_strlit("m");
    reveal_strlit("hours");
    reveal_strlit("hour");
    reveal_strlit("hrs");
    reveal_strlit("hr");
    reveal_strlit("h");
    reveal_strlit("H");
    assert(!match_at(s, p, "months"@)) by {
        if match_at(s, p, "months"@) {
            assert(s.subrange(p, p + 6)[0] == s[p + 0]);
            assert(s.subrange(p, p + 4)[0] == s[p + 0]);
            assert(false);
        }
    };
    assert(!match_at(s, p, "month"@)) by {
        if match_at(s, p, "month"@) {
            assert(s.subrange(p, p + 5)[0] == s[p + 0]);
            assert(s.subrange(p, p + 4)[0] == s[p + 0]);
            assert(false);
        }
    };
    assert(!match_at(s, p, "mths"@)) by {
        if match_at(s, p, "mths"@) {
            assert(s.subrange(p, p + 4)[0] == s[p + 0]);
            assert(s.subrange(p, p + 4)[0] == s[p + 0]);
            assert(false);
        }
    };
    assert(!match_at(s, p, "mth"@)) by {
        if match_at(s, p, "mth"@) {
            assert(s.subrange(p, p + 3)[0] == s[p + 0]);
            assert(s.subrange(p, p + 4)[0] == s[p + 0]);
            assert(false);
        }
    };
    assert(!match_at(s, p, "M"@)) by {
        if match_at(s, p, "M"@) {
            assert(s.subrange(p, p + 1)[0] == s[p + 0]);
            assert(s.subrange(p, p + 4)[0] == s[p + 0]);
            assert(false);
        }
    };
    assert(!match_at(s, p, "days"@)) by {
        if match_at(s, p, "days"@) {
            assert(s.subrange(p, p + 4)[0] == s[p + 0]);
            assert(s.subrange(p, p + 4)[0] == s[p + 0]);
            assert(false);
        }
    };
    assert(!match_at(s, p, "day"@)) by {
        if match_at(s, p, "day"@) {
            assert(s.subrange(p, p + 3)[0] == s[p + 0]);
            assert(s.subrange(p, p + 4)[0] == s[p + 0]);
            assert(false);
        }
    };
    assert(!match_at(s, p, "dys"@)) by {
        if match_at(s, p, "dys"@) {
            assert(s.subrange(p, p + 3)[0] == s[p + 0]);
            assert(s.subrange(p, p + 4)[0] == s[p + 0]);
            assert(false);
        }
    };
    assert(!match_at(s, p, "dy"@)) by {
        if match_at(s, p, "dy"@) {
            assert(s.subrange(p, p + 2)[0] == s[p + 0]);
            assert(s.subrange(p, p + 4)[0] == s[p + 0]);
            assert(false);
        }
    };
    assert(!match_at(s, p, "d"@)) by {
        if match_at(s, p, "d"@) {
            assert(s.subrange(p, p + 1)[0] == s[p + 0]);
            assert(s.subrange(p, p + 4)[0] == s[p + 0]);
            assert(false);
        }
    };
    assert(!match_at(s, p, "D"@)) by {
        if match_at(s, p, "D"@) {
            assert(s.subrange(p, p + 1)[0] == s[p + 0]);
            assert(s.subrange(p, p + 4)[0] == s[p + 0]);
            assert(false);
        }
    };
    assert(!match_at(s, p, "weeks"@)) by {
        if match_at(s, p, "weeks"@) {
            assert(s.subrange(p, p + 5)[0] == s[p + 0]);
            assert(s.subrange(p, p + 4)[0] == s[p + 0]);
            assert(false);
        }
    };
    assert(!match_at(s, p, "week"@)) by {
        if match_at(s, p, "week"@) {
            assert(s.subrange(p, p + 4)[0] == s[p + 0]);
            assert(s.subrange(p, p + 4)[0] == s[p + 0]);
            assert(false);
        }
    };
    assert(!match_at(s, p, "wks"@)) by {
        if match_at(s, p, "wks"@) {
            assert(s.subrange(p, p + 3)[0] == s[p + 0]);
            assert(s.subrange(p, p + 4)[0] == s[p + 0]);
            assert(false);
        }
    };
    assert(!match_at(s, p, "wk"@)) by {
        if match_at(s, p, "wk"@) {
            assert(s.subrange(p, p + 2)[0] == s[p + 0]);
            assert(s.subrange(p, p + 4)[0] == s[p + 0]);
            assert(false);
        }
    };
    assert(!match_at(s, p, "w"@)) by {
        if match_at(s, p, "w"@) {
            assert(s.subrange(p, p + 1)[0] == s[p + 0]);
            assert(s.subrange(p, p + 4)[0] == s[p + 0]);
            assert(false);
        }
    };
    assert(!match_at(s, p, "W"@)) by {
        if match_at(s, p, "W"@) {
            assert(s.subrange(p, p + 1)[0] == s[p + 0]);
            assert(s.subrange(p, p + 4)[0] == s[p + 0]);
            assert(false);
        }
    };
    assert(!match_at(s, p, "years"@)) by {
        if match_at(s, p, "years"@) {
            assert(s.subrange(p, p + 5)[0] == s[p + 0]);
            assert(s.subrange(p, p + 4)[0] == s[p + 0]);
            assert(false);
        }
    };
    assert(!match_at(s, p, "year"@)) by {
        if match_at(s, p, "year"@) {
            assert(s.subrange(p, p + 4)[0] == s[p + 0]);
            assert(s.subrange(p, p + 4)[0] == s[p + 0]);
            assert(false);
        }
    };
    assert(!match_at(s, p, "yrs"@)) by {
        if match_at(s, p, "yrs"@) {
            assert(s.subrange(p, p + 3)[0] == s[p + 0]);
            assert(s.subrange(p, p + 4)[0] == s[p + 0]);
            assert(false);
        }
    };
    assert(!match_at(s, p, "yr"@)) by {
        if match_at(s, p, "yr"@) {
            assert(s.subrange(p, p + 2)[0] == s[p + 0]);
            assert(s.subrange(p, p + 4)[0] == s[p + 0]);
            assert(false);
        }
    };
    assert(!match_at(s, p, "y"@)) by {
        if match_at(s, p, "y"@) {
            assert(s.subrange(p, p + 1)[0] == s[p + 0]);
            assert(s.subrange(p, p + 4)[0] == s[p + 0]);
            assert(false);
        }
    };
    assert(!match_at(s, p, "Y"@)) by {
        if match_at(s, p, "Y"@) {
            assert(s.subrange(p, p + 1)[0] == s[p + 0]);
            assert(s.subrange(p, p + 4)[0] == s[p + 0]);
            assert(false);
        }
    };
    assert(!match_at(s, p, "nanos"@)) by {
        if match_at(s, p, "nanos"@) {
            assert(s.subrange(p, p + 5)[1] == s[p + 1]);
            assert(s.subrange(p, p + 4)[1] == s[p + 1]);
            assert(false);
        }
    };
    assert(match_at(s, p, "nsec"@));
}

/// With `ns` at `p` and the word `and` right after it, the resolver
/// yields `Nanos`.
proof fn lemma_preand_nanos_ns(s: Seq<char>, p: int)
    requires
        0 <= p,
        p + 5 <= s.len(),
        s.subrange(p, p + 2) == "ns"@,
        s[p + 2] == 'a',
        s[p + 3] == 'n',
        s[p + 4] == 'd',
    ensures
        resolve_unit(s, p) == Some((Unit::Nanos, p + 2)),
{
    reveal_strlit("months");
    reveal_strlit("month");
    reveal_strlit("mths");
    reveal_strlit("mth");
    reveal_strlit("M");
    reveal_strlit("days");
    reveal_strlit("day");
    reveal_strlit("dys");
    reveal_strlit("dy");
    reveal_strlit("d");
    reveal_strlit("D");
    reveal_strlit("weeks");
    reveal_strlit("week");
    reveal_strlit("wks");
    reveal_strlit("wk");
    reveal_strlit("w");
    reveal_strlit("W");
    reveal_strlit("years");
    reveal_strlit("year");
    reveal_strlit("yrs");
    reveal_strlit("yr");
    reveal_strlit("y");
    reveal_strlit("Y");
    reveal_strlit("nanos");
    reveal_strlit("nsec");
    reveal_strlit("ns");
    reveal_strlit("micros");
    reveal_strlit("usec");
    reveal_strlit("us");
    reveal_strlit("millis");
    reveal_strlit("msec");
    reveal_strlit("ms");
    reveal_strlit("seconds");
    reveal_strlit("second");
    reveal_strlit("secs");
    reveal_strlit("sec");
    reveal_strlit("s");
    reveal_strlit("minutes");
    reveal_strlit("minute");
    reveal_strlit("mins");
    reveal_strlit("min");
    reveal_strlit("m");
    reveal_strlit("hours");
    reveal_strlit("hour");
    reveal_strlit("hrs");
    reveal_strlit("hr");
    reveal_strlit("h");
    reveal_strlit("H");
    assert(!match_at(s, p, "months"@)) by {
        if match_at(s, p, "months"@) {
            assert(s.subrange(p, p + 6)[0] == s[p + 0]);
            assert(s.subrange(p, p + 2)[0] == s[p + 0]);
            assert(false);
        }
    };
    assert(!match_at(s, p, "month"@)) by {
        if match_at(s, p, "month"@) {
            assert(s.subrange(p, p + 5)[0] == s[p + 0]);
            assert(s.subrange(p, p + 2)[0] == s[p + 0]);
            assert(false);
        }
    };
    assert(!match_at(s, p, "mths"@)) by {
        if match_at(s, p, "mths"@) {
            assert(s.subrange(p, p + 4)[0] == s[p + 0]);
            assert(s.subrange(p, p + 2)[0] == s[p + 0]);
            assert(false);
        }
    };
    assert(!match_at(s, p, "mth"@)) by {
        if match_at(s, p, "mth"@) {
            assert(s.subrange(p, p + 3)[0] == s[p + 0]);
            assert(s.subrange(p, p + 2)[0] == s[p + 0]);
            assert(false);
        }
    };
    assert(!match_at(s, p, "M"@)) by {
        if match_at(s, p, "M"@) {
            assert(s.subrange(p, p + 1)[0] == s[p + 0]);
            assert(s.subrange(p, p + 2)[0] == s[p + 0]);
            assert(false);
        }
    };
    assert(!match_at(s, p, "days"@)) by {
        if match_at(s, p, "days"@) {
            assert(s.subrange(p, p + 4)[0] == s[p + 0]);
            assert(s.subrange(p, p + 2)[0] == s[p + 0]);
            assert(false);
        }
    };
    assert(!match_at(s, p, "day"@)) by {
        if match_at(s, p, "day"@) {
            assert(s.subrange(p, p + 3)[0] == s[p + 0]);
            assert(s.subrange(p, p + 2)[0] == s[p + 0]);
            assert(false);
        }
    };
    assert(!match_at(s, p, "dys"@)) by {
        if match_at(s, p, "dys"@) {
            assert(s.subrange(p, p + 3)[0] == s[p + 0]);
            assert(s.subrange(p, p + 2)[0] == s[p + 0]);
            assert(false);
        }
    };
    assert(!match_at(s, p, "dy"@)) by {
        if match_at(s, p, "dy"@) {
            assert(s.subrange(p, p + 2)[0] == s[p + 0]);
            assert(s.subrange(p, p + 2)[0] == s[p + 0]);
            assert(false);
        }
    };
    assert(!match_at(s, p, "d"@)) by {
        if match_at(s, p, "d"@) {
            assert(s.subrange(p, p + 1)[0] == s[p + 0]);
            assert(s.subrange(p, p + 2)[0] == s[p + 0]);
            assert(false);
        }
    };
    assert(!match_at(s, p, "D"@)) by {
        if match_at(s, p, "D"@) {
            assert(s.subrange(p, p + 1)[0] == s[p + 0]);
            assert(s.subrange(p, p + 2)[0] == s[p + 0]);
            assert(false);
        }
    };
    assert(!match_at(s, p, "weeks"@)) by {
        if match_at(s, p, "weeks"@) {
            assert(s.subrange(p, p + 5)[0] == s[p + 0]);
            assert(s.subrange(p, p + 2)[0] == s[p + 0]);
            assert(false);
        }
    };
    assert(!match_at(s, p, "week"@)) by {
        if match_at(s, p, "week"@) {
            assert(s.subrange(p, p + 4)[0] == s[p + 0]);
            assert(s.subrange(p, p + 2)[0] == s[p + 0]);
            assert(false);
        }
    };
    assert(!match_at(s, p, "wks"@)) by {
        if match_at(s, p, "wks"@) {
            assert(s.subrange(p, p + 3)[0] == s[p + 0]);
            assert(s.subrange(p, p + 2)[0] == s[p + 0]);
            assert(false);
        }
    };
    assert(!match_at(s, p, "wk"@)) by {
        if match_at(s, p, "wk"@) {
            assert(s.subrange(p, p + 2)[0] == s[p + 0]);
            assert(s.subrange(p, p + 2)[0] == s[p + 0]);
            assert(false);
        }
    };
    assert(!match_at(s, p, "w"@)) by {
        if match_at(s, p, "w"@) {
            assert(s.subrange(p, p + 1)[0] == s[p + 0]);
            assert(s.subrange(p, p + 2)[0] == s[p + 0]);
            assert(false);
        }
    };
    assert(!match_at(s, p, "W"@)) by {
        if match_at(s, p, "W"@) {
            assert(s.subrange(p, p + 1)[0] == s[p + 0]);
            assert(s.subrange(p, p + 2)[0] == s[p + 0]);
            assert(false);
        }
    };
    assert(!match_at(s, p, "years"@)) by {
        if match_at(s, p, "years"@) {
            assert(s.subrange(p, p + 5)[0] == s[p + 0]);
            assert(s.subrange(p, p + 2)[0] == s[p + 0]);
            assert(false);
        }
    };
    assert(!match_at(s, p, "year"@)) by {
        if match_at(s, p, "year"@) {
            assert(s.subrange(p, p + 4)[0] == s[p + 0]);
            assert(s.subrange(p, p + 2)[0] == s[p + 0]);
            assert(false);
        }
    };
    assert(!match_at(s, p, "yrs"@)) by {
        if match_at(s, p, "yrs"@) {
            assert(s.subrange(p, p + 3)[0] == s[p + 0]);
            assert(s.subrange(p, p + 2)[0] == s[p + 0]);
            assert(false);
        }
    };
    assert(!match_at(s, p, "yr"@)) by {
        if match_at(s, p, "yr"@) {
            assert(s.subrange(p, p + 2)[0] == s[p + 0]);
            assert(s.subrange(p, p + 2)[0] == s[p + 0]);
            assert(false);
        }
    };
    assert(!match_at(s, p, "y"@)) by {
        if match_at(s, p, "y"@) {
            assert(s.subrange(p, p + 1)[0] == s[p + 0]);
            assert(s.subrange(p, p + 2)[0] == s[p + 0]);
            assert(false);
        }
    };
    assert(!match_at(s, p, "Y"@)) by {
        if match_at(s, p, "Y"@) {
            assert(s.subrange(p, p + 1)[0] == s[p + 0]);
            assert(s.subrange(p, p + 2)[0] == s[p + 0]);
            assert(false);
        }
    };
    assert(!match_at(s, p, "nanos"@)) by {
        if match_at(s, p, "nanos"@) {
            assert(s.subrange(p, p + 5)[1] == s[p + 1]);
            assert(s.subrange(p, p + 2)[1] == s[p + 1]);
            assert(false);
        }
    };
    assert(!match_at(s, p, "nsec"@)) by {
        if match_at(s, p, "nsec"@) {
            assert(s.subrange(p, p + 4)[2] == s[p + 2]);
            assert(false);
        }
    };
    assert(match_at(s, p, "ns"@));
}

/// With `micros` at `p` and the word `and` right after it, the resolver
/// yields `Micros`.
proof fn lemma_preand_micros_micros(s: Seq<char>, p: int)
    requires
        0 <= p,
        p + 9 <= s.len(),
        s.subrange(p, p + 6) == "micros"@,
        s[p + 6] == 'a',
        s[p + 7] == 'n',
        s[p + 8] == 'd',
    ensures
        resolve_unit(s, p) == Some((Unit::Micros, p + 6)),
{
    reveal_strlit("months");
    reveal_strlit("month");
    reveal_strlit("mths");
    reveal_strlit("mth");
    reveal_strlit("M");
    reveal_strlit("days");
    reveal_strlit("day");
    reveal_strlit("dys");
    reveal_strlit("dy");
    reveal_strlit("d");
    reveal_strlit("D");
    reveal_strlit("weeks");
    reveal_strlit("week");
    reveal_strlit("wks");
    reveal_strlit("wk");
    reveal_strlit("w");
    reveal_strlit("W");
    reveal_strlit("years");
    reveal_strlit("year");
    reveal_strlit("yrs");
    reveal_strlit("yr");
    reveal_strlit("y");
    reveal_strlit("Y");
    reveal_strlit("nanos");
    reveal_strlit("nsec");
    reveal_strlit("ns");
    reveal_strlit("micros");
    reveal_strlit("usec");
    reveal_strlit("us");
    reveal_strlit("millis");
    reveal_strlit("msec");
    reveal_strlit("ms");
    reveal_strlit("seconds");
    reveal_strlit("second");
    reveal_strlit("secs");
    reveal_strlit("sec");
    reveal_strlit("s");
    reveal_strlit("minutes");
    reveal_strlit("minute");
    reveal_strlit("mins");
    reveal_strlit("min");
    reveal_strlit("m");
    reveal_strlit("hours");
    reveal_strlit("hour");
    reveal_strlit("hrs");
    reveal_strlit("hr");
    reveal_strlit("h");
    reveal_strlit("H");
    assert(!match_at(s, p, "months"@)) by {
        if match_at(s, p, "months"@) {
            assert(s.subrange(p, p + 6)[1] == s[p + 1]);
            assert(s.subrange(p, p + 6)[1] == s[p + 1]);
            assert(false);
        }
    };
    assert(!match_at(s, p, "month"@)) by {
        if match_at(s, p, "month"@) {
            assert(s.subrange(p, p + 5)[1] == s[p + 1]);
            assert(s.subrange(p, p + 6)[1] == s[p + 1]);
            assert(false);
        }
    };
    assert(!match_at(s, p, "mths"@)) by {
        if match_at(s, p, "mths"@) {
            assert(s.subrange(p, p + 4)[1] == s[p + 1]);
            assert(s.subrange(p, p + 6)[1] == s[p + 1]);
            assert(false);
        }
    };
    assert(!match_at(s, p, "mth"@)) by {
        if match_at(s, p, "mth"@) {
            assert(s.subrange(p, p + 3)[1] == s[p + 1]);
            assert(s.subrange(p, p + 6)[1] == s[p + 1]);
            assert(false);
        }
    };
    assert(!match_at(s, p, "M"@)) by {
        if match_at(s, p, "M"@) {
            assert(s.subrange(p, p + 1)[0] == s[p + 0]);
            assert(s.subrange(p, p + 6)[0] == s[p + 0]);
            assert(false);
        }
    };
    assert(!match_at(s, p, "days"@)) by {
        if match_at(s, p, "days"@) {
            assert(s.subrange(p, p + 4)[0] == s[p + 0]);
            assert(s.subrange(p, p + 6)[0] == s[p + 0]);
            assert(false);
        }
    };
    assert(!match_at(s, p, "day"@)) by {
        if match_at(s, p, "day"@) {
            assert(s.subrange(p, p + 3)[0] == s[p + 0]);
            assert(s.subrange(p, p + 6)[0] == s[p + 0]);
            assert(false);
        }
    };
    assert(!match_at(s, p, "dys"@)) by {
        if match_at(s, p, "dys"@) {
            assert(s.subrange(p, p + 3)[0] == s[p + 0]);
            assert(s.subrange(p, p + 6)[0] == s[p + 0]);
            assert(false);
        }
    };
    assert(!match_at(s, p, "dy"@)) by {
        if match_at(s, p, "dy"@) {
            assert(s.subrange(p, p + 2)[0] == s[p + 0]);
            assert(s.subrange(p, p + 6)[0] == s[p + 0]);
            assert(false);
        }
    };
    assert(!match_at(s, p, "d"@)) by {
        if match_at(s, p, "d"@) {
            assert(s.subrange(p, p + 1)[0] == s[p + 0]);
            assert(s.subrange(p, p + 6)[0] == s[p + 0]);
            assert(false);
        }
    };
    assert(!match_at(s, p, "D"@)) by {
        if match_at(s, p, "D"@) {
            assert(s.subrange(p, p + 1)[0] == s[p + 0]);
            assert(s.subrange(p, p + 6)[0] == s[p + 0]);
            assert(false);
        }
    };
    assert(!match_at(s, p, "weeks"@)) by {
        if match_at(s, p, "weeks"@) {
            assert(s.subrange(p, p + 5)[0] == s[p + 0]);
            assert(s.subrange(p, p + 6)[0] == s[p + 0]);
            assert(false);
        }
    };
    assert(!match_at(s, p, "week"@)) by {
        if match_at(s, p, "week"@) {
            assert(s.subrange(p, p + 4)[0] == s[p + 0]);
            assert(s.subrange(p, p + 6)[0] == s[p + 0]);
            assert(false);
        }
    };
    assert(!match_at(s, p, "wks"@)) by {
        if match_at(s, p, "wks"@) {
            assert(s.subrange(p, p + 3)[0] == s[p + 0]);
            assert(s.subrange(p, p + 6)[0] == s[p + 0]);
            assert(false);
        }
    };
    assert(!match_at(s, p, "wk"@)) by {
        if match_at(s, p, "wk"@) {
            assert(s.subrange(p, p + 2)[0] == s[p + 0]);
            assert(s.subrange(p, p + 6)[0] == s[p + 0]);
            assert(false);
        }
    };
    assert(!match_at(s, p, "w"@)) by {
        if match_at(s, p, "w"@) {
            assert(s.subrange(p, p + 1)[0] == s[p + 0]);
            assert(s.subrange(p, p + 6)[0] == s[p + 0]);
            assert(false);
        }
    };
    assert(!match_at(s, p, "W"@)) by {
        if match_at(s, p, "W"@) {
            assert(s.subrange(p, p + 1)[0] == s[p + 0]);
            assert(s.subrange(p, p + 6)[0] == s[p + 0]);
            assert(false);
        }
    };
    assert(!match_at(s, p, "years"@)) by {
        if match_at(s, p, "years"@) {
            assert(s.subrange(p, p + 5)[0] == s[p + 0]);
            assert(s.subrange(p, p + 6)[0] == s[p + 0]);
            assert(false);
        }
    };
    assert(!match_at(s, p, "year"@)) by {
        if match_at(s, p, "year"@) {
            assert(s.subrange(p, p + 4)[0] == s[p + 0]);
            assert(s.subrange(p, p + 6)[0] == s[p + 0]);
            assert(false);
        }
    };
    assert(!match_at(s, p, "yrs"@)) by {
        if match_at(s, p, "yrs"@) {
            assert(s.subrange(p, p + 3)[0] == s[p + 0]);
            assert(s.subrange(p, p + 6)[0] == s[p + 0]);
            assert(false);
        }
    };
    assert(!match_at(s, p, "yr"@)) by {
        if match_at(s, p, "yr"@) {
            assert(s.subrange(p, p + 2)[0] == s[p + 0]);
            assert(s.subrange(p, p + 6)[0] == s[p + 0]);
            assert(false);
        }
    };
    assert(!match_at(s, p, "y"@)) by {
        if match_at(s, p, "y"@) {
            assert(s.subrange(p, p + 1)[0] == s[p + 0]);
            assert(s.subrange(p, p + 6)[0] == s[p + 0]);
            assert(false);
        }
    };
    assert(!match_at(s, p, "Y"@)) by {
        if match_at(s, p, "Y"@) {
            assert(s.subrange(p, p + 1)[0] == s[p + 0]);
            assert(s.subrange(p, p + 6)[0] == s[p + 0]);
            assert(false);
        }
    };
    assert(!match_at(s, p, "nanos"@)) by {
        if match_at(s, p, "nanos"@) {
            assert(s.subrange(p, p + 5)[0] == s[p + 0]);
            assert(s.subrange(p, p + 6)[0] == s[p + 0]);
            assert(false);
        }
    };
    assert(!match_at(s, p, "nsec"@)) by {
        if match_at(s, p, "nsec"@) {
            assert(s.subrange(p, p + 4)[0] == s[p + 0]);
            assert(s.subrange(p, p + 6)[0] == s[p + 0]);
            assert(false);
        }
    };
    assert(!match_at(s, p, "ns"@)) by {
        if match_at(s, p, "ns"@) {
            assert(s.subrange(p, p + 2)[0] == s[p + 0]);
            assert(s.subrange(p, p + 6)[0] == s[p + 0]);
            assert(false);
        }
    };
    assert(match_at(s, p, "micros"@));
}

/// With `usec` at `p` and the word `and` right after it, the resolver
/// yields `Micros`.
proof fn lemma_preand_micros_usec(s: Seq<char>, p: int)
    requires
        0 <= p,
        p + 7 <= s.len(),
        s.subrange(p, p + 4) == "usec"@,
        s[p + 4] == 'a',
        s[p + 5] == 'n',
        s[p + 6] == 'd',
    ensures
        resolve_unit(s, p) == Some((Unit::Micros, p + 4)),
{
    reveal_strlit("months");
    reveal_strlit("month");
    reveal_strlit("mths");
    reveal_strlit("mth");
    reveal_strlit("M");
    reveal_strlit("days");
    reveal_strlit("day");
    reveal_strlit("dys");
    reveal_strlit("dy");
    reveal_strlit("d");
    reveal_strlit("D");
    reveal_strlit("weeks");
    reveal_strlit("week");
    reveal_strlit("wks");
    reveal_strlit("wk");
    reveal_strlit("w");
    reveal_strlit("W");
    reveal_strlit("years");
    reveal_strlit("year");
    reveal_strlit("yrs");
    reveal_strlit("yr");
    reveal_strlit("y");
    reveal_strlit("Y");
    reveal_strlit("nanos");
    reveal_strlit("nsec");
    reveal_strlit("ns");
    reveal_strlit("micros");
    reveal_strlit("usec");
    reveal_strlit("us");
    reveal_strlit("millis");
    reveal_strlit("msec");
    reveal_strlit("ms");
    reveal_strlit("seconds");
    reveal_strlit("second");
    reveal_strlit("secs");
    reveal_strlit("sec");
    reveal_strlit("s");
    reveal_strlit("minutes");
    reveal_strlit("minute");
    reveal_strlit("mins");
    reveal_strlit("min");
    reveal_strlit("m");
    reveal_strlit("hours");
    reveal_strlit("hour");
    reveal_strlit("hrs");
    reveal_strlit("hr");
    reveal_strlit("h");
    reveal_strlit("H");
    assert(!match_at(s, p, "months"@)) by {
        if match_at(s, p, "months"@) {
            assert(s.subrange(p, p + 6)[0] == s[p + 0]);
            assert(s.subrange(p, p + 4)[0] == s[p + 0]);
            assert(false);
        }
    };
    assert(!match_at(s, p, "month"@)) by {
        if match_at(s, p, "month"@) {
            assert(s.subrange(p, p + 5)[0] == s[p + 0]);
            assert(s.subrange(p, p + 4)[0] == s[p + 0]);
            assert(false);
        }
    };
    assert(!match_at(s, p, "mths"@)) by {
        if match_at(s, p, "mths"@) {
            assert(s.subrange(p, p + 4)[0] == s[p + 0]);
            assert(s.subrange(p, p + 4)[0] == s[p + 0]);
            assert(false);
        }
    };
    assert(!match_at(s, p, "mth"@)) by {
        if match_at(s, p, "mth"@) {
            assert(s.subrange(p, p + 3)[0] == s[p + 0]);
            assert(s.subrange(p, p + 4)[0] == s[p + 0]);
            assert(false);
        }
    };
    assert(!match_at(s, p, "M"@)) by {
        if match_at(s, p, "M"@) {
            assert(s.subrange(p, p + 1)[0] == s[p + 0]);
            assert(s.subrange(p, p + 4)[0] == s[p + 0]);
            assert(false);
        }
    };
    assert(!match_at(s, p, "days"@)) by {
        if match_at(s, p, "days"@) {
            assert(s.subrange(p, p + 4)[0] == s[p + 0]);
            assert(s.subrange(p, p + 4)[0] == s[p + 0]);
            assert(false);
        }
    };
    assert(!match_at(s, p, "day"@)) by {
        if match_at(s, p, "day"@) {
            assert(s.subrange(p, p + 3)[0] == s[p + 0]);
            assert(s.subrange(p, p + 4)[0] == s[p + 0]);
            assert(false);
        }
    };
    assert(!match_at(s, p, "dys"@)) by {
        if match_at(s, p, "dys"@) {
            assert(s.subrange(p, p + 3)[0] == s[p + 0]);
            assert(s.subrange(p, p + 4)[0] == s[p + 0]);
            assert(false);
        }
    };
    assert(!match_at(s, p, "dy"@)) by {
        if match_at(s, p, "dy"@) {
            assert(s.subrange(p, p + 2)[0] == s[p + 0]);
            assert(s.subrange(p, p + 4)[0] == s[p + 0]);
            assert(false);
        }
    };
    assert(!match_at(s, p, "d"@)) by {
        if match_at(s, p, "d"@) {
            assert(s.subrange(p, p + 1)[0] == s[p + 0]);
            assert(s.subrange(p, p + 4)[0] == s[p + 0]);
            assert(false);
        }
    };
    assert(!match_at(s, p, "D"@)) by {
        if match_at(s, p, "D"@) {
            assert(s.subrange(p, p + 1)[0] == s[p + 0]);
            assert(s.subrange(p, p + 4)[0] == s[p + 0]);
            assert(false);
        }
    };
    assert(!match_at(s, p, "weeks"@)) by {
        if match_at(s, p, "weeks"@) {
            assert(s.subrange(p, p + 5)[0] == s[p + 0]);
            assert(s.subrange(p, p + 4)[0] == s[p + 0]);
            assert(false);
        }
    };
    assert(!match_at(s, p, "week"@)) by {
        if match_at(s, p, "week"@) {
            assert(s.subrange(p, p + 4)[0] == s[p + 0]);
            assert(s.subrange(p, p + 4)[0] == s[p + 0]);
            assert(false);
        }
    };
    assert(!match_at(s, p, "wks"@)) by {
        if match_at(s, p, "wks"@) {
            assert(s.subrange(p, p + 3)[0] == s[p + 0]);
            assert(s.subrange(p, p + 4)[0] == s[p + 0]);
            assert(false);
        }
    };
    assert(!match_at(s, p, "wk"@)) by {
        if match_at(s, p, "wk"@) {
            assert(s.subrange(p, p + 2)[0] == s[p + 0]);
            assert(s.subrange(p, p + 4)[0] == s[p + 0]);
            assert(false);
        }
    };
    assert(!match_at(s, p, "w"@)) by {
        if match_at(s, p, "w"@) {
            assert(s.subrange(p, p + 1)[0] == s[p + 0]);
            assert(s.subrange(p, p + 4)[0] == s[p + 0]);
            assert(false);
        }
    };
    assert(!match_at(s, p, "W"@)) by {
        if match_at(s, p, "W"@) {
            assert(s.subrange(p, p + 1)[0] == s[p + 0]);
            assert(s.subrange(p, p + 4)[0] == s[p + 0]);
            assert(false);
        }
    };
    assert(!match_at(s, p, "years"@)) by {
        if match_at(s, p, "years"@) {
            assert(s.subrange(p, p + 5)[0] == s[p + 0]);
            assert(s.subrange(p, p + 4)[0] == s[p + 0]);
            assert(false);
        }
    };
    assert(!match_at(s, p, "year"@)) by {
        if match_at(s, p, "year"@) {
            assert(s.subrange(p, p + 4)[0] == s[p + 0]);
            assert(s.subrange(p, p + 4)[0] == s[p + 0]);
            assert(false);
        }
    };
    assert(!match_at(s, p, "yrs"@)) by {
        if match_at(s, p, "yrs"@) {
            assert(s.subrange(p, p + 3)[0] == s[p + 0]);
            assert(s.subrange(p, p + 4)[0] == s[p + 0]);
            assert(false);
        }
    };
    assert(!match_at(s, p, "yr"@)) by {
        if match_at(s, p, "yr"@) {
            assert(s.subrange(p, p + 2)[0] == s[p + 0]);
            assert(s.subrange(p, p + 4)[0] == s[p + 0]);
            assert(false);
        }
    };
    assert(!match_at(s, p, "y"@)) by {
        if match_at(s, p, "y"@) {
            assert(s.subrange(p, p + 1)[0] == s[p + 0]);
            assert(s.subrange(p, p + 4)[0] == s[p + 0]);
            assert(false);
        }
    };
    assert(!match_at(s, p, "Y"@)) by {
        if match_at(s, p, "Y"@) {
            assert(s.subrange(p, p + 1)[0] == s[p + 0]);
            assert(s.subrange(p, p + 4)[0] == s[p + 0]);
            assert(false);
        }
    };
    assert(!match_at(s, p, "nanos"@)) by {
        if match_at(s, p, "nanos"@) {
            assert(s.subrange(p, p + 5)[0] == s[p + 0]);
            assert(s.subrange(p, p + 4)[0] == s[p + 0]);
            assert(false);
        }
    };
    assert(!match_at(s, p, "nsec"@)) by {
        if match_at(s, p, "nsec"@) {
            assert(s.subrange(p, p + 4)[0] == s[p + 0]);
            assert(s.subrange(p, p + 4)[0] == s[p + 0]);
            assert(false);
        }
    };
    assert(!match_at(s, p, "ns"@)) by {
        if match_at(s, p, "ns"@) {
            assert(s.subrange(p, p + 2)[0] == s[p + 0]);
            assert(s.subrange(p, p + 4)[0] == s[p + 0]);
            assert(false);
        }
    };
    assert(!match_at(s, p, "micros"@)) by {
        if match_at(s, p, "micros"@) {
            assert(s.subrange(p, p + 6)[0] == s[p + 0]);
            assert(s.subrange(p, p + 4)[0] == s[p + 0]);
            assert(false);
        }
    };
    assert(match_at(s, p, "usec"@));
}

/// With `us` at `p` and the word `and` right after it, the resolver
/// yields `Micros`.
proof fn lemma_preand_micros_us(s: Seq<char>, p: int)
    requires
        0 <= p,
        p + 5 <= s.len(),
        s.subrange(p, p + 2) == "us"@,
        s[p + 2] == 'a',
        s[p + 3] == 'n',
        s[p + 4] == 'd',
    ensures
        resolve_unit(s, p) == Some((Unit::Micros, p + 2)),
{
    reveal_strlit("months");
    reveal_strlit("month");
    reveal_strlit("mths");
    reveal_strlit("mth");
    reveal_strlit("M");
    reveal_strlit("days");
    reveal_strlit("day");
    reveal_strlit("dys");
    reveal_strlit("dy");
    reveal_strlit("d");
    reveal_strlit("D");
    reveal_strlit("weeks");
    reveal_strlit("week");
    reveal_strlit("wks");
    reveal_strlit("wk");
    reveal_strlit("w");
    reveal_strlit("W");
    reveal_strlit("years");
    reveal_strlit("year");
    reveal_strlit("yrs");
    reveal_strlit("yr");
    reveal_strlit("y");
    reveal_strlit("Y");
    reveal_strlit("nanos");
    reveal_strlit("nsec");
    reveal_strlit("ns");
    reveal_strlit("micros");
    reveal_strlit("usec");
    reveal_strlit("us");
    reveal_strlit("millis");
    reveal_strlit("msec");
    reveal_strlit("ms");
    reveal_strlit("seconds");
    reveal_strlit("second");
    reveal_strlit("secs");
    reveal_strlit("sec");
    reveal_strlit("s");
    reveal_strlit("minutes");
    reveal_strlit("minute");
    reveal_strlit("mins");
    reveal_strlit("min");
    reveal_strlit("m");
    reveal_strlit("hours");
    reveal_strlit("hour");
    reveal_strlit("hrs");
    reveal_strlit("hr");
    reveal_strlit("h");
    reveal_strlit("H");
    assert(!match_at(s, p, "months"@)) by {
        if match_at(s, p, "months"@) {
            assert(s.subrange(p, p + 6)[0] == s[p + 0]);
            assert(s.subrange(p, p + 2)[0] == s[p + 0]);
            assert(false);
        }
    };
    assert(!match_at(s, p, "month"@)) by {
        if match_at(s, p, "month"@) {
            assert(s.subrange(p, p + 5)[0] == s[p + 0]);
            assert(s.subrange(p, p + 2)[0] == s[p + 0]);
            assert(false);
        }
    };
    assert(!match_at(s, p, "mths"@)) by {
        if match_at(s, p, "mths"@) {
            assert(s.subrange(p, p + 4)[0] == s[p + 0]);
            assert(s.subrange(p, p + 2)[0] == s[p + 0]);
            assert(false);
        }
    };
    assert(!match_at(s, p, "mth"@)) by {
        if match_at(s, p, "mth"@) {
            assert(s.subrange(p, p + 3)[0] == s[p + 0]);
            assert(s.subrange(p, p + 2)[0] == s[p + 0]);
            assert(false);
        }
    };
    assert(!match_at(s, p, "M"@)) by {
        if match_at(s, p, "M"@) {
            assert(s.subrange(p, p + 1)[0] == s[p + 0]);
            assert(s.subrange(p, p + 2)[0] == s[p + 0]);
            assert(false);
        }
    };
    assert(!match_at(s, p, "days"@)) by {
        if match_at(s, p, "days"@) {
            assert(s.subrange(p, p + 4)[0] == s[p + 0]);
            assert(s.subrange(p, p + 2)[0] == s[p + 0]);
            assert(false);
        }
    };
    assert(!match_at(s, p, "day"@)) by {
        if match_at(s, p, "day"@) {
            assert(s.subrange(p, p + 3)[0] == s[p + 0]);
            assert(s.subrange(p, p + 2)[0] == s[p + 0]);
            assert(false);
        }
    };
    assert(!match_at(s, p, "dys"@)) by {
        if match_at(s, p, "dys"@) {
            assert(s.subrange(p, p + 3)[0] == s[p + 0]);
            assert(s.subrange(p, p + 2)[0] == s[p + 0]);
            assert(false);
        }
    };
    assert(!match_at(s, p, "dy"@)) by {
        if match_at(s, p, "dy"@) {
            assert(s.subrange(p, p + 2)[0] == s[p + 0]);
            assert(s.subrange(p, p + 2)[0] == s[p + 0]);
            assert(false);
        }
    };
    assert(!match_at(s, p, "d"@)) by {
        if match_at(s, p, "d"@) {
            assert(s.subrange(p, p + 1)[0] == s[p + 0]);
            assert(s.subrange(p, p + 2)[0] == s[p + 0]);
            assert(false);
        }
    };
    assert(!match_at(s, p, "D"@)) by {
        if match_at(s, p, "D"@) {
            assert(s.subrange(p, p + 1)[0] == s[p + 0]);
            assert(s.subrange(p, p + 2)[0] == s[p + 0]);
            assert(false);
        }
    };
    assert(!match_at(s, p, "weeks"@)) by {
        if match_at(s, p, "weeks"@) {
            assert(s.subrange(p, p + 5)[0] == s[p + 0]);
            assert(s.subrange(p, p + 2)[0] == s[p + 0]);
            assert(false);
        }
    };
    assert(!match_at(s, p, "week"@)) by {
        if match_at(s, p, "week"@) {
            assert(s.subrange(p, p + 4)[0] == s[p + 0]);
            assert(s.subrange(p, p + 2)[0] == s[p + 0]);
            assert(false);
        }
    };
    assert(!match_at(s, p, "wks"@)) by {
        if match_at(s, p, "wks"@) {
            assert(s.subrange(p, p + 3)[0] == s[p + 0]);
            assert(s.subrange(p, p + 2)[0] == s[p + 0]);
            assert(false);
        }
    };
    assert(!match_at(s, p, "wk"@)) by {
        if match_at(s, p, "wk"@) {
            assert(s.subrange(p, p + 2)[0] == s[p + 0]);
            assert(s.subrange(p, p + 2)[0] == s[p + 0]);
            assert(false);
        }
    };
    assert(!match_at(s, p, "w"@)) by {
        if match_at(s, p, "w"@) {
            assert(s.subrange(p, p + 1)[0] == s[p + 0]);
            assert(s.subrange(p, p + 2)[0] == s[p + 0]);
            assert(false);
        }
    };
    assert(!match_at(s, p, "W"@)) by {
        if match_at(s, p, "W"@) {
            assert(s.subrange(p, p + 1)[0] == s[p + 0]);
            assert(s.subrange(p, p + 2)[0] == s[p + 0]);
            assert(false);
        }
    };
    assert(!match_at(s, p, "years"@)) by {
        if match_at(s, p, "years"@) {
            assert(s.subrange(p, p + 5)[0] == s[p + 0]);
            assert(s.subrange(p, p + 2)[0] == s[p + 0]);
            assert(false);
        }
    };
    assert(!match_at(s, p, "year"@)) by {
        if match_at(s, p, "year"@) {
            assert(s.subrange(p, p + 4)[0] == s[p + 0]);
            assert(s.subrange(p, p + 2)[0] == s[p + 0]);
            assert(false);
        }
    };
    assert(!match_at(s, p, "yrs"@)) by {
        if match_at(s, p, "yrs"@) {
            assert(s.subrange(p, p + 3)[0] == s[p + 0]);
            assert(s.subrange(p, p + 2)[0] == s[p + 0]);
            assert(false);
        }
    };
    assert(!match_at(s, p, "yr"@)) by {
        if match_at(s, p, "yr"@) {
            assert(s.subrange(p, p + 2)[0] == s[p + 0]);
            assert(s.subrange(p, p + 2)[0] == s[p + 0]);
            assert(false);
        }
    };
    assert(!match_at(s, p, "y"@)) by {
        if match_at(s, p, "y"@) {
            assert(s.subrange(p, p + 1)[0] == s[p + 0]);
            assert(s.subrange(p, p + 2)[0] == s[p + 0]);
            assert(false);
        }
    };
    assert(!match_at(s, p, "Y"@)) by {
        if match_at(s, p, "Y"@) {
            assert(s.subrange(p, p + 1)[0] == s[p + 0]);
            assert(s.subrange(p, p + 2)[0] == s[p + 0]);
            assert(false);
        }
    };
    assert(!match_at(s, p, "nanos"@)) by {
        if match_at(s, p, "nanos"@) {
            assert(s.subrange(p, p + 5)[0] == s[p + 0]);
            assert(s.subrange(p, p + 2)[0] == s[p + 0]);
            assert(false);
        }
    };
    assert(!match_at(s, p, "nsec"@)) by {
        if match_at(s, p, "nsec"@) {
            assert(s.subrange(p, p + 4)[0] == s[p + 0]);
            assert(s.subrange(p, p + 2)[0] == s[p + 0]);
            assert(false);
        }
    };
    assert(!match_at(s, p, "ns"@)) by {
        if match_at(s, p, "ns"@) {
            assert(s.subrange(p, p + 2)[0] == s[p + 0]);
            assert(s.subrange(p, p + 2)[0] == s[p + 0]);
            assert(false);
        }
    };
    assert(!match_at(s, p, "micros"@)) by {
        if match_at(s, p, "micros"@) {
            assert(s.subrange(p, p + 6)[0] == s[p + 0]);
            assert(s.subrange(p, p + 2)[0] == s[p + 0]);
            assert(false);
        }
    };
    assert(!match_at(s, p, "usec"@)) by {
        if match_at(s, p, "usec"@) {
            assert(s.subrange(p, p + 4)[2] == s[p + 2]);
            assert(false);
        }
    };
    assert(match_at(s, p, "us"@));
}

/// With `millis` at `p` and the word `and` right after it, the resolver
/// yields `Millis`.
proof fn lemma_preand_millis_millis(s: Seq<char>, p: int)
    requires
        0 <= p,
        p + 9 <= s.len(),
        s.subrange(p, p + 6) == "millis"@,
        s[p + 6] == 'a',
        s[p + 7] == 'n',
        s[p + 8] == 'd',
    ensures
        resolve_unit(s, p) == Some((Unit::Millis, p + 6)),
{
    reveal_strlit("months");
    reveal_strlit("month");
    reveal_strlit("mths");
    reveal_strlit("mth");
    reveal_strlit("M");
    reveal_strlit("days");
    reveal_strlit("day");
    reveal_strlit("dys");
    reveal_strlit("dy");
    reveal_strlit("d");
    reveal_strlit("D");
    reveal_strlit("weeks");
    reveal_strlit("week");
    reveal_strlit("wks");
    reveal_strlit("wk");
    reveal_strlit("w");
    reveal_strlit("W");
    reveal_strlit("years");
    reveal_strlit("year");
    reveal_strlit("yrs");
    reveal_strlit("yr");
    reveal_strlit("y");
    reveal_strlit("Y");
    reveal_strlit("nanos");
    reveal_strlit("nsec");
    reveal_strlit("ns");
    reveal_strlit("micros");
    reveal_strlit("usec");
    reveal_strlit("us");
    reveal_strlit("millis");
    reveal_strlit("msec");
    reveal_strlit("ms");
    reveal_strlit("seconds");
    reveal_strlit("second");
    reveal_strlit("secs");
    reveal_strlit("sec");
    reveal_strlit("s");
    reveal_strlit("minutes");
    reveal_strlit("minute");
    reveal_strlit("mins");
    reveal_strlit("min");
    reveal_strlit("m");
    reveal_strlit("hours");
    reveal_strlit("hour");
    reveal_strlit("hrs");
    reveal_strlit("hr");
    reveal_strlit("h");
    reveal_strlit("H");
    assert(!match_at(s, p, "months"@)) by {
        if match_at(s, p, "months"@) {
            assert(s.subrange(p, p + 6)[1] == s[p + 1]);
            assert(s.subrange(p, p + 6)[1] == s[p + 1]);
            assert(false);
        }
    };
    assert(!match_at(s, p, "month"@)) by {
        if match_at(s, p, "month"@) {
            assert(s.subrange(p, p + 5)[1] == s[p + 1]);
            assert(s.subrange(p, p + 6)[1] == s[p + 1]);
            assert(false);
        }
    };
    assert(!match_at(s, p, "mths"@)) by {
        if match_at(s, p, "mths"@) {
            assert(s.subrange(p, p + 4)[1] == s[p + 1]);
            assert(s.subrange(p, p + 6)[1] == s[p + 1]);
            assert(false);
        }
    };
    assert(!match_at(s, p, "mth"@)) by {
        if match_at(s, p, "mth"@) {
            assert(s.subrange(p, p + 3)[1] == s[p + 1]);
            assert(s.subrange(p, p + 6)[1] == s[p + 1]);
            assert(false);
        }
    };
    assert(!match_at(s, p, "M"@)) by {
        if match_at(s, p, "M"@) {
            assert(s.subrange(p, p + 1)[0] == s[p + 0]);
            assert(s.subrange(p, p + 6)[0] == s[p + 0]);
            assert(false);
        }
    };
    assert(!match_at(s, p, "days"@)) by {
        if match_at(s, p, "days"@) {
            assert(s.subrange(p, p + 4)[0] == s[p + 0]);
            assert(s.subrange(p, p + 6)[0] == s[p + 0]);
            assert(false);
        }
    };
    assert(!match_at(s, p, "day"@)) by {
        if match_at(s, p, "day"@) {
            assert(s.subrange(p, p + 3)[0] == s[p + 0]);
            assert(s.subrange(p, p + 6)[0] == s[p + 0]);
            assert(false);
        }
    };
    assert(!match_at(s, p, "dys"@)) by {
        if match_at(s, p, "dys"@) {
            assert(s.subrange(p, p + 3)[0] == s[p + 0]);
            assert(s.subrange(p, p + 6)[0] == s[p + 0]);
            assert(false);
        }
    };
    assert(!match_at(s, p, "dy"@)) by {
        if match_at(s, p, "dy"@) {
            assert(s.subrange(p, p + 2)[0] == s[p + 0]);
            assert(s.subrange(p, p + 6)[0] == s[p + 0]);
            assert(false);
        }
    };
    assert(!match_at(s, p, "d"@)) by {
        if match_at(s, p, "d"@) {
            assert(s.subrange(p, p + 1)[0] == s[p + 0]);
            assert(s.subrange(p, p + 6)[0] == s[p + 0]);
            assert(false);
        }
    };
    assert(!match_at(s, p, "D"@)) by {
        if match_at(s, p, "D"@) {
            assert(s.subrange(p, p + 1)[0] == s[p + 0]);
            assert(s.subrange(p, p + 6)[0] == s[p + 0]);
            assert(false);
        }
    };
    assert(!match_at(s, p, "weeks"@)) by {
        if match_at(s, p, "weeks"@) {
            assert(s.subrange(p, p + 5)[0] == s[p + 0]);
            assert(s.subrange(p, p + 6)[0] == s[p + 0]);
            assert(false);
        }
    };
    assert(!match_at(s, p, "week"@)) by {
        if match_at(s, p, "week"@) {
            assert(s.subrange(p, p + 4)[0] == s[p + 0]);
            assert(s.subrange(p, p + 6)[0] == s[p + 0]);
            assert(false);
        }
    };
    assert(!match_at(s, p, "wks"@)) by {
        if match_at(s, p, "wks"@) {
            assert(s.subrange(p, p + 3)[0] == s[p + 0]);
            assert(s.subrange(p, p + 6)[0] == s[p + 0]);
            assert(false);
        }
    };
    assert(!match_at(s, p, "wk"@)) by {
        if match_at(s, p, "wk"@) {
            assert(s.subrange(p, p + 2)[0] == s[p + 0]);
            assert(s.subrange(p, p + 6)[0] == s[p + 0]);
            assert(false);
        }
    };
    assert(!match_at(s, p, "w"@)) by {
        if match_at(s, p, "w"@) {
            assert(s.subrange(p, p + 1)[0] == s[p + 0]);
            assert(s.subrange(p, p + 6)[0] == s[p + 0]);
            assert(false);
        }
    };
    assert(!match_at(s, p, "W"@)) by {
        if match_at(s, p, "W"@) {
            assert(s.subrange(p, p + 1)[0] == s[p + 0]);
            assert(s.subrange(p, p + 6)[0] == s[p + 0]);
            assert(false);
        }
    };
    assert(!match_at(s, p, "years"@)) by {
        if match_at(s, p, "years"@) {
            assert(s.subrange(p, p + 5)[0] == s[p + 0]);
            assert(s.subrange(p, p + 6)[0] == s[p + 0]);
            assert(false);
        }
    };
    assert(!match_at(s, p, "year"@)) by {
        if match_at(s, p, "year"@) {
            assert(s.subrange(p, p + 4)[0] == s[p + 0]);
            assert(s.subrange(p, p + 6)[0] == s[p + 0]);
            assert(false);
        }
    };
    assert(!match_at(s, p, "yrs"@)) by {
        if match_at(s, p, "yrs"@) {
            assert(s.subrange(p, p + 3)[0] == s[p + 0]);
            assert(s.subrange(p, p + 6)[0] == s[p + 0]);
            assert(false);
        }
    };
    assert(!match_at(s, p, "yr"@)) by {
        if match_at(s, p, "yr"@) {
            assert(s.subrange(p, p + 2)[0] == s[p + 0]);
            assert(s.subrange(p, p + 6)[0] == s[p + 0]);
            assert(false);
        }
    };
    assert(!match_at(s, p, "y"@)) by {
        if match_at(s, p, "y"@) {
            assert(s.subrange(p, p + 1)[0] == s[p + 0]);
            assert(s.subrange(p, p + 6)[0] == s[p + 0]);
            assert(false);
        }
    };
    assert(!match_at(s, p, "Y"@)) by {
        if match_at(s, p, "Y"@) {
            assert(s.subrange(p, p + 1)[0] == s[p + 0]);
            assert(s.subrange(p, p + 6)[0] == s[p + 0]);
            assert(false);
        }
    };
    assert(!match_at(s, p, "nanos"@)) by {
        if match_at(s, p, "nanos"@) {
            assert(s.subrange(p, p + 5)[0] == s[p + 0]);
            assert(s.subrange(p, p + 6)[0] == s[p + 0]);
            assert(false);
        }
    };
    assert(!match_at(s, p, "nsec"@)) by {
        if match_at(s, p, "nsec"@) {
            assert(s.subrange(p, p + 4)[0] == s[p + 0]);
            assert(s.subrange(p, p + 6)[0] == s[p + 0]);
            assert(false);
        }
    };
    assert(!match_at(s, p, "ns"@)) by {
        if match_at(s, p, "ns"@) {
            assert(s.subrange(p, p + 2)[0] == s[p + 0]);
            assert(s.subrange(p, p + 6)[0] == s[p + 0]);
            assert(false);
        }
    };
    assert(!match_at(s, p, "micros"@)) by {
        if match_at(s, p, "micros"@) {
            assert(s.subrange(p, p + 6)[2] == s[p + 2]);
            assert(s.subrange(p, p + 6)[2] == s[p + 2]);
            assert(false);
        }
    };
    assert(!match_at(s, p, "usec"@)) by {
        if match_at(s, p, "usec"@) {
            assert(s.subrange(p, p + 4)[0] == s[p + 0]);
            assert(s.subrange(p, p + 6)[0] == s[p + 0]);
            assert(false);
        }
    };
    assert(!match_at(s, p, "us"@)) by {
        if match_at(s, p, "us"@) {
            assert(s.subrange(p, p + 2)[0] == s[p + 0]);
            assert(s.subrange(p, p + 6)[0] == s[p + 0]);
            assert(false);
        }
    };
    assert(match_at(s, p, "millis"@));
}

/// With `msec` at `p` and the word `and` right after it, the resolver
/// yields `Millis`.
proof fn lemma_preand_millis_msec(s: Seq<char>, p: int)
    requires
        0 <= p,
        p + 7 <= s.len(),
        s.subrange(p, p + 4) == "msec"@,
        s[p + 4] == 'a',
        s[p + 5] == 'n',
        s[p + 6] == 'd',
    ensures
        resolve_unit(s, p) == Some((Unit::Millis, p + 4)),
{
    reveal_strlit("months");
    reveal_strlit("month");
    reveal_strlit("mths");
    reveal_strlit("mth");
    reveal_strlit("M");
    reveal_strlit("days");
    reveal_strlit("day");
    reveal_strlit("dys");
    reveal_strlit("dy");
    reveal_strlit("d");
    reveal_strlit("D");
    reveal_strlit("weeks");
    reveal_strlit("week");
    reveal_strlit("wks");
    reveal_strlit("wk");
    reveal_strlit("w");
    reveal_strlit("W");
    reveal_strlit("years");
    reveal_strlit("year");
    reveal_strlit("yrs");
    reveal_strlit("yr");
    reveal_strlit("y");
    reveal_strlit("Y");
    reveal_strlit("nanos");
    reveal_strlit("nsec");
    reveal_strlit("ns");
    reveal_strlit("micros");
    reveal_strlit("usec");
    reveal_strlit("us");
    reveal_strlit("millis");
    reveal_strlit("msec");
    reveal_strlit("ms");
    reveal_strlit("seconds");
    reveal_strlit("second");
    reveal_strlit("secs");
    reveal_strlit("sec");
    reveal_strlit("s");
    reveal_strlit("minutes");
    reveal_strlit("minute");
    reveal_strlit("mins");
    reveal_strlit("min");
    reveal_strlit("m");
    reveal_strlit("hours");
    reveal_strlit("hour");
    reveal_strlit("hrs");
    reveal_strlit("hr");
    reveal_strlit("h");
    reveal_strlit("H");
    assert(!match_at(s, p, "months"@)) by {
        if match_at(s, p, "months"@) {
            assert(s.subrange(p, p + 6)[1] == s[p + 1]);
            assert(s.subrange(p, p + 4)[1] == s[p + 1]);
            assert(false);
        }
    };
    assert(!match_at(s, p, "month"@)) by {
        if match_at(s, p, "month"@) {
            assert(s.subrange(p, p + 5)[1] == s[p + 1]);
            assert(s.subrange(p, p + 4)[1] == s[p + 1]);
            assert(false);
        }
    };
    assert(!match_at(s, p, "mths"@)) by {
        if match_at(s, p, "mths"@) {
            assert(s.subrange(p, p + 4)[1] == s[p + 1]);
            assert(s.subrange(p, p + 4)[1] == s[p + 1]);
            assert(false);
        }
    };
    assert(!match_at(s, p, "mth"@)) by {
        if match_at(s, p, "mth"@) {
            assert(s.subrange(p, p + 3)[1] == s[p + 1]);
            assert(s.subrange(p, p + 4)[1] == s[p + 1]);
            assert(false);
        }
    };
    assert(!match_at(s, p, "M"@)) by {
        if match_at(s, p, "M"@) {
            assert(s.subrange(p, p + 1)[0] == s[p + 0]);
            assert(s.subrange(p, p + 4)[0] == s[p + 0]);
            assert(false);
        }
    };
    assert(!match_at(s, p, "days"@)) by {
        if match_at(s, p, "days"@) {
            assert(s.subrange(p, p + 4)[0] == s[p + 0]);
            assert(s.subrange(p, p + 4)[0] == s[p + 0]);
            assert(false);
        }
    };
    assert(!match_at(s, p, "day"@)) by {
        if match_at(s, p, "day"@) {
            assert(s.subrange(p, p + 3)[0] == s[p + 0]);
            assert(s.subrange(p, p + 4)[0] == s[p + 0]);
            assert(false);
        }
    };
    assert(!match_at(s, p, "dys"@)) by {
        if match_at(s, p, "dys"@) {
            assert(s.subrange(p, p + 3)[0] == s[p + 0]);
            assert(s.subrange(p, p + 4)[0] == s[p + 0]);
            assert(false);
        }
    };
    assert(!match_at(s, p, "dy"@)) by {
        if match_at(s, p, "dy"@) {
            assert(s.subrange(p, p + 2)[0] == s[p + 0]);
            assert(s.subrange(p, p + 4)[0] == s[p + 0]);
            assert(false);
        }
    };
    assert(!match_at(s, p, "d"@)) by {
        if match_at(s, p, "d"@) {
            assert(s.subrange(p, p + 1)[0] == s[p + 0]);
            assert(s.subrange(p, p + 4)[0] == s[p + 0]);
            assert(false);
        }
    };
    assert(!match_at(s, p, "D"@)) by {
        if match_at(s, p, "D"@) {
            assert(s.subrange(p, p + 1)[0] == s[p + 0]);
            assert(s.subrange(p, p + 4)[0] == s[p + 0]);
            assert(false);
        }
    };
    assert(!match_at(s, p, "weeks"@)) by {
        if match_at(s, p, "weeks"@) {
            assert(s.subrange(p, p + 5)[0] == s[p + 0]);
            assert(s.subrange(p, p + 4)[0] == s[p + 0]);
            assert(false);
        }
    };
    assert(!match_at(s, p, "week"@)) by {
        if match_at(s, p, "week"@) {
            assert(s.subrange(p, p + 4)[0] == s[p + 0]);
            assert(s.subrange(p, p + 4)[0] == s[p + 0]);
            assert(false);
        }
    };
    assert(!match_at(s, p, "wks"@)) by {
        if match_at(s, p, "wks"@) {
            assert(s.subrange(p, p + 3)[0] == s[p + 0]);
            assert(s.subrange(p, p + 4)[0] == s[p + 0]);
            assert(false);
        }
    };
    assert(!match_at(s, p, "wk"@)) by {
        if match_at(s, p, "wk"@) {
            assert(s.subrange(p, p + 2)[0] == s[p + 0]);
            assert(s.subrange(p, p + 4)[0] == s[p + 0]);
            assert(false);
        }
    };
    assert(!match_at(s, p, "w"@)) by {
        if match_at(s, p, "w"@) {
            assert(s.subrange(p, p + 1)[0] == s[p + 0]);
            assert(s.subrange(p, p + 4)[0] == s[p + 0]);
            assert(false);
        }
    };
    assert(!match_at(s, p, "W"@)) by {
        if match_at(s, p, "W"@) {
            assert(s.subrange(p, p + 1)[0] == s[p + 0]);
            assert(s.subrange(p, p + 4)[0] == s[p + 0]);
            assert(false);
        }
    };
    assert(!match_at(s, p, "years"@)) by {
        if match_at(s, p, "years"@) {
            assert(s.subrange(p, p + 5)[0] == s[p + 0]);
            assert(s.subrange(p, p + 4)[0] == s[p + 0]);
            assert(false);
        }
    };
    assert(!match_at(s, p, "year"@)) by {
        if match_at(s, p, "year"@) {
            assert(s.subrange(p, p + 4)[0] == s[p + 0]);
            assert(s.subrange(p, p + 4)[0] == s[p + 0]);
            assert(false);
        }
    };
    assert(!match_at(s, p, "yrs"@)) by {
        if match_at(s, p, "yrs"@) {
            assert(s.subrange(p, p + 3)[0] == s[p + 0]);
            assert(s.subrange(p, p + 4)[0] == s[p + 0]);
            assert(false);
        }
    };
    assert(!match_at(s, p, "yr"@)) by {
        if match_at(s, p, "yr"@) {
            assert(s.subrange(p, p + 2)[0] == s[p + 0]);
            assert(s.subrange(p, p + 4)[0] == s[p + 0]);
            assert(false);
        }
    };
    assert(!match_at(s, p, "y"@)) by {
        if match_at(s, p, "y"@) {
            assert(s.subrange(p, p + 1)[0] == s[p + 0]);
            assert(s.subrange(p, p + 4)[0] == s[p + 0]);
            assert(false);
        }
    };
    assert(!match_at(s, p, "Y"@)) by {
        if match_at(s, p, "Y"@) {
            assert(s.subrange(p, p + 1)[0] == s[p + 0]);
            assert(s.subrange(p, p + 4)[0] == s[p + 0]);
            assert(false);
        }
    };
    assert(!match_at(s, p, "nanos"@)) by {
        if match_at(s, p, "nanos"@) {
            assert(s.subrange(p, p + 5)[0] == s[p + 0]);
            assert(s.subrange(p, p + 4)[0] == s[p + 0]);
            assert(false);
        }
    };
    assert(!match_at(s, p, "nsec"@)) by {
        if match_at(s, p, "nsec"@) {
            assert(s.subrange(p, p + 4)[0] == s[p + 0]);
            assert(s.subrange(p, p + 4)[0] == s[p + 0]);
            assert(false);
        }
    };
    assert(!match_at(s, p, "ns"@)) by {
        if match_at(s, p, "ns"@) {
            assert(s.subrange(p, p + 2)[0] == s[p + 0]);
            assert(s.subrange(p, p + 4)[0] == s[p + 0]);
            assert(false);
        }
    };
    assert(!match_at(s, p, "micros"@)) by {
        if match_at(s, p, "micros"@) {
            assert(s.subrange(p, p + 6)[1] == s[p + 1]);
            assert(s.subrange(p, p + 4)[1] == s[p + 1]);
            assert(false);
        }
    };
    assert(!match_at(s, p, "usec"@)) by {
        if match_at(s, p, "usec"@) {
            assert(s.subrange(p, p + 4)[0] == s[p + 0]);
            assert(s.subrange(p, p + 4)[0] == s[p + 0]);
            assert(false);
        }
    };
    assert(!match_at(s, p, "us"@)) by {
        if match_at(s, p, "us"@) {
            assert(s.subrange(p, p + 2)[0] == s[p + 0]);
            assert(s.subrange(p, p + 4)[0] == s[p + 0]);
            assert(false);
        }
    };
    assert(!match_at(s, p, "millis"@)) by {
        if match_at(s, p, "millis"@) {
            assert(s.subrange(p, p + 6)[1] == s[p + 1]);
            assert(s.subrange(p, p + 4)[1] == s[p + 1]);
            assert(false);
        }
    };
    assert(match_at(s, p, "msec"@));
}

/// With `ms` at `p` and the word `and` right after it, the resolver
/// yields `Millis`.
proof fn lemma_preand_millis_ms(s: Seq<char>, p: int)
    requires
        0 <= p,
        p + 5 <= s.len(),
        s.subrange(p, p + 2) == "ms"@,
        s[p + 2] == 'a',
        s[p + 3] == 'n',
        s[p + 4] == 'd',
    ensures
        resolve_unit(s, p) == Some((Unit::Millis, p + 2)),
{
    reveal_strlit("months");
    reveal_strlit("month");
    reveal_strlit("mths");
    reveal_strlit("mth");
    reveal_strlit("M");
    reveal_strlit("days");
    reveal_strlit("day");
    reveal_strlit("dys");
    reveal_strlit("dy");
    reveal_strlit("d");
    reveal_strlit("D");
    reveal_strlit("weeks");
    reveal_strlit("week");
    reveal_strlit("wks");
    reveal_strlit("wk");
    reveal_strlit("w");
    reveal_strlit("W");
    reveal_strlit("years");
    reveal_strlit("year");
    reveal_strlit("yrs");
    reveal_strlit("yr");
    reveal_strlit("y");
    reveal_strlit("Y");
    reveal_strlit("nanos");
    reveal_strlit("nsec");
    reveal_strlit("ns");
    reveal_strlit("micros");
    reveal_strlit("usec");
    reveal_strlit("us");
    reveal_strlit("millis");
    reveal_strlit("msec");
    reveal_strlit("ms");
    reveal_strlit("seconds");
    reveal_strlit("second");
    reveal_strlit("secs");
    reveal_strlit("sec");
    reveal_strlit("s");
    reveal_strlit("minutes");
    reveal_strlit("minute");
    reveal_strlit("mins");
    reveal_strlit("min");
    reveal_strlit("m");
    reveal_strlit("hours");
    reveal_strlit("hour");
    reveal_strlit("hrs");
    reveal_strlit("hr");
    reveal_strlit("h");
    reveal_strlit("H");
    assert(!match_at(s, p, "months"@)) by {
        if match_at(s, p, "months"@) {
            assert(s.subrange(p, p + 6)[1] == s[p + 1]);
            assert(s.subrange(p, p + 2)[1] == s[p + 1]);
            assert(false);
        }
    };
    assert(!match_at(s, p, "month"@)) by {
        if match_at(s, p, "month"@) {
            assert(s.subrange(p, p + 5)[1] == s[p + 1]);
            assert(s.subrange(p, p + 2)[1] == s[p + 1]);
            assert(false);
        }
    };
    assert(!match_at(s, p, "mths"@)) by {
        if match_at(s, p, "mths"@) {
            assert(s.subrange(p, p + 4)[1] == s[p + 1]);
            assert(s.subrange(p, p + 2)[1] == s[p + 1]);
            assert(false);
        }
    };
    assert(!match_at(s, p, "mth"@)) by {
        if match_at(s, p, "mth"@) {
            assert(s.subrange(p, p + 3)[1] == s[p + 1]);
            assert(s.subrange(p, p + 2)[1] == s[p + 1]);
            assert(false);
        }
    };
    assert(!match_at(s, p, "M"@)) by {
        if match_at(s, p, "M"@) {
            assert(s.subrange(p, p + 1)[0] == s[p + 0]);
            assert(s.subrange(p, p + 2)[0] == s[p + 0]);
            assert(false);
        }
    };
    assert(!match_at(s, p, "days"@)) by {
        if match_at(s, p, "days"@) {
            assert(s.subrange(p, p + 4)[0] == s[p + 0]);
            assert(s.subrange(p, p + 2)[0] == s[p + 0]);
            assert(false);
        }
    };
    assert(!match_at(s, p, "day"@)) by {
        if match_at(s, p, "day"@) {
            assert(s.subrange(p, p + 3)[0] == s[p + 0]);
            assert(s.subrange(p, p + 2)[0] == s[p + 0]);
            assert(false);
        }
    };
    assert(!match_at(s, p, "dys"@)) by {
        if match_at(s, p, "dys"@) {
            assert(s.subrange(p, p + 3)[0] == s[p + 0]);
            assert(s.subrange(p, p + 2)[0] == s[p + 0]);
            assert(false);
        }
    };
    assert(!match_at(s, p, "dy"@)) by {
        if match_at(s, p, "dy"@) {
            assert(s.subrange(p, p + 2)[0] == s[p + 0]);
            assert(s.subrange(p, p + 2)[0] == s[p + 0]);
            assert(false);
        }
    };
    assert(!match_at(s, p, "d"@)) by {
        if match_at(s, p, "d"@) {
            assert(s.subrange(p, p + 1)[0] == s[p + 0]);
            assert(s.subrange(p, p + 2)[0] == s[p + 0]);
            assert(false);
        }
    };
    assert(!match_at(s, p, "D"@)) by {
        if match_at(s, p, "D"@) {
            assert(s.subrange(p, p + 1)[0] == s[p + 0]);
            assert(s.subrange(p, p + 2)[0] == s[p + 0]);
            assert(false);
        }
    };
    assert(!match_at(s, p, "weeks"@)) by {
        if match_at(s, p, "weeks"@) {
            assert(s.subrange(p, p + 5)[0] == s[p + 0]);
            assert(s.subrange(p, p + 2)[0] == s[p + 0]);
            assert(false);
        }
    };
    assert(!match_at(s, p, "week"@)) by {
        if match_at(s, p, "week"@) {
            assert(s.subrange(p, p + 4)[0] == s[p + 0]);
            assert(s.subrange(p, p + 2)[0] == s[p + 0]);
            assert(false);
        }
    };
    assert(!match_at(s, p, "wks"@)) by {
        if match_at(s, p, "wks"@) {
            assert(s.subrange(p, p + 3)[0] == s[p + 0]);
            assert(s.subrange(p, p + 2)[0] == s[p + 0]);
            assert(false);
        }
    };
    assert(!match_at(s, p, "wk"@)) by {
        if match_at(s, p, "wk"@) {
            assert(s.subrange(p, p + 2)[0] == s[p + 0]);
            assert(s.subrange(p, p + 2)[0] == s[p + 0]);
            assert(false);
        }
    };
    assert(!match_at(s, p, "w"@)) by {
        if match_at(s, p, "w"@) {
            assert(s.subrange(p, p + 1)[0] == s[p + 0]);
            assert(s.subrange(p, p + 2)[0] == s[p + 0]);
            assert(false);
        }
    };
    assert(!match_at(s, p, "W"@)) by {
        if match_at(s, p, "W"@) {
            assert(s.subrange(p, p + 1)[0] == s[p + 0]);
            assert(s.subrange(p, p + 2)[0] == s[p + 0]);
            assert(false);
        }
    };
    assert(!match_at(s, p, "years"@)) by {
        if match_at(s, p, "years"@) {
            assert(s.subrange(p, p + 5)[0] == s[p + 0]);
            assert(s.subrange(p, p + 2)[0] == s[p + 0]);
            assert(false);
        }
    };
    assert(!match_at(s, p, "year"@)) by {
        if match_at(s, p, "year"@) {
            assert(s.subrange(p, p + 4)[0] == s[p + 0]);
            assert(s.subrange(p, p + 2)[0] == s[p + 0]);
            assert(false);
        }
    };
    assert(!match_at(s, p, "yrs"@)) by {
        if match_at(s, p, "yrs"@) {
            assert(s.subrange(p, p + 3)[0] == s[p + 0]);
            assert(s.subrange(p, p + 2)[0] == s[p + 0]);
            assert(false);
        }
    };
    assert(!match_at(s, p, "yr"@)) by {
        if match_at(s, p, "yr"@) {
            assert(s.subrange(p, p + 2)[0] == s[p + 0]);
            assert(s.subrange(p, p + 2)[0] == s[p + 0]);
            assert(false);
        }
    };
    assert(!match_at(s, p, "y"@)) by {
        if match_at(s, p, "y"@) {
            assert(s.subrange(p, p + 1)[0] == s[p + 0]);
            assert(s.subrange(p, p + 2)[0] == s[p + 0]);
            assert(false);
        }
    };
    assert(!match_at(s, p, "Y"@)) by {
        if match_at(s, p, "Y"@) {
            assert(s.subrange(p, p + 1)[0] == s[p + 0]);
            assert(s.subrange(p, p + 2)[0] == s[p + 0]);
            assert(false);
        }
    };
    assert(!match_at(s, p, "nanos"@)) by {
        if match_at(s, p, "nanos"@) {
            assert(s.subrange(p, p + 5)[0] == s[p + 0]);
            assert(s.subrange(p, p + 2)[0] == s[p + 0]);
            assert(false);
        }
    };
    assert(!match_at(s, p, "nsec"@)) by {
        if match_at(s, p, "nsec"@) {
            assert(s.subrange(p, p + 4)[0] == s[p + 0]);
            assert(s.subrange(p, p + 2)[0] == s[p + 0]);
            assert(false);
        }
    };
    assert(!match_at(s, p, "ns"@)) by {
        if match_at(s, p, "ns"@) {
            assert(s.subrange(p, p + 2)[0] == s[p + 0]);
            assert(s.subrange(p, p + 2)[0] == s[p + 0]);
            assert(false);
        }
    };
    assert(!match_at(s, p, "micros"@)) by {
        if match_at(s, p, "micros"@) {
            assert(s.subrange(p, p + 6)[1] == s[p + 1]);
            assert(s.subrange(p, p + 2)[1] == s[p + 1]);
            assert(false);
        }
    };
    assert(!match_at(s, p, "usec"@)) by {
        if match_at(s, p, "usec"@) {
            assert(s.subrange(p, p + 4)[0] == s[p + 0]);
            assert(s.subrange(p, p + 2)[0] == s[p + 0]);
            assert(false);
        }
    };
    assert(!match_at(s, p, "us"@)) by {
        if match_at(s, p, "us"@) {
            assert(s.subrange(p, p + 2)[0] == s[p + 0]);
            assert(s.subrange(p, p + 2)[0] == s[p + 0]);
            assert(false);
        }
    };
    assert(!match_at(s, p, "millis"@)) by {
        if match_at(s, p, "millis"@) {
            assert(s.subrange(p, p + 6)[1] == s[p + 1]);
            assert(s.subrange(p, p + 2)[1] == s[p + 1]);
            assert(false);
        }
    };
    assert(!match_at(s, p, "msec"@)) by {
        if match_at(s, p, "msec"@) {
            assert(s.subrange(p, p + 4)[2] == s[p + 2]);
            assert(false);
        }
    };
    assert(match_at(s, p, "ms"@));
}

/// With `seconds` at `p` and the word `and` right after it, the resolver
/// yields `Seconds`.
proof fn lemma_preand_seconds_seconds(s: Seq<char>, p: int)
    requires
        0 <= p,
        p + 10 <= s.len(),
        s.subrange(p, p + 7) == "seconds"@,
        s[p + 7] == 'a',
        s[p + 8] == 'n',
        s[p + 9] == 'd',
    ensures
        resolve_unit(s, p) == Some((Unit::Seconds, p + 7)),
{
    reveal_strlit("months");
    reveal_strlit("month");
    reveal_strlit("mths");
    reveal_strlit("mth");
    reveal_strlit("M");
    reveal_strlit("days");
    reveal_strlit("day");
    reveal_strlit("dys");
    reveal_strlit("dy");
    reveal_strlit("d");
    reveal_strlit("D");
    reveal_strlit("weeks");
    reveal_strlit("week");
    reveal_strlit("wks");
    reveal_strlit("wk");
    reveal_strlit("w");
    reveal_strlit("W");
    reveal_strlit("years");
    reveal_strlit("year");
    reveal_strlit("yrs");
    reveal_strlit("yr");
    reveal_strlit("y");
    reveal_strlit("Y");
    reveal_strlit("nanos");
    reveal_strlit("nsec");
    reveal_strlit("ns");
    reveal_strlit("micros");
    reveal_strlit("usec");
    reveal_strlit("us");
    reveal_strlit("millis");
    reveal_strlit("msec");
    reveal_strlit("ms");
    reveal_strlit("seconds");
    reveal_strlit("second");
    reveal_strlit("secs");
    reveal_strlit("sec");
    reveal_strlit("s");
    reveal_strlit("minutes");
    reveal_strlit("minute");
    reveal_strlit("mins");
    reveal_strlit("min");
    reveal_strlit("m");
    reveal_strlit("hours");
    reveal_strlit("hour");
    reveal_strlit("hrs");
    reveal_strlit("hr");
    reveal_strlit("h");
    reveal_strlit("H");
    assert(!match_at(s, p, "months"@)) by {
        if match_at(s, p, "months"@) {
            assert(s.subrange(p, p + 6)[0] == s[p + 0]);
            assert(s.subrange(p, p + 7)[0] == s[p + 0]);
            assert(false);
        }
    };
    assert(!match_at(s, p, "month"@)) by {
        if match_at(s, p, "month"@) {
            assert(s.subrange(p, p + 5)[0] == s[p + 0]);
            assert(s.subrange(p, p + 7)[0] == s[p + 0]);
            assert(false);
        }
    };
    assert(!match_at(s, p, "mths"@)) by {
        if match_at(s, p, "mths"@) {
            assert(s.subrange(p, p + 4)[0] == s[p + 0]);
            assert(s.subrange(p, p + 7)[0] == s[p + 0]);
            assert(false);
        }
    };
    assert(!match_at(s, p, "mth"@)) by {
        if match_at(s, p, "mth"@) {
            assert(s.subrange(p, p + 3)[0] == s[p + 0]);
            assert(s.subrange(p, p + 7)[0] == s[p + 0]);
            assert(false);
        }
    };
    assert(!match_at(s, p, "M"@)) by {
        if match_at(s, p, "M"@) {
            assert(s.subrange(p, p + 1)[0] == s[p + 0]);
            assert(s.subrange(p, p + 7)[0] == s[p + 0]);
            assert(false);
        }
    };
    assert(!match_at(s, p, "days"@)) by {
        if match_at(s, p, "days"@) {
            assert(s.subrange(p, p + 4)[0] == s[p + 0]);
            assert(s.subrange(p, p + 7)[0] == s[p + 0]);
            assert(false);
        }
    };
    assert(!match_at(s, p, "day"@)) by {
        if match_at(s, p, "day"@) {
            assert(s.subrange(p, p + 3)[0] == s[p + 0]);
            assert(s.subrange(p, p + 7)[0] == s[p + 0]);
            assert(false);
        }
    };
    assert(!match_at(s, p, "dys"@)) by {
        if match_at(s, p, "dys"@) {
            assert(s.subrange(p, p + 3)[0] == s[p + 0]);
            assert(s.subrange(p, p + 7)[0] == s[p + 0]);
            assert(false);
        }
    };
    assert(!match_at(s, p, "dy"@)) by {
        if match_at(s, p, "dy"@) {
            assert(s.subrange(p, p + 2)[0] == s[p + 0]);
            assert(s.subrange(p, p + 7)[0] == s[p + 0]);
            assert(false);
        }
    };
    assert(!match_at(s, p, "d"@)) by {
        if match_at(s, p, "d"@) {
            assert(s.subrange(p, p + 1)[0] == s[p + 0]);
            assert(s.subrange(p, p + 7)[0] == s[p + 0]);
            assert(false);
        }
    };
    assert(!match_at(s, p, "D"@)) by {
        if match_at(s, p, "D"@) {
            assert(s.subrange(p, p + 1)[0] == s[p + 0]);
            assert(s.subrange(p, p + 7)[0] == s[p + 0]);
            assert(false);
        }
    };
    assert(!match_at(s, p, "weeks"@)) by {
        if match_at(s, p, "weeks"@) {
            assert(s.subrange(p, p + 5)[0] == s[p + 0]);
            assert(s.subrange(p, p + 7)[0] == s[p + 0]);
            assert(false);
        }
    };
    assert(!match_at(s, p, "week"@)) by {
        if match_at(s, p, "week"@) {
            assert(s.subrange(p, p + 4)[0] == s[p + 0]);
            assert(s.subrange(p, p + 7)[0] == s[p + 0]);
            assert(false);
        }
    };
    assert(!match_at(s, p, "wks"@)) by {
        if match_at(s, p, "wks"@) {
            assert(s.subrange(p, p + 3)[0] == s[p + 0]);
            assert(s.subrange(p, p + 7)[0] == s[p + 0]);
            assert(false);
        }
    };
    assert(!match_at(s, p, "wk"@)) by {
        if match_at(s, p, "wk"@) {
            assert(s.subrange(p, p + 2)[0] == s[p + 0]);
            assert(s.subrange(p, p + 7)[0] == s[p + 0]);
            assert(false);
        }
    };
    assert(!match_at(s, p, "w"@)) by {
        if match_at(s, p, "w"@) {
            assert(s.subrange(p, p + 1)[0] == s[p + 0]);
            assert(s.subrange(p, p + 7)[0] == s[p + 0]);
            assert(false);
        }
    };
    assert(!match_at(s, p, "W"@)) by {
        if match_at(s, p, "W"@) {
            assert(s.subrange(p, p + 1)[0] == s[p + 0]);
            assert(s.subrange(p, p + 7)[0] == s[p + 0]);
            assert(false);
        }
    };
    assert(!match_at(s, p, "years"@)) by {
        if match_at(s, p, "years"@) {
            assert(s.subrange(p, p + 5)[0] == s[p + 0]);
            assert(s.subrange(p, p + 7)[0] == s[p + 0]);
            assert(false);
        }
    };
    assert(!match_at(s, p, "year"@)) by {
        if match_at(s, p, "year"@) {
            assert(s.subrange(p, p + 4)[0] == s[p + 0]);
            assert(s.subrange(p, p + 7)[0] == s[p + 0]);
            assert(false);
        }
    };
    assert(!match_at(s, p, "yrs"@)) by {
        if match_at(s, p, "yrs"@) {
            assert(s.subrange(p, p + 3)[0] == s[p + 0]);
            assert(s.subrange(p, p + 7)[0] == s[p + 0]);
            assert(false);
        }
    };
    assert(!match_at(s, p, "yr"@)) by {
        if match_at(s, p, "yr"@) {
            assert(s.subrange(p, p + 2)[0] == s[p + 0]);
            assert(s.subrange(p, p + 7)[0] == s[p + 0]);
            assert(false);
        }
    };
    assert(!match_at(s, p, "y"@)) by {
        if match_at(s, p, "y"@) {
            assert(s.subrange(p, p + 1)[0] == s[p + 0]);
            assert(s.subrange(p, p + 7)[0] == s[p + 0]);
            assert(false);
        }
    };
    assert(!match_at(s, p, "Y"@)) by {
        if match_at(s, p, "Y"@) {
            assert(s.subrange(p, p + 1)[0] == s[p + 0]);
            assert(s.subrange(p, p + 7)[0] == s[p + 0]);
            assert(false);
        }
    };
    assert(!match_at(s, p, "nanos"@)) by {
        if match_at(s, p, "nanos"@) {
            assert(s.subrange(p, p + 5)[0] == s[p + 0]);
            assert(s.subrange(p, p + 7)[0] == s[p + 0]);
            assert(false);
        }
    };
    assert(!match_at(s, p, "nsec"@)) by {
        if match_at(s, p, "nsec"@) {
            assert(s.subrange(p, p + 4)[0] == s[p + 0]);
            assert(s.subrange(p, p + 7)[0] == s[p + 0]);
            assert(false);
        }
    };
    assert(!match_at(s, p, "ns"@)) by {
        if match_at(s, p, "ns"@) {
            assert(s.subrange(p, p + 2)[0] == s[p + 0]);
            assert(s.subrange(p, p + 7)[0] == s[p + 0]);
            assert(false);
        }
    };
    assert(!match_at(s, p, "micros"@)) by {
        if match_at(s, p, "micros"@) {
            assert(s.subrange(p, p + 6)[0] == s[p + 0]);
            assert(s.subrange(p, p + 7)[0] == s[p + 0]);
            assert(false);
        }
    };
    assert(!match_at(s, p, "usec"@)) by {
        if match_at(s, p, "usec"@) {
            assert(s.subrange(p, p + 4)[0] == s[p + 0]);
            assert(s.subrange(p, p + 7)[0] == s[p + 0]);
            assert(false);
        }
    };
    assert(!match_at(s, p, "us"@)) by {
        if match_at(s, p, "us"@) {
            assert(s.subrange(p, p + 2)[0] == s[p + 0]);
            assert(s.subrange(p, p + 7)[0] == s[p + 0]);
            assert(false);
        }
    };
    assert(!match_at(s, p, "millis"@)) by {
        if match_at(s, p, "millis"@) {
            assert(s.subrange(p, p + 6)[0] == s[p + 0]);
            assert(s.subrange(p, p + 7)[0] == s[p + 0]);
            assert(false);
        }
    };
    assert(!match_at(s, p, "msec"@)) by {
        if match_at(s, p, "msec"@) {
            assert(s.subrange(p, p + 4)[0] == s[p + 0]);
            assert(s.subrange(p, p + 7)[0] == s[p + 0]);
            assert(false);
        }
    };
    assert(!match_at(s, p, "ms"@)) by {
        if match_at(s, p, "ms"@) {
            assert(s.subrange(p, p + 2)[0] == s[p + 0]);
            assert(s.subrange(p, p + 7)[0] == s[p + 0]);
            assert(false);
        }
    };
    assert(match_at(s, p, "seconds"@));
}

/// With `second` at `p` and the word `and` right after it, the resolver
/// yields `Seconds`.
proof fn lemma_preand_seconds_second(s: Seq<char>, p: int)
    requires
        0 <= p,
        p + 9 <= s.len(),
        s.subrange(p, p + 6) == "second"@,
        s[p + 6] == 'a',
        s[p + 7] == 'n',
        s[p + 8] == 'd',
    ensures
        resolve_unit(s, p) == Some((Unit::Seconds, p + 6)),
{
    reveal_strlit("months");
    reveal_strlit("month");
    reveal_strlit("mths");
    reveal_strlit("mth");
    reveal_strlit("M");
    reveal_strlit("days");
    reveal_strlit("day");
    reveal_strlit("dys");
    reveal_strlit("dy");
    reveal_strlit("d");
    reveal_strlit("D");
    reveal_strlit("weeks");
    reveal_strlit("week");
    reveal_strlit("wks");
    reveal_strlit("wk");
    reveal_strlit("w");
    reveal_strlit("W");
    reveal_strlit("years");
    reveal_strlit("year");
    reveal_strlit("yrs");
    reveal_strlit("yr");
    reveal_strlit("y");
    reveal_strlit("Y");
    reveal_strlit("nanos");
    reveal_strlit("nsec");
    reveal_strlit("ns");
    reveal_strlit("micros");
    reveal_strlit("usec");
    reveal_strlit("us");
    reveal_strlit("millis");
    reveal_strlit("msec");
    reveal_strlit("ms");
    reveal_strlit("seconds");
    reveal_strlit("second");
    reveal_strlit("secs");
    reveal_strlit("sec");
    reveal_strlit("s");
    reveal_strlit("minutes");
    reveal_strlit("minute");
    reveal_strlit("mins");
    reveal_strlit("min");
    reveal_strlit("m");
    reveal_strlit("hours");
    reveal_strlit("hour");
    reveal_strlit("hrs");
    reveal_strlit("hr");
    reveal_strlit("h");
    reveal_strlit("H");
    assert(!match_at(s, p, "months"@)) by {
        if match_at(s, p, "months"@) {
            assert(s.subrange(p, p + 6)[0] == s[p + 0]);
            assert(s.subrange(p, p + 6)[0] == s[p + 0]);
            assert(false);
        }
    };
    assert(!match_at(s, p, "month"@)) by {
        if match_at(s, p, "month"@) {
            assert(s.subrange(p, p + 5)[0] == s[p + 0]);
            assert(s.subrange(p, p + 6)[0] == s[p + 0]);
            assert(false);
        }
    };
    assert(!match_at(s, p, "mths"@)) by {
        if match_at(s, p, "mths"@) {
            assert(s.subrange(p, p + 4)[0] == s[p + 0]);
            assert(s.subrange(p, p + 6)[0] == s[p + 0]);
            assert(false);
        }
    };
    assert(!match_at(s, p, "mth"@)) by {
        if match_at(s, p, "mth"@) {
            assert(s.subrange(p, p + 3)[0] == s[p + 0]);
            assert(s.subrange(p, p + 6)[0] == s[p + 0]);
            assert(false);
        }
    };
    assert(!match_at(s, p, "M"@)) by {
        if match_at(s, p, "M"@) {
            assert(s.subrange(p, p + 1)[0] == s[p + 0]);
            assert(s.subrange(p, p + 6)[0] == s[p + 0]);
            assert(false);
        }
    };
    assert(!match_at(s, p, "days"@)) by {
        if match_at(s, p, "days"@) {
            assert(s.subrange(p, p + 4)[0] == s[p + 0]);
            assert(s.subrange(p, p + 6)[0] == s[p + 0]);
            assert(false);
        }
    };
    assert(!match_at(s, p, "day"@)) by {
        if match_at(s, p, "day"@) {
            assert(s.subrange(p, p + 3)[0] == s[p + 0]);
            assert(s.subrange(p, p + 6)[0] == s[p + 0]);
            assert(false);
        }
    };
    assert(!match_at(s, p, "dys"@)) by {
        if match_at(s, p, "dys"@) {
            assert(s.subrange(p, p + 3)[0] == s[p + 0]);
            assert(s.subrange(p, p + 6)[0] == s[p + 0]);
            assert(false);
        }
    };
    assert(!match_at(s, p, "dy"@)) by {
        if match_at(s, p, "dy"@) {
            assert(s.subrange(p, p + 2)[0] == s[p + 0]);
            assert(s.subrange(p, p + 6)[0] == s[p + 0]);
            assert(false);
        }
    };
    assert(!match_at(s, p, "d"@)) by {
        if match_at(s, p, "d"@) {
            assert(s.subrange(p, p + 1)[0] == s[p + 0]);
            assert(s.subrange(p, p + 6)[0] == s[p + 0]);
            assert(false);
        }
    };
    assert(!match_at(s, p, "D"@)) by {
        if match_at(s, p, "D"@) {
            assert(s.subrange(p, p + 1)[0] == s[p + 0]);
            assert(s.subrange(p, p + 6)[0] == s[p + 0]);
            assert(false);
        }
    };
    assert(!match_at(s, p, "weeks"@)) by {
        if match_at(s, p, "weeks"@) {
            assert(s.subrange(p, p + 5)[0] == s[p + 0]);
            assert(s.subrange(p, p + 6)[0] == s[p + 0]);
            assert(false);
        }
    };
    assert(!match_at(s, p, "week"@)) by {
        if match_at(s, p, "week"@) {
            assert(s.subrange(p, p + 4)[0] == s[p + 0]);
            assert(s.subrange(p, p + 6)[0] == s[p + 0]);
            assert(false);
        }
    };
    assert(!match_at(s, p, "wks"@)) by {
        if match_at(s, p, "wks"@) {
            assert(s.subrange(p, p + 3)[0] == s[p + 0]);
            assert(s.subrange(p, p + 6)[0] == s[p + 0]);
            assert(false);
        }
    };
    assert(!match_at(s, p, "wk"@)) by {
        if match_at(s, p, "wk"@) {
            assert(s.subrange(p, p + 2)[0] == s[p + 0]);
            assert(s.subrange(p, p + 6)[0] == s[p + 0]);
            assert(false);
        }
    };
    assert(!match_at(s, p, "w"@)) by {
        if match_at(s, p, "w"@) {
            assert(s.subrange(p, p + 1)[0] == s[p + 0]);
            assert(s.subrange(p, p + 6)[0] == s[p + 0]);
            assert(false);
        }
    };
    assert(!match_at(s, p, "W"@)) by {
        if match_at(s, p, "W"@) {
            assert(s.subrange(p, p + 1)[0] == s[p + 0]);
            assert(s.subrange(p, p + 6)[0] == s[p + 0]);
            assert(false);
        }
    };
    assert(!match_at(s, p, "years"@)) by {
        if match_at(s, p, "years"@) {
            assert(s.subrange(p, p + 5)[0] == s[p + 0]);
            assert(s.subrange(p, p + 6)[0] == s[p + 0]);
            assert(false);
        }
    };
    assert(!match_at(s, p, "year"@)) by {
        if match_at(s, p, "year"@) {
            assert(s.subrange(p, p + 4)[0] == s[p + 0]);
            assert(s.subrange(p, p + 6)[0] == s[p + 0]);
            assert(false);
        }
    };
    assert(!match_at(s, p, "yrs"@)) by {
        if match_at(s, p, "yrs"@) {
            assert(s.subrange(p, p + 3)[0] == s[p + 0]);
            assert(s.subrange(p, p + 6)[0] == s[p + 0]);
            assert(false);
        }
    };
    assert(!match_at(s, p, "yr"@)) by {
        if match_at(s, p, "yr"@) {
            assert(s.subrange(p, p + 2)[0] == s[p + 0]);
            assert(s.subrange(p, p + 6)[0] == s[p + 0]);
            assert(false);
        }
    };
    assert(!match_at(s, p, "y"@)) by {
        if match_at(s, p, "y"@) {
            assert(s.subrange(p, p + 1)[0] == s[p + 0]);
            assert(s.subrange(p, p + 6)[0] == s[p + 0]);
            assert(false);
        }
    };
    assert(!match_at(s, p, "Y"@)) by {
        if match_at(s, p, "Y"@) {
            assert(s.subrange(p, p + 1)[0] == s[p + 0]);
            assert(s.subrange(p, p + 6)[0] == s[p + 0]);
            assert(false);
        }
    };
    assert(!match_at(s, p, "nanos"@)) by {
        if match_at(s, p, "nanos"@) {
            assert(s.subrange(p, p + 5)[0] == s[p + 0]);
            assert(s.subrange(p, p + 6)[0] == s[p + 0]);
            assert(false);
        }
    };
    assert(!match_at(s, p, "nsec"@)) by {
        if match_at(s, p, "nsec"@) {
            assert(s.subrange(p, p + 4)[0] == s[p + 0]);
            assert(s.subrange(p, p + 6)[0] == s[p + 0]);
            assert(false);
        }
    };
    assert(!match_at(s, p, "ns"@)) by {
        if match_at(s, p, "ns"@) {
            assert(s.subrange(p, p + 2)[0] == s[p + 0]);
            assert(s.subrange(p, p + 6)[0] == s[p + 0]);
            assert(false);
        }
    };
    assert(!match_at(s, p, "micros"@)) by {
        if match_at(s, p, "micros"@) {
            assert(s.subrange(p, p + 6)[0] == s[p + 0]);
            assert(s.subrange(p, p + 6)[0] == s[p + 0]);
            assert(false);
        }
    };
    assert(!match_at(s, p, "usec"@)) by {
        if match_at(s, p, "usec"@) {
            assert(s.subrange(p, p + 4)[0] == s[p + 0]);
            assert(s.subrange(p, p + 6)[0] == s[p + 0]);
            assert(false);
        }
    };
    assert(!match_at(s, p, "us"@)) by {
        if match_at(s, p, "us"@) {
            assert(s.subrange(p, p + 2)[0] == s[p + 0]);
            assert(s.subrange(p, p + 6)[0] == s[p + 0]);
            assert(false);
        }
    };
    assert(!match_at(s, p, "millis"@)) by {
        if match_at(s, p, "millis"@) {
            assert(s.subrange(p, p + 6)[0] == s[p + 0]);
            assert(s.subrange(p, p + 6)[0] == s[p + 0]);
            assert(false);
        }
    };
    assert(!match_at(s, p, "msec"@)) by {
        if match_at(s, p, "msec"@) {
            assert(s.subrange(p, p + 4)[0] == s[p + 0]);
            assert(s.subrange(p, p + 6)[0] == s[p + 0]);
            assert(false);
        }
    };
    assert(!match_at(s, p, "ms"@)) by {
        if match_at(s, p, "ms"@) {
            assert(s.subrange(p, p + 2)[0] == s[p + 0]);
            assert(s.subrange(p, p + 6)[0] == s[p + 0]);
            assert(false);
        }
    };
    assert(!match_at(s, p, "seconds"@)) by {
        if match_at(s, p, "seconds"@) {
            assert(s.subrange(p, p + 7)[6] == s[p + 6]);
            assert(false);
        }
    };
    assert(match_at(s, p, "second"@));
}

/// With `secs` at `p` and the word `and` right after it, the resolver
/// yields `Seconds`.
proof fn lemma_preand_seconds_secs(s: Seq<char>, p: int)
    requires
        0 <= p,
        p + 7 <= s.len(),
        s.subrange(p, p + 4) == "secs"@,
        s[p + 4] == 'a',
        s[p + 5] == 'n',
        s[p + 6] == 'd',
    ensures
        resolve_unit(s, p) == Some((Unit::Seconds, p + 4)),
{
    reveal_strlit("months");
    reveal_strlit("month");
    reveal_strlit("mths");
    reveal_strlit("mth");
    reveal_strlit("M");
    reveal_strlit("days");
    reveal_strlit("day");
    reveal_strlit("dys");
    reveal_strlit("dy");
    reveal_strlit("d");
    reveal_strlit("D");
    reveal_strlit("weeks");
    reveal_strlit("week");
    reveal_strlit("wks");
    reveal_strlit("wk");
    reveal_strlit("w");
    reveal_strlit("W");
    reveal_strlit("years");
    reveal_strlit("year");
    reveal_strlit("yrs");
    reveal_strlit("yr");
    reveal_strlit("y");
    reveal_strlit("Y");
    reveal_strlit("nanos");
    reveal_strlit("nsec");
    reveal_strlit("ns");
    reveal_strlit("micros");
    reveal_strlit("usec");
    reveal_strlit("us");
    reveal_strlit("millis");
    reveal_strlit("msec");
    reveal_strlit("ms");
    reveal_strlit("seconds");
    reveal_strlit("second");
    reveal_strlit("secs");
    reveal_strlit("sec");
    reveal_strlit("s");
    reveal_strlit("minutes");
    reveal_strlit("minute");
    reveal_strlit("mins");
    reveal_strlit("min");
    reveal_strlit("m");
    reveal_strlit("hours");
    reveal_strlit("hour");
    reveal_strlit("hrs");
    reveal_strlit("hr");
    reveal_strlit("h");
    reveal_strlit("H");
    assert(!match_at(s, p, "months"@)) by {
        if match_at(s, p, "months"@) {
            assert(s.subrange(p, p + 6)[0] == s[p + 0]);
            assert(s.subrange(p, p + 4)[0] == s[p + 0]);
            assert(false);
        }
    };
    assert(!match_at(s, p, "month"@)) by {
        if match_at(s, p, "month"@) {
            assert(s.subrange(p, p + 5)[0] == s[p + 0]);
            assert(s.subrange(p, p + 4)[0] == s[p + 0]);
            assert(false);
        }
    };
    assert(!match_at(s, p, "mths"@)) by {
        if match_at(s, p, "mths"@) {
            assert(s.subrange(p, p + 4)[0] == s[p + 0]);
            assert(s.subrange(p, p + 4)[0] == s[p + 0]);
            assert(false);
        }
    };
    assert(!match_at(s, p, "mth"@)) by {
        if match_at(s, p, "mth"@) {
            assert(s.subrange(p, p + 3)[0] == s[p + 0]);
            assert(s.subrange(p, p + 4)[0] == s[p + 0]);
            assert(false);
        }
    };
    assert(!match_at(s, p, "M"@)) by {
        if match_at(s, p, "M"@) {
            assert(s.subrange(p, p + 1)[0] == s[p + 0]);
            assert(s.subrange(p, p + 4)[0] == s[p + 0]);
            assert(false);
        }
    };
    assert(!match_at(s, p, "days"@)) by {
        if match_at(s, p, "days"@) {
            assert(s.subrange(p, p + 4)[0] == s[p + 0]);
            assert(s.subrange(p, p + 4)[0] == s[p + 0]);
            assert(false);
        }
    };
    assert(!match_at(s, p, "day"@)) by {
        if match_at(s, p, "day"@) {
            assert(s.subrange(p, p + 3)[0] == s[p + 0]);
            assert(s.subrange(p, p + 4)[0] == s[p + 0]);
            assert(false);
        }
    };
    assert(!match_at(s, p, "dys"@)) by {
        if match_at(s, p, "dys"@) {
            assert(s.subrange(p, p + 3)[0] == s[p + 0]);
            assert(s.subrange(p, p + 4)[0] == s[p + 0]);
            assert(false);
        }
    };
    assert(!match_at(s, p, "dy"@)) by {
        if match_at(s, p, "dy"@) {
            assert(s.subrange(p, p + 2)[0] == s[p + 0]);
            assert(s.subrange(p, p + 4)[0] == s[p + 0]);
            assert(false);
        }
    };
    assert(!match_at(s, p, "d"@)) by {
        if match_at(s, p, "d"@) {
            assert(s.subrange(p, p + 1)[0] == s[p + 0]);
            assert(s.subrange(p, p + 4)[0] == s[p + 0]);
            assert(false);
        }
    };
    assert(!match_at(s, p, "D"@)) by {
        if match_at(s, p, "D"@) {
            assert(s.subrange(p, p + 1)[0] == s[p + 0]);
            assert(s.subrange(p, p + 4)[0] == s[p + 0]);
            assert(false);
        }
    };
    assert(!match_at(s, p, "weeks"@)) by {
        if match_at(s, p, "weeks"@) {
            assert(s.subrange(p, p + 5)[0] == s[p + 0]);
            assert(s.subrange(p, p + 4)[0] == s[p + 0]);
            assert(false);
        }
    };
    assert(!match_at(s, p, "week"@)) by {
        if match_at(s, p, "week"@) {
            assert(s.subrange(p, p + 4)[0] == s[p + 0]);
            assert(s.subrange(p, p + 4)[0] == s[p + 0]);
            assert(false);
        }
    };
    assert(!match_at(s, p, "wks"@)) by {
        if match_at(s, p, "wks"@) {
            assert(s.subrange(p, p + 3)[0] == s[p + 0]);
            assert(s.subrange(p, p + 4)[0] == s[p + 0]);
            assert(false);
        }
    };
    assert(!match_at(s, p, "wk"@)) by {
        if match_at(s, p, "wk"@) {
            assert(s.subrange(p, p + 2)[0] == s[p + 0]);
            assert(s.subrange(p, p + 4)[0] == s[p + 0]);
            assert(false);
        }
    };
    assert(!match_at(s, p, "w"@)) by {
        if match_at(s, p, "w"@) {
            assert(s.subrange(p, p + 1)[0] == s[p + 0]);
            assert(s.subrange(p, p + 4)[0] == s[p + 0]);
            assert(false);
        }
    };
    assert(!match_at(s, p, "W"@)) by {
        if match_at(s, p, "W"@) {
            assert(s.subrange(p, p + 1)[0] == s[p + 0]);
            assert(s.subrange(p, p + 4)[0] == s[p + 0]);
            assert(false);
        }
    };
    assert(!match_at(s, p, "years"@)) by {
        if match_at(s, p, "years"@) {
            assert(s.subrange(p, p + 5)[0] == s[p + 0]);
            assert(s.subrange(p, p + 4)[0] == s[p + 0]);
            assert(false);
        }
    };
    assert(!match_at(s, p, "year"@)) by {
        if match_at(s, p, "year"@) {
            assert(s.subrange(p, p + 4)[0] == s[p + 0]);
            assert(s.subrange(p, p + 4)[0] == s[p + 0]);
            assert(false);
        }
    };
    assert(!match_at(s, p, "yrs"@)) by {
        if match_at(s, p, "yrs"@) {
            assert(s.subrange(p, p + 3)[0] == s[p + 0]);
            assert(s.subrange(p, p + 4)[0] == s[p + 0]);
            assert(false);
        }
    };
    assert(!match_at(s, p, "yr"@)) by {
        if match_at(s, p, "yr"@) {
            assert(s.subrange(p, p + 2)[0] == s[p + 0]);
            assert(s.subrange(p, p + 4)[0] == s[p + 0]);
            assert(false);
        }
    };
    assert(!match_at(s, p, "y"@)) by {
        if match_at(s, p, "y"@) {
            assert(s.subrange(p, p + 1)[0] == s[p + 0]);
            assert(s.subrange(p, p + 4)[0] == s[p + 0]);
            assert(false);
        }
    };
    assert(!match_at(s, p, "Y"@)) by {
        if match_at(s, p, "Y"@) {
            assert(s.subrange(p, p + 1)[0] == s[p + 0]);
            assert(s.subrange(p, p + 4)[0] == s[p + 0]);
            assert(false);
        }
    };
    assert(!match_at(s, p, "nanos"@)) by {
        if match_at(s, p, "nanos"@) {
            assert(s.subrange(p, p + 5)[0] == s[p + 0]);
            assert(s.subrange(p, p + 4)[0] == s[p + 0]);
            assert(false);
        }
    };
    assert(!match_at(s, p, "nsec"@)) by {
        if match_at(s, p, "nsec"@) {
            assert(s.subrange(p, p + 4)[0] == s[p + 0]);
            assert(s.subrange(p, p + 4)[0] == s[p + 0]);
            assert(false);
        }
    };
    assert(!match_at(s, p, "ns"@)) by {
        if match_at(s, p, "ns"@) {
            assert(s.subrange(p, p + 2)[0] == s[p + 0]);
            assert(s.subrange(p, p + 4)[0] == s[p + 0]);
            assert(false);
        }
    };
    assert(!match_at(s, p, "micros"@)) by {
        if match_at(s, p, "micros"@) {
            assert(s.subrange(p, p + 6)[0] == s[p + 0]);
            assert(s.subrange(p, p + 4)[0] == s[p + 0]);
            assert(false);
        }
    };
    assert(!match_at(s, p, "usec"@)) by {
        if match_at(s, p, "usec"@) {
            assert(s.subrange(p, p + 4)[0] == s[p + 0]);
            assert(s.subrange(p, p + 4)[0] == s[p + 0]);
            assert(false);
        }
    };
    assert(!match_at(s, p, "us"@)) by {
        if match_at(s, p, "us"@) {
            assert(s.subrange(p, p + 2)[0] == s[p + 0]);
            assert(s.subrange(p, p + 4)[0] == s[p + 0]);
            assert(false);
        }
    };
    assert(!match_at(s, p, "millis"@)) by {
        if match_at(s, p, "millis"@) {
            assert(s.subrange(p, p + 6)[0] == s[p + 0]);
            assert(s.subrange(p, p + 4)[0] == s[p + 0]);
            assert(false);
        }
    };
    assert(!match_at(s, p, "msec"@)) by {
        if match_at(s, p, "msec"@) {
            assert(s.subrange(p, p + 4)[0] == s[p + 0]);
            assert(s.subrange(p, p + 4)[0] == s[p + 0]);
            assert(false);
        }
    };
    assert(!match_at(s, p, "ms"@)) by {
        if match_at(s, p, "ms"@) {
            assert(s.subrange(p, p + 2)[0] == s[p + 0]);
            assert(s.subrange(p, p + 4)[0] == s[p + 0]);
            assert(false);
        }
    };
    assert(!match_at(s, p, "seconds"@)) by {
        if match_at(s, p, "seconds"@) {
            assert(s.subrange(p, p + 7)[3] == s[p + 3]);
            assert(s.subrange(p, p + 4)[3] == s[p + 3]);
            assert(false);
        }
    };
    assert(!match_at(s, p, "second"@)) by {
        if match_at(s, p, "second"@) {
            assert(s.subrange(p, p + 6)[3] == s[p + 3]);
            assert(s.subrange(p, p + 4)[3] == s[p + 3]);
            assert(false);
        }
    };
    assert(match_at(s, p, "secs"@));
}

/// With `sec` at `p` and the word `and` right after it, the resolver
/// yields `Seconds`.
proof fn lemma_preand_seconds_sec(s: Seq<char>, p: int)
    requires
        0 <= p,
        p + 6 <= s.len(),
        s.subrange(p, p + 3) == "sec"@,
        s[p + 3] == 'a',
        s[p + 4] == 'n',
        s[p + 5] == 'd',
    ensures
        resolve_unit(s, p) == Some((Unit::Seconds, p + 3)),
{
    reveal_strlit("months");
    reveal_strlit("month");
    reveal_strlit("mths");
    reveal_strlit("mth");
    reveal_strlit("M");
    reveal_strlit("days");
    reveal_strlit("day");
    reveal_strlit("dys");
    reveal_strlit("dy");
    reveal_strlit("d");
    reveal_strlit("D");
    reveal_strlit("weeks");
    reveal_strlit("week");
    reveal_strlit("wks");
    reveal_strlit("wk");
    reveal_strlit("w");
    reveal_strlit("W");
    reveal_strlit("years");
    reveal_strlit("year");
    reveal_strlit("yrs");
    reveal_strlit("yr");
    reveal_strlit("y");
    reveal_strlit("Y");
    reveal_strlit("nanos");
    reveal_strlit("nsec");
    reveal_strlit("ns");
    reveal_strlit("micros");
    reveal_strlit("usec");
    reveal_strlit("us");
    reveal_strlit("millis");
    reveal_strlit("msec");
    reveal_strlit("ms");
    reveal_strlit("seconds");
    reveal_strlit("second");
    reveal_strlit("secs");
    reveal_strlit("sec");
    reveal_strlit("s");
    reveal_strlit("minutes");
    reveal_strlit("minute");
    reveal_strlit("mins");
    reveal_strlit("min");
    reveal_strlit("m");
    reveal_strlit("hours");
    reveal_strlit("hour");
    reveal_strlit("hrs");
    reveal_strlit("hr");
    reveal_strlit("h");
    reveal_strlit("H");
    assert(!match_at(s, p, "months"@)) by {
        if match_at(s, p, "months"@) {
            assert(s.subrange(p, p + 6)[0] == s[p + 0]);
            assert(s.subrange(p, p + 3)[0] == s[p + 0]);
            assert(false);
        }
    };
    assert(!match_at(s, p, "month"@)) by {
        if match_at(s, p, "month"@) {
            assert(s.subrange(p, p + 5)[0] == s[p + 0]);
            assert(s.subrange(p, p + 3)[0] == s[p + 0]);
            assert(false);
        }
    };
    assert(!match_at(s, p, "mths"@)) by {
        if match_at(s, p, "mths"@) {
            assert(s.subrange(p, p + 4)[0] == s[p + 0]);
            assert(s.subrange(p, p + 3)[0] == s[p + 0]);
            assert(false);
        }
    };
    assert(!match_at(s, p, "mth"@)) by {
        if match_at(s, p, "mth"@) {
            assert(s.subrange(p, p + 3)[0] == s[p + 0]);
            assert(s.subrange(p, p + 3)[0] == s[p + 0]);
            assert(false);
        }
    };
    assert(!match_at(s, p, "M"@)) by {
        if match_at(s, p, "M"@) {
            assert(s.subrange(p, p + 1)[0] == s[p + 0]);
            assert(s.subrange(p, p + 3)[0] == s[p + 0]);
            assert(false);
        }
    };
    assert(!match_at(s, p, "days"@)) by {
        if match_at(s, p, "days"@) {
            assert(s.subrange(p, p + 4)[0] == s[p + 0]);
            assert(s.subrange(p, p + 3)[0] == s[p + 0]);
            assert(false);
        }
    };
    assert(!match_at(s, p, "day"@)) by {
        if match_at(s, p, "day"@) {
            assert(s.subrange(p, p + 3)[0] == s[p + 0]);
            assert(s.subrange(p, p + 3)[0] == s[p + 0]);
            assert(false);
        }
    };
    assert(!match_at(s, p, "dys"@)) by {
        if match_at(s, p, "dys"@) {
            assert(s.subrange(p, p + 3)[0] == s[p + 0]);
            assert(s.subrange(p, p + 3)[0] == s[p + 0]);
            assert(false);
        }
    };
    assert(!match_at(s, p, "dy"@)) by {
        if match_at(s, p, "dy"@) {
            assert(s.subrange(p, p + 2)[0] == s[p + 0]);
            assert(s.subrange(p, p + 3)[0] == s[p + 0]);
            assert(false);
        }
    };
    assert(!match_at(s, p, "d"@)) by {
        if match_at(s, p, "d"@) {
            assert(s.subrange(p, p + 1)[0] == s[p + 0]);
            assert(s.subrange(p, p + 3)[0] == s[p + 0]);
            assert(false);
        }
    };
    assert(!match_at(s, p, "D"@)) by {
        if match_at(s, p, "D"@) {
            assert(s.subrange(p, p + 1)[0] == s[p + 0]);
            assert(s.subrange(p, p + 3)[0] == s[p + 0]);
            assert(false);
        }
    };
    assert(!match_at(s, p, "weeks"@)) by {
        if match_at(s, p, "weeks"@) {
            assert(s.subrange(p, p + 5)[0] == s[p + 0]);
            assert(s.subrange(p, p + 3)[0] == s[p + 0]);
            assert(false);
        }
    };
    assert(!match_at(s, p, "week"@)) by {
        if match_at(s, p, "week"@) {
            assert(s.subrange(p, p + 4)[0] == s[p + 0]);
            assert(s.subrange(p, p + 3)[0] == s[p + 0]);
            assert(false);
        }
    };
    assert(!match_at(s, p, "wks"@)) by {
        if match_at(s, p, "wks"@) {
            assert(s.subrange(p, p + 3)[0] == s[p + 0]);
            assert(s.subrange(p, p + 3)[0] == s[p + 0]);
            assert(false);
        }
    };
    assert(!match_at(s, p, "wk"@)) by {
        if match_at(s, p, "wk"@) {
            assert(s.subrange(p, p + 2)[0] == s[p + 0]);
            assert(s.subrange(p, p + 3)[0] == s[p + 0]);
            assert(false);
        }
    };
    assert(!match_at(s, p, "w"@)) by {
        if match_at(s, p, "w"@) {
            assert(s.subrange(p, p + 1)[0] == s[p + 0]);
            assert(s.subrange(p, p + 3)[0] == s[p + 0]);
            assert(false);
        }
    };
    assert(!match_at(s, p, "W"@)) by {
        if match_at(s, p, "W"@) {
            assert(s.subrange(p, p + 1)[0] == s[p + 0]);
            assert(s.subrange(p, p + 3)[0] == s[p + 0]);
            assert(false);
        }
    };
    assert(!match_at(s, p, "years"@)) by {
        if match_at(s, p, "years"@) {
            assert(s.subrange(p, p + 5)[0] == s[p + 0]);
            assert(s.subrange(p, p + 3)[0] == s[p + 0]);
            assert(false);
        }
    };
    assert(!match_at(s, p, "year"@)) by {
        if match_at(s, p, "year"@) {
            assert(s.subrange(p, p + 4)[0] == s[p + 0]);
            assert(s.subrange(p, p + 3)[0] == s[p + 0]);
            assert(false);
        }
    };
    assert(!match_at(s, p, "yrs"@)) by {
        if match_at(s, p, "yrs"@) {
            assert(s.subrange(p, p + 3)[0] == s[p + 0]);
            assert(s.subrange(p, p + 3)[0] == s[p + 0]);
            assert(false);
        }
    };
    assert(!match_at(s, p, "yr"@)) by {
        if match_at(s, p, "yr"@) {
            assert(s.subrange(p, p + 2)[0] == s[p + 0]);
            assert(s.subrange(p, p + 3)[0] == s[p + 0]);
            assert(false);
        }
    };
    assert(!match_at(s, p, "y"@)) by {
        if match_at(s, p, "y"@) {
            assert(s.subrange(p, p + 1)[0] == s[p + 0]);
            assert(s.subrange(p, p + 3)[0] == s[p + 0]);
            assert(false);
        }
    };
    assert(!match_at(s, p, "Y"@)) by {
        if match_at(s, p, "Y"@) {
            assert(s.subrange(p, p + 1)[0] == s[p + 0]);
            assert(s.subrange(p, p + 3)[0] == s[p + 0]);
            assert(false);
        }
    };
    assert(!match_at(s, p, "nanos"@)) by {
        if match_at(s, p, "nanos"@) {
            assert(s.subrange(p, p + 5)[0] == s[p + 0]);
            assert(s.subrange(p, p + 3)[0] == s[p + 0]);
            assert(false);
        }
    };
    assert(!match_at(s, p, "nsec"@)) by {
        if match_at(s, p, "nsec"@) {
            assert(s.subrange(p, p + 4)[0] == s[p + 0]);
            assert(s.subrange(p, p + 3)[0] == s[p + 0]);
            assert(false);
        }
    };
    assert(!match_at(s, p, "ns"@)) by {
        if match_at(s, p, "ns"@) {
            assert(s.subrange(p, p + 2)[0] == s[p + 0]);
            assert(s.subrange(p, p + 3)[0] == s[p + 0]);
            assert(false);
        }
    };
    assert(!match_at(s, p, "micros"@)) by {
        if match_at(s, p, "micros"@) {
            assert(s.subrange(p, p + 6)[0] == s[p + 0]);
            assert(s.subrange(p, p + 3)[0] == s[p + 0]);
            assert(false);
        }
    };
    assert(!match_at(s, p, "usec"@)) by {
        if match_at(s, p, "usec"@) {
            assert(s.subrange(p, p + 4)[0] == s[p + 0]);
            assert(s.subrange(p, p + 3)[0] == s[p + 0]);
            assert(false);
        }
    };
    assert(!match_at(s, p, "us"@)) by {
        if match_at(s, p, "us"@) {
            assert(s.subrange(p, p + 2)[0] == s[p + 0]);
            assert(s.subrange(p, p + 3)[0] == s[p + 0]);
            assert(false);
        }
    };
    assert(!match_at(s, p, "millis"@)) by {
        if match_at(s, p, "millis"@) {
            assert(s.subrange(p, p + 6)[0] == s[p + 0]);
            assert(s.subrange(p, p + 3)[0] == s[p + 0]);
            assert(false);
        }
    };
    assert(!match_at(s, p, "msec"@)) by {
        if match_at(s, p, "msec"@) {
            assert(s.subrange(p, p + 4)[0] == s[p + 0]);
            assert(s.subrange(p, p + 3)[0] == s[p + 0]);
            assert(false);
        }
    };
    assert(!match_at(s, p, "ms"@)) by {
        if match_at(s, p, "ms"@) {
            assert(s.subrange(p, p + 2)[0] == s[p + 0]);
            assert(s.subrange(p, p + 3)[0] == s[p + 0]);
            assert(false);
        }
    };
    assert(!match_at(s, p, "seconds"@)) by {
        if match_at(s, p, "seconds"@) {
            assert(s.subrange(p, p + 7)[3] == s[p + 3]);
            assert(false);
        }
    };
    assert(!match_at(s, p, "second"@)) by {
        if match_at(s, p, "second"@) {
            assert(s.subrange(p, p + 6)[3] == s[p + 3]);
            assert(false);
        }
    };
    assert(!match_at(s, p, "secs"@)) by {
        if match_at(s, p, "secs"@) {
            assert(s.subrange(p, p + 4)[3] == s[p + 3]);
            assert(false);
        }
    };
    assert(match_at(s, p, "sec"@));
}

/// With `s` at `p` and the word `and` right after it, the resolver
/// yields `Seconds`.
proof fn lemma_preand_seconds_s(s: Seq<char>, p: int)
    requires
        0 <= p,
        p + 4 <= s.len(),
        s.subrange(p, p + 1) == "s"@,
        s[p + 1] == 'a',
        s[p + 2] == 'n',
        s[p + 3] == 'd',
    ensures
        resolve_unit(s, p) == Some((Unit::Seconds, p + 1)),
{
    reveal_strlit("months");
    reveal_strlit("month");
    reveal_strlit("mths");
    reveal_strlit("mth");
    reveal_strlit("M");
    reveal_strlit("days");
    reveal_strlit("day");
    reveal_strlit("dys");
    reveal_strlit("dy");
    reveal_strlit("d");
    reveal_strlit("D");
    reveal_strlit("weeks");
    reveal_strlit("week");
    reveal_strlit("wks");
    reveal_strlit("wk");
    reveal_strlit("w");
    reveal_strlit("W");
    reveal_strlit("years");
    reveal_strlit("year");
    reveal_strlit("yrs");
    reveal_strlit("yr");
    reveal_strlit("y");
    reveal_strlit("Y");
    reveal_strlit("nanos");
    reveal_strlit("nsec");
    reveal_strlit("ns");
    reveal_strlit("micros");
    reveal_strlit("usec");
    reveal_strlit("us");
    reveal_strlit("millis");
    reveal_strlit("msec");
    reveal_strlit("ms");
    reveal_strlit("seconds");
    reveal_strlit("second");
    reveal_strlit("secs");
    reveal_strlit("sec");
    reveal_strlit("s");
    reveal_strlit("minutes");
    reveal_strlit("minute");
    reveal_strlit("mins");
    reveal_strlit("min");
    reveal_strlit("m");
    reveal_strlit("hours");
    reveal_strlit("hour");
    reveal_strlit("hrs");
    reveal_strlit("hr");
    reveal_strlit("h");
    reveal_strlit("H");
    assert(!match_at(s, p, "months"@)) by {
        if match_at(s, p, "months"@) {
            assert(s.subrange(p, p + 6)[0] == s[p + 0]);
            assert(s.subrange(p, p + 1)[0] == s[p + 0]);
            assert(false);
        }
    };
    assert(!match_at(s, p, "month"@)) by {
        if match_at(s, p, "month"@) {
            assert(s.subrange(p, p + 5)[0] == s[p + 0]);
            assert(s.subrange(p, p + 1)[0] == s[p + 0]);
            assert(false);
        }
    };
    assert(!match_at(s, p, "mths"@)) by {
        if match_at(s, p, "mths"@) {
            assert(s.subrange(p, p + 4)[0] == s[p + 0]);
            assert(s.subrange(p, p + 1)[0] == s[p + 0]);
            assert(false);
        }
    };
    assert(!match_at(s, p, "mth"@)) by {
        if match_at(s, p, "mth"@) {
            assert(s.subrange(p, p + 3)[0] == s[p + 0]);
            assert(s.subrange(p, p + 1)[0] == s[p + 0]);
            assert(false);
        }
    };
    assert(!match_at(s, p, "M"@)) by {
        if match_at(s, p, "M"@) {
            assert(s.subrange(p, p + 1)[0] == s[p + 0]);
            assert(s.subrange(p, p + 1)[0] == s[p + 0]);
            assert(false);
        }
    };
    assert(!match_at(s, p, "days"@)) by {
        if match_at(s, p, "days"@) {
            assert(s.subrange(p, p + 4)[0] == s[p + 0]);
            assert(s.subrange(p, p + 1)[0] == s[p + 0]);
            assert(false);
        }
    };
    assert(!match_at(s, p, "day"@)) by {
        if match_at(s, p, "day"@) {
            assert(s.subrange(p, p + 3)[0] == s[p + 0]);
            assert(s.subrange(p, p + 1)[0] == s[p + 0]);
            assert(false);
        }
    };
    assert(!match_at(s, p, "dys"@)) by {
        if match_at(s, p, "dys"@) {
            assert(s.subrange(p, p + 3)[0] == s[p + 0]);
            assert(s.subrange(p, p + 1)[0] == s[p + 0]);
            assert(false);
        }
    };
    assert(!match_at(s, p, "dy"@)) by {
        if match_at(s, p, "dy"@) {
            assert(s.subrange(p, p + 2)[0] == s[p + 0]);
            assert(s.subrange(p, p + 1)[0] == s[p + 0]);
            assert(false);
        }
    };
    assert(!match_at(s, p, "d"@)) by {
        if match_at(s, p, "d"@) {
            assert(s.subrange(p, p + 1)[0] == s[p + 0]);
            assert(s.subrange(p, p + 1)[0] == s[p + 0]);
            assert(false);
        }
    };
    assert(!match_at(s, p, "D"@)) by {
        if match_at(s, p, "D"@) {
            assert(s.subrange(p, p + 1)[0] == s[p + 0]);
            assert(s.subrange(p, p + 1)[0] == s[p + 0]);
            assert(false);
        }
    };
    assert(!match_at(s, p, "weeks"@)) by {
        if match_at(s, p, "weeks"@) {
            assert(s.subrange(p, p + 5)[0] == s[p + 0]);
            assert(s.subrange(p, p + 1)[0] == s[p + 0]);
            assert(false);
        }
    };
    assert(!match_at(s, p, "week"@)) by {
        if match_at(s, p, "week"@) {
            assert(s.subrange(p, p + 4)[0] == s[p + 0]);
            assert(s.subrange(p, p + 1)[0] == s[p + 0]);
            assert(false);
        }
    };
    assert(!match_at(s, p, "wks"@)) by {
        if match_at(s, p, "wks"@) {
            assert(s.subrange(p, p + 3)[0] == s[p + 0]);
            assert(s.subrange(p, p + 1)[0] == s[p + 0]);
            assert(false);
        }
    };
    assert(!match_at(s, p, "wk"@)) by {
        if match_at(s, p, "wk"@) {
            assert(s.subrange(p, p + 2)[0] == s[p + 0]);
            assert(s.subrange(p, p + 1)[0] == s[p + 0]);
            assert(false);
        }
    };
    assert(!match_at(s, p, "w"@)) by {
        if match_at(s, p, "w"@) {
            assert(s.subrange(p, p + 1)[0] == s[p + 0]);
            assert(s.subrange(p, p + 1)[0] == s[p + 0]);
            assert(false);
        }
    };
    assert(!match_at(s, p, "W"@)) by {
        if match_at(s, p, "W"@) {
            assert(s.subrange(p, p + 1)[0] == s[p + 0]);
            assert(s.subrange(p, p + 1)[0] == s[p + 0]);
            assert(false);
        }
    };
    assert(!match_at(s, p, "years"@)) by {
        if match_at(s, p, "years"@) {
            assert(s.subrange(p, p + 5)[0] == s[p + 0]);
            assert(s.subrange(p, p + 1)[0] == s[p + 0]);
            assert(false);
        }
    };
    assert(!match_at(s, p, "year"@)) by {
        if match_at(s, p, "year"@) {
            assert(s.subrange(p, p + 4)[0] == s[p + 0]);
            assert(s.subrange(p, p + 1)[0] == s[p + 0]);
            assert(false);
        }
    };
    assert(!match_at(s, p, "yrs"@)) by {
        if match_at(s, p, "yrs"@) {
            assert(s.subrange(p, p + 3)[0] == s[p + 0]);
            assert(s.subrange(p, p + 1)[0] == s[p + 0]);
            assert(false);
        }
    };
    assert(!match_at(s, p, "yr"@)) by {
        if match_at(s, p, "yr"@) {
            assert(s.subrange(p, p + 2)[0] == s[p + 0]);
            assert(s.subrange(p, p + 1)[0] == s[p + 0]);
            assert(false);
        }
    };
    assert(!match_at(s, p, "y"@)) by {
        if match_at(s, p, "y"@) {
            assert(s.subrange(p, p + 1)[0] == s[p + 0]);
            assert(s.subrange(p, p + 1)[0] == s[p + 0]);
            assert(false);
        }
    };
    assert(!match_at(s, p, "Y"@)) by {
        if match_at(s, p, "Y"@) {
            assert(s.subrange(p, p + 1)[0] == s[p + 0]);
            assert(s.subrange(p, p + 1)[0] == s[p + 0]);
            assert(false);
        }
    };
    assert(!match_at(s, p, "nanos"@)) by {
        if match_at(s, p, "nanos"@) {
            assert(s.subrange(p, p + 5)[0] == s[p + 0]);
            assert(s.subrange(p, p + 1)[0] == s[p + 0]);
            assert(false);
        }
    };
    assert(!match_at(s, p, "nsec"@)) by {
        if match_at(s, p, "nsec"@) {
            assert(s.subrange(p, p + 4)[0] == s[p + 0]);
            assert(s.subrange(p, p + 1)[0] == s[p + 0]);
            assert(false);
        }
    };
    assert(!match_at(s, p, "ns"@)) by {
        if match_at(s, p, "ns"@) {
            assert(s.subrange(p, p + 2)[0] == s[p + 0]);
            assert(s.subrange(p, p + 1)[0] == s[p + 0]);
            assert(false);
        }
    };
    assert(!match_at(s, p, "micros"@)) by {
        if match_at(s, p, "micros"@) {
            assert(s.subrange(p, p + 6)[0] == s[p + 0]);
            assert(s.subrange(p, p + 1)[0] == s[p + 0]);
            assert(false);
        }
    };
    assert(!match_at(s, p, "usec"@)) by {
        if match_at(s, p, "usec"@) {
            assert(s.subrange(p, p + 4)[0] == s[p + 0]);
            assert(s.subrange(p, p + 1)[0] == s[p + 0]);
            assert(false);
        }
    };
    assert(!match_at(s, p, "us"@)) by {
        if match_at(s, p, "us"@) {
            assert(s.subrange(p, p + 2)[0] == s[p + 0]);
            assert(s.subrange(p, p + 1)[0] == s[p + 0]);
            assert(false);
        }
    };
    assert(!match_at(s, p, "millis"@)) by {
        if match_at(s, p, "millis"@) {
            assert(s.subrange(p, p + 6)[0] == s[p + 0]);
            assert(s.subrange(p, p + 1)[0] == s[p + 0]);
            assert(false);
        }
    };
    assert(!match_at(s, p, "msec"@)) by {
        if match_at(s, p, "msec"@) {
            assert(s.subrange(p, p + 4)[0] == s[p + 0]);
            assert(s.subrange(p, p + 1)[0] == s[p + 0]);
            assert(false);
        }
    };
    assert(!match_at(s, p, "ms"@)) by {
        if match_at(s, p, "ms"@) {
            assert(s.subrange(p, p + 2)[0] == s[p + 0]);
            assert(s.subrange(p, p + 1)[0] == s[p + 0]);
            assert(false);
        }
    };
    assert(!match_at(s, p, "seconds"@)) by {
        if match_at(s, p, "seconds"@) {
            assert(s.subrange(p, p + 7)[1] == s[p + 1]);
            assert(false);
        }
    };
    assert(!match_at(s, p, "second"@)) by {
        if match_at(s, p, "second"@) {
            assert(s.subrange(p, p + 6)[1] == s[p + 1]);
            assert(false);
        }
    };
    assert(!match_at(s, p, "secs"@)) by {
        if match_at(s, p, "secs"@) {
            assert(s.subrange(p, p + 4)[1] == s[p + 1]);
            assert(false);
        }
    };
    assert(!match_at(s, p, "sec"@)) by {
        if match_at(s, p, "sec"@) {
            assert(s.subrange(p, p + 3)[1] == s[p + 1]);
            assert(false);
        }
    };
    assert(match_at(s, p, "s"@));
}

/// With `minutes` at `p` and the word `and` right after it, the resolver
/// yields `Minutes`.
proof fn lemma_preand_minutes_minutes(s: Seq<char>, p: int)
    requires
        0 <= p,
        p + 10 <= s.len(),
        s.subrange(p, p + 7) == "minutes"@,
        s[p + 7] == 'a',
        s[p + 8] == 'n',
        s[p + 9] == 'd',
    ensures
        resolve_unit(s, p) == Some((Unit::Minutes, p + 7)),
{
    reveal_strlit("months");
    reveal_strlit("month");
    reveal_strlit("mths");
    reveal_strlit("mth");
    reveal_strlit("M");
    reveal_strlit("days");
    reveal_strlit("day");
    reveal_strlit("dys");
    reveal_strlit("dy");
    reveal_strlit("d");
    reveal_strlit("D");
    reveal_strlit("weeks");
    reveal_strlit("week");
    reveal_strlit("wks");
    reveal_strlit("wk");
    reveal_strlit("w");
    reveal_strlit("W");
    reveal_strlit("years");
    reveal_strlit("year");
    reveal_strlit("yrs");
    reveal_strlit("yr");
    reveal_strlit("y");
    reveal_strlit("Y");
    reveal_strlit("nanos");
    reveal_strlit("nsec");
    reveal_strlit("ns");
    reveal_strlit("micros");
    reveal_strlit("usec");
    reveal_strlit("us");
    reveal_strlit("millis");
    reveal_strlit("msec");
    reveal_strlit("ms");
    reveal_strlit("seconds");
    reveal_strlit("second");
    reveal_strlit("secs");
    reveal_strlit("sec");
    reveal_strlit("s");
    reveal_strlit("minutes");
    reveal_strlit("minute");
    reveal_strlit("mins");
    reveal_strlit("min");
    reveal_strlit("m");
    reveal_strlit("hours");
    reveal_strlit("hour");
    reveal_strlit("hrs");
    reveal_strlit("hr");
    reveal_strlit("h");
    reveal_strlit("H");
    assert(!match_at(s, p, "months"@)) by {
        if match_at(s, p, "months"@) {
            assert(s.subrange(p, p + 6)[1] == s[p + 1]);
            assert(s.subrange(p, p + 7)[1] == s[p + 1]);
            assert(false);
        }
    };
    assert(!match_at(s, p, "month"@)) by {
        if match_at(s, p, "month"@) {
            assert(s.subrange(p, p + 5)[1] == s[p + 1]);
            assert(s.subrange(p, p + 7)[1] == s[p + 1]);
            assert(false);
        }
    };
    assert(!match_at(s, p, "mths"@)) by {
        if match_at(s, p, "mths"@) {
            assert(s.subrange(p, p + 4)[1] == s[p + 1]);
            assert(s.subrange(p, p + 7)[1] == s[p + 1]);
            assert(false);
        }
    };
    assert(!match_at(s, p, "mth"@)) by {
        if match_at(s, p, "mth"@) {
            assert(s.subrange(p, p + 3)[1] == s[p + 1]);
            assert(s.subrange(p, p + 7)[1] == s[p + 1]);
            assert(false);
        }
    };
    assert(!match_at(s, p, "M"@)) by {
        if match_at(s, p, "M"@) {
            assert(s.subrange(p, p + 1)[0] == s[p + 0]);
            assert(s.subrange(p, p + 7)[0] == s[p + 0]);
            assert(false);
        }
    };
    assert(!match_at(s, p, "days"@)) by {
        if match_at(s, p, "days"@) {
            assert(s.subrange(p, p + 4)[0] == s[p + 0]);
            assert(s.subrange(p, p + 7)[0] == s[p + 0]);
            assert(false);
        }
    };
    assert(!match_at(s, p, "day"@)) by {
        if match_at(s, p, "day"@) {
            assert(s.subrange(p, p + 3)[0] == s[p + 0]);
            assert(s.subrange(p, p + 7)[0] == s[p + 0]);
            assert(false);
        }
    };
    assert(!match_at(s, p, "dys"@)) by {
        if match_at(s, p, "dys"@) {
            assert(s.subrange(p, p + 3)[0] == s[p + 0]);
            assert(s.subrange(p, p + 7)[0] == s[p + 0]);
            assert(false);
        }
    };
    assert(!match_at(s, p, "dy"@)) by {
        if match_at(s, p, "dy"@) {
            assert(s.subrange(p, p + 2)[0] == s[p + 0]);
            assert(s.subrange(p, p + 7)[0] == s[p + 0]);
            assert(false);
        }
    };
    assert(!match_at(s, p, "d"@)) by {
        if match_at(s, p, "d"@) {
            assert(s.subrange(p, p + 1)[0] == s[p + 0]);
            assert(s.subrange(p, p + 7)[0] == s[p + 0]);
            assert(false);
        }
    };
    assert(!match_at(s, p, "D"@)) by {
        if match_at(s, p, "D"@) {
            assert(s.subrange(p, p + 1)[0] == s[p + 0]);
            assert(s.subrange(p, p + 7)[0] == s[p + 0]);
            assert(false);
        }
    };
    assert(!match_at(s, p, "weeks"@)) by {
        if match_at(s, p, "weeks"@) {
            assert(s.subrange(p, p + 5)[0] == s[p + 0]);
            assert(s.subrange(p, p + 7)[0] == s[p + 0]);
            assert(false);
        }
    };
    assert(!match_at(s, p, "week"@)) by {
        if match_at(s, p, "week"@) {
            assert(s.subrange(p, p + 4)[0] == s[p + 0]);
            assert(s.subrange(p, p + 7)[0] == s[p + 0]);
            assert(false);
        }
    };
    assert(!match_at(s, p, "wks"@)) by {
        if match_at(s, p, "wks"@) {
            assert(s.subrange(p, p + 3)[0] == s[p + 0]);
            assert(s.subrange(p, p + 7)[0] == s[p + 0]);
            assert(false);
        }
    };
    assert(!match_at(s, p, "wk"@)) by {
        if match_at(s, p, "wk"@) {
            assert(s.subrange(p, p + 2)[0] == s[p + 0]);
            assert(s.subrange(p, p + 7)[0] == s[p + 0]);
            assert(false);
        }
    };
    assert(!match_at(s, p, "w"@)) by {
        if match_at(s, p, "w"@) {
            assert(s.subrange(p, p + 1)[0] == s[p + 0]);
            assert(s.subrange(p, p + 7)[0] == s[p + 0]);
            assert(false);
        }
    };
    assert(!match_at(s, p, "W"@)) by {
        if match_at(s, p, "W"@) {
            assert(s.subrange(p, p + 1)[0] == s[p + 0]);
            assert(s.subrange(p, p + 7)[0] == s[p + 0]);
            assert(false);
        }
    };
    assert(!match_at(s, p, "years"@)) by {
        if match_at(s, p, "years"@) {
            assert(s.subrange(p, p + 5)[0] == s[p + 0]);
            assert(s.subrange(p, p + 7)[0] == s[p + 0]);
            assert(false);
        }
    };
    assert(!match_at(s, p, "year"@)) by {
        if match_at(s, p, "year"@) {
            assert(s.subrange(p, p + 4)[0] == s[p + 0]);
            assert(s.subrange(p, p + 7)[0] == s[p + 0]);
            assert(false);
        }
    };
    assert(!match_at(s, p, "yrs"@)) by {
        if match_at(s, p, "yrs"@) {
            assert(s.subrange(p, p + 3)[0] == s[p + 0]);
            assert(s.subrange(p, p + 7)[0] == s[p + 0]);
            assert(false);
        }
    };
    assert(!match_at(s, p, "yr"@)) by {
        if match_at(s, p, "yr"@) {
            assert(s.subrange(p, p + 2)[0] == s[p + 0]);
            assert(s.subrange(p, p + 7)[0] == s[p + 0]);
            assert(false);
        }
    };
    assert(!match_at(s, p, "y"@)) by {
        if match_at(s, p, "y"@) {
            assert(s.subrange(p, p + 1)[0] == s[p + 0]);
            assert(s.subrange(p, p + 7)[0] == s[p + 0]);
            assert(false);
        }
    };
    assert(!match_at(s, p, "Y"@)) by {
        if match_at(s, p, "Y"@) {
            assert(s.subrange(p, p + 1)[0] == s[p + 0]);
            assert(s.subrange(p, p + 7)[0] == s[p + 0]);
            assert(false);
        }
    };
    assert(!match_at(s, p, "nanos"@)) by {
        if match_at(s, p, "nanos"@) {
            assert(s.subrange(p, p + 5)[0] == s[p + 0]);
            assert(s.subrange(p, p + 7)[0] == s[p + 0]);
            assert(false);
        }
    };
    assert(!match_at(s, p, "nsec"@)) by {
        if match_at(s, p, "nsec"@) {
            assert(s.subrange(p, p + 4)[0] == s[p + 0]);
            assert(s.subrange(p, p + 7)[0] == s[p + 0]);
            assert(false);
        }
    };
    assert(!match_at(s, p, "ns"@)) by {
        if match_at(s, p, "ns"@) {
            assert(s.subrange(p, p + 2)[0] == s[p + 0]);
            assert(s.subrange(p, p + 7)[0] == s[p + 0]);
            assert(false);
        }
    };
    assert(!match_at(s, p, "micros"@)) by {
        if match_at(s, p, "micros"@) {
            assert(s.subrange(p, p + 6)[2] == s[p + 2]);
            assert(s.subrange(p, p + 7)[2] == s[p + 2]);
            assert(false);
        }
    };
    assert(!match_at(s, p, "usec"@)) by {
        if match_at(s, p, "usec"@) {
            assert(s.subrange(p, p + 4)[0] == s[p + 0]);
            assert(s.subrange(p, p + 7)[0] == s[p + 0]);
            assert(false);
        }
    };
    assert(!match_at(s, p, "us"@)) by {
        if match_at(s, p, "us"@) {
            assert(s.subrange(p, p + 2)[0] == s[p + 0]);
            assert(s.subrange(p, p + 7)[0] == s[p + 0]);
            assert(false);
        }
    };
    assert(!match_at(s, p, "millis"@)) by {
        if match_at(s, p, "millis"@) {
            assert(s.subrange(p, p + 6)[2] == s[p + 2]);
            assert(s.subrange(p, p + 7)[2] == s[p + 2]);
            assert(false);
        }
    };
    assert(!match_at(s, p, "msec"@)) by {
        if match_at(s, p, "msec"@) {
            assert(s.subrange(p, p + 4)[1] == s[p + 1]);
            assert(s.subrange(p, p + 7)[1] == s[p + 1]);
            assert(false);
        }
    };
    assert(!match_at(s, p, "ms"@)) by {
        if match_at(s, p, "ms"@) {
            assert(s.subrange(p, p + 2)[1] == s[p + 1]);
            assert(s.subrange(p, p + 7)[1] == s[p + 1]);
            assert(false);
        }
    };
    assert(!match_at(s, p, "seconds"@)) by {
        if match_at(s, p, "seconds"@) {
            assert(s.subrange(p, p + 7)[0] == s[p + 0]);
            assert(s.subrange(p, p + 7)[0] == s[p + 0]);
            assert(false);
        }
    };
    assert(!match_at(s, p, "second"@)) by {
        if match_at(s, p, "second"@) {
            assert(s.subrange(p, p + 6)[0] == s[p + 0]);
            assert(s.subrange(p, p + 7)[0] == s[p + 0]);
            assert(false);
        }
    };
    assert(!match_at(s, p, "secs"@)) by {
        if match_at(s, p, "secs"@) {
            assert(s.subrange(p, p + 4)[0] == s[p + 0]);
            assert(s.subrange(p, p + 7)[0] == s[p + 0]);
            assert(false);
        }
    };
    assert(!match_at(s, p, "sec"@)) by {
        if match_at(s, p, "sec"@) {
            assert(s.subrange(p, p + 3)[0] == s[p + 0]);
            assert(s.subrange(p, p + 7)[0] == s[p + 0]);
            assert(false);
        }
    };
    assert(!match_at(s, p, "s"@)) by {
        if match_at(s, p, "s"@) {
            assert(s.subrange(p, p + 1)[0] == s[p + 0]);
            assert(s.subrange(p, p + 7)[0] == s[p + 0]);
            assert(false);
        }
    };
    assert(match_at(s, p, "minutes"@));
}

/// With `minute` at `p` and the word `and` right after it, the resolver
/// yields `Minutes`.
proof fn lemma_preand_minutes_minute(s: Seq<char>, p: int)
    requires
        0 <= p,
        p + 9 <= s.len(),
        s.subrange(p, p + 6) == "minute"@,
        s[p + 6] == 'a',
        s[p + 7] == 'n',
        s[p + 8] == 'd',
    ensures
        resolve_unit(s, p) == Some((Unit::Minutes, p + 6)),
{
    reveal_strlit("months");
    reveal_strlit("month");
    reveal_strlit("mths");
    reveal_strlit("mth");
    reveal_strlit("M");
    reveal_strlit("days");
    reveal_strlit("day");
    reveal_strlit("dys");
    reveal_strlit("dy");
    reveal_strlit("d");
    reveal_strlit("D");
    reveal_strlit("weeks");
    reveal_strlit("week");
    reveal_strlit("wks");
    reveal_strlit("wk");
    reveal_strlit("w");
    reveal_strlit("W");
    reveal_strlit("years");
    reveal_strlit("year");
    reveal_strlit("yrs");
    reveal_strlit("yr");
    reveal_strlit("y");
    reveal_strlit("Y");
    reveal_strlit("nanos");
    reveal_strlit("nsec");
    reveal_strlit("ns");
    reveal_strlit("micros");
    reveal_strlit("usec");
    reveal_strlit("us");
    reveal_strlit("millis");
    reveal_strlit("msec");
    reveal_strlit("ms");
    reveal_strlit("seconds");
    reveal_strlit("second");
    reveal_strlit("secs");
    reveal_strlit("sec");
    reveal_strlit("s");
    reveal_strlit("minutes");
    reveal_strlit("minute");
    reveal_strlit("mins");
    reveal_strlit("min");
    reveal_strlit("m");
    reveal_strlit("hours");
    reveal_strlit("hour");
    reveal_strlit("hrs");
    reveal_strlit("hr");
    reveal_strlit("h");
    reveal_strlit("H");
    assert(!match_at(s, p, "months"@)) by {
        if match_at(s, p, "months"@) {
            assert(s.subrange(p, p + 6)[1] == s[p + 1]);
            assert(s.subrange(p, p + 6)[1] == s[p + 1]);
            assert(false);
        }
    };
    assert(!match_at(s, p, "month"@)) by {
        if match_at(s, p, "month"@) {
            assert(s.subrange(p, p + 5)[1] == s[p + 1]);
            assert(s.subrange(p, p + 6)[1] == s[p + 1]);
            assert(false);
        }
    };
    assert(!match_at(s, p, "mths"@)) by {
        if match_at(s, p, "mths"@) {
            assert(s.subrange(p, p + 4)[1] == s[p + 1]);
            assert(s.subrange(p, p + 6)[1] == s[p + 1]);
            assert(false);
        }
    };
    assert(!match_at(s, p, "mth"@)) by {
        if match_at(s, p, "mth"@) {
            assert(s.subrange(p, p + 3)[1] == s[p + 1]);
            assert(s.subrange(p, p + 6)[1] == s[p + 1]);
            assert(false);
        }
    };
    assert(!match_at(s, p, "M"@)) by {
        if match_at(s, p, "M"@) {
            assert(s.subrange(p, p + 1)[0] == s[p + 0]);
            assert(s.subrange(p, p + 6)[0] == s[p + 0]);
            assert(false);
        }
    };
    assert(!match_at(s, p, "days"@)) by {
        if match_at(s, p, "days"@) {
            assert(s.subrange(p, p + 4)[0] == s[p + 0]);
            assert(s.subrange(p, p + 6)[0] == s[p + 0]);
            assert(false);
        }
    };
    assert(!match_at(s, p, "day"@)) by {
        if match_at(s, p, "day"@) {
            assert(s.subrange(p, p + 3)[0] == s[p + 0]);
            assert(s.subrange(p, p + 6)[0] == s[p + 0]);
            assert(false);
        }
    };
    assert(!match_at(s, p, "dys"@)) by {
        if match_at(s, p, "dys"@) {
            assert(s.subrange(p, p + 3)[0] == s[p + 0]);
            assert(s.subrange(p, p + 6)[0] == s[p + 0]);
            assert(false);
        }
    };
    assert(!match_at(s, p, "dy"@)) by {
        if match_at(s, p, "dy"@) {
            assert(s.subrange(p, p + 2)[0] == s[p + 0]);
            assert(s.subrange(p, p + 6)[0] == s[p + 0]);
            assert(false);
        }
    };
    assert(!match_at(s, p, "d"@)) by {
        if match_at(s, p, "d"@) {
            assert(s.subrange(p, p + 1)[0] == s[p + 0]);
            assert(s.subrange(p, p + 6)[0] == s[p + 0]);
            assert(false);
        }
    };
    assert(!match_at(s, p, "D"@)) by {
        if match_at(s, p, "D"@) {
            assert(s.subrange(p, p + 1)[0] == s[p + 0]);
            assert(s.subrange(p, p + 6)[0] == s[p + 0]);
            assert(false);
        }
    };
    assert(!match_at(s, p, "weeks"@)) by {
        if match_at(s, p, "weeks"@) {
            assert(s.subrange(p, p + 5)[0] == s[p + 0]);
            assert(s.subrange(p, p + 6)[0] == s[p + 0]);
            assert(false);
        }
    };
    assert(!match_at(s, p, "week"@)) by {
        if match_at(s, p, "week"@) {
            assert(s.subrange(p, p + 4)[0] == s[p + 0]);
            assert(s.subrange(p, p + 6)[0] == s[p + 0]);
            assert(false);
        }
    };
    assert(!match_at(s, p, "wks"@)) by {
        if match_at(s, p, "wks"@) {
            assert(s.subrange(p, p + 3)[0] == s[p + 0]);
            assert(s.subrange(p, p + 6)[0] == s[p + 0]);
            assert(false);
        }
    };
    assert(!match_at(s, p, "wk"@)) by {
        if match_at(s, p, "wk"@) {
            assert(s.subrange(p, p + 2)[0] == s[p + 0]);
            assert(s.subrange(p, p + 6)[0] == s[p + 0]);
            assert(false);
        }
    };
    assert(!match_at(s, p, "w"@)) by {
        if match_at(s, p, "w"@) {
            assert(s.subrange(p, p + 1)[0] == s[p + 0]);
            assert(s.subrange(p, p + 6)[0] == s[p + 0]);
            assert(false);
        }
    };
    assert(!match_at(s, p, "W"@)) by {
        if match_at(s, p, "W"@) {
            assert(s.subrange(p, p + 1)[0] == s[p + 0]);
            assert(s.subrange(p, p + 6)[0] == s[p + 0]);
            assert(false);
        }
    };
    assert(!match_at(s, p, "years"@)) by {
        if match_at(s, p, "years"@) {
            assert(s.subrange(p, p + 5)[0] == s[p + 0]);
            assert(s.subrange(p, p + 6)[0] == s[p + 0]);
            assert(false);
        }
    };
    assert(!match_at(s, p, "year"@)) by {
        if match_at(s, p, "year"@) {
            assert(s.subrange(p, p + 4)[0] == s[p + 0]);
            assert(s.subrange(p, p + 6)[0] == s[p + 0]);
            assert(false);
        }
    };
    assert(!match_at(s, p, "yrs"@)) by {
        if match_at(s, p, "yrs"@) {
            assert(s.subrange(p, p + 3)[0] == s[p + 0]);
            assert(s.subrange(p, p + 6)[0] == s[p + 0]);
            assert(false);
        }
    };
    assert(!match_at(s, p, "yr"@)) by {
        if match_at(s, p, "yr"@) {
            assert(s.subrange(p, p + 2)[0] == s[p + 0]);
            assert(s.subrange(p, p + 6)[0] == s[p + 0]);
            assert(false);
        }
    };
    assert(!match_at(s, p, "y"@)) by {
        if match_at(s, p, "y"@) {
            assert(s.subrange(p, p + 1)[0] == s[p + 0]);
            assert(s.subrange(p, p + 6)[0] == s[p + 0]);
            assert(false);
        }
    };
    assert(!match_at(s, p, "Y"@)) by {
        if match_at(s, p, "Y"@) {
            assert(s.subrange(p, p + 1)[0] == s[p + 0]);
            assert(s.subrange(p, p + 6)[0] == s[p + 0]);
            assert(false);
        }
    };
    assert(!match_at(s, p, "nanos"@)) by {
        if match_at(s, p, "nanos"@) {
            assert(s.subrange(p, p + 5)[0] == s[p + 0]);
            assert(s.subrange(p, p + 6)[0] == s[p + 0]);
            assert(false);
        }
    };
    assert(!match_at(s, p, "nsec"@)) by {
        if match_at(s, p, "nsec"@) {
            assert(s.subrange(p, p + 4)[0] == s[p + 0]);
            assert(s.subrange(p, p + 6)[0] == s[p + 0]);
            assert(false);
        }
    };
    assert(!match_at(s, p, "ns"@)) by {
        if match_at(s, p, "ns"@) {
            assert(s.subrange(p, p + 2)[0] == s[p + 0]);
            assert(s.subrange(p, p + 6)[0] == s[p + 0]);
            assert(false);
        }
    };
    assert(!match_at(s, p, "micros"@)) by {
        if match_at(s, p, "micros"@) {
            assert(s.subrange(p, p + 6)[2] == s[p + 2]);
            assert(s.subrange(p, p + 6)[2] == s[p + 2]);
            assert(false);
        }
    };
    assert(!match_at(s, p, "usec"@)) by {
        if match_at(s, p, "usec"@) {
            assert(s.subrange(p, p + 4)[0] == s[p + 0]);
            assert(s.subrange(p, p + 6)[0] == s[p + 0]);
            assert(false);
        }
    };
    assert(!match_at(s, p, "us"@)) by {
        if match_at(s, p, "us"@) {
            assert(s.subrange(p, p + 2)[0] == s[p + 0]);
            assert(s.subrange(p, p + 6)[0] == s[p + 0]);
            assert(false);
        }
    };
    assert(!match_at(s, p, "millis"@)) by {
        if match_at(s, p, "millis"@) {
            assert(s.subrange(p, p + 6)[2] == s[p + 2]);
            assert(s.subrange(p, p + 6)[2] == s[p + 2]);
            assert(false);
        }
    };
    assert(!match_at(s, p, "msec"@)) by {
        if match_at(s, p, "msec"@) {
            assert(s.subrange(p, p + 4)[1] == s[p + 1]);
            assert(s.subrange(p, p + 6)[1] == s[p + 1]);
            assert(false);
        }
    };
    assert(!match_at(s, p, "ms"@)) by {
        if match_at(s, p, "ms"@) {
            assert(s.subrange(p, p + 2)[1] == s[p + 1]);
            assert(s.subrange(p, p + 6)[1] == s[p + 1]);
            assert(false);
        }
    };
    assert(!match_at(s, p, "seconds"@)) by {
        if match_at(s, p, "seconds"@) {
            assert(s.subrange(p, p + 7)[0] == s[p + 0]);
            assert(s.subrange(p, p + 6)[0] == s[p + 0]);
            assert(false);
        }
    };
    assert(!match_at(s, p, "second"@)) by {
        if match_at(s, p, "second"@) {
            assert(s.subrange(p, p + 6)[0] == s[p + 0]);
            assert(s.subrange(p, p + 6)[0] == s[p + 0]);
            assert(false);
        }
    };
    assert(!match_at(s, p, "secs"@)) by {
        if match_at(s, p, "secs"@) {
            assert(s.subrange(p, p + 4)[0] == s[p + 0]);
            assert(s.subrange(p, p + 6)[0] == s[p + 0]);
            assert(false);
        }
    };
    assert(!match_at(s, p, "sec"@)) by {
        if match_at(s, p, "sec"@) {
            assert(s.subrange(p, p + 3)[0] == s[p + 0]);
            assert(s.subrange(p, p + 6)[0] == s[p + 0]);
            assert(false);
        }
    };
    assert(!match_at(s, p, "s"@)) by {
        if match_at(s, p, "s"@) {
            assert(s.subrange(p, p + 1)[0] == s[p + 0]);
            assert(s.subrange(p, p + 6)[0] == s[p + 0]);
            assert(false);
        }
    };
    assert(!match_at(s, p, "minutes"@)) by {
        if match_at(s, p, "minutes"@) {
            assert(s.subrange(p, p + 7)[6] == s[p + 6]);
            assert(false);
        }
    };
    assert(match_at(s, p, "minute"@));
}

/// With `mins` at `p` and the word `and` right after it, the resolver
/// yields `Minutes`.
proof fn lemma_preand_minutes_mins(s: Seq<char>, p: int)
    requires
        0 <= p,
        p + 7 <= s.len(),
        s.subrange(p, p + 4) == "mins"@,
        s[p + 4] == 'a',
        s[p + 5] == 'n',
        s[p + 6] == 'd',
    ensures
        resolve_unit(s, p) == Some((Unit::Minutes, p + 4)),
{
    reveal_strlit("months");
    reveal_strlit("month");
    reveal_strlit("mths");
    reveal_strlit("mth");
    reveal_strlit("M");
    reveal_strlit("days");
    reveal_strlit("day");
    reveal_strlit("dys");
    reveal_strlit("dy");
    reveal_strlit("d");
    reveal_strlit("D");
    reveal_strlit("weeks");
    reveal_strlit("week");
    reveal_strlit("wks");
    reveal_strlit("wk");
    reveal_strlit("w");
    reveal_strlit("W");
    reveal_strlit("years");
    reveal_strlit("year");
    reveal_strlit("yrs");
    reveal_strlit("yr");
    reveal_strlit("y");
    reveal_strlit("Y");
    reveal_strlit("nanos");
    reveal_strlit("nsec");
    reveal_strlit("ns");
    reveal_strlit("micros");
    reveal_strlit("usec");
    reveal_strlit("us");
    reveal_strlit("millis");
    reveal_strlit("msec");
    reveal_strlit("ms");
    reveal_strlit("seconds");
    reveal_strlit("second");
    reveal_strlit("secs");
    reveal_strlit("sec");
    reveal_strlit("s");
    reveal_strlit("minutes");
    reveal_strlit("minute");
    reveal_strlit("mins");
    reveal_strlit("min");
    reveal_strlit("m");
    reveal_strlit("hours");
    reveal_strlit("hour");
    reveal_strlit("hrs");
    reveal_strlit("hr");
    reveal_strlit("h");
    reveal_strlit("H");
    assert(!match_at(s, p, "months"@)) by {
        if match_at(s, p, "months"@) {
            assert(s.subrange(p, p + 6)[1] == s[p + 1]);
            assert(s.subrange(p, p + 4)[1] == s[p + 1]);
            assert(false);
        }
    };
    assert(!match_at(s, p, "month"@)) by {
        if match_at(s, p, "month"@) {
            assert(s.subrange(p, p + 5)[1] == s[p + 1]);
            assert(s.subrange(p, p + 4)[1] == s[p + 1]);
            assert(false);
        }
    };
    assert(!match_at(s, p, "mths"@)) by {
        if match_at(s, p, "mths"@) {
            assert(s.subrange(p, p + 4)[1] == s[p + 1]);
            assert(s.subrange(p, p + 4)[1] == s[p + 1]);
            assert(false);
        }
    };
    assert(!match_at(s, p, "mth"@)) by {
        if match_at(s, p, "mth"@) {
            assert(s.subrange(p, p + 3)[1] == s[p + 1]);
            assert(s.subrange(p, p + 4)[1] == s[p + 1]);
            assert(false);
        }
    };
    assert(!match_at(s, p, "M"@)) by {
        if match_at(s, p, "M"@) {
            assert(s.subrange(p, p + 1)[0] == s[p + 0]);
            assert(s.subrange(p, p + 4)[0] == s[p + 0]);
            assert(false);
        }
    };
    assert(!match_at(s, p, "days"@)) by {
        if match_at(s, p, "days"@) {
            assert(s.subrange(p, p + 4)[0] == s[p + 0]);
            assert(s.subrange(p, p + 4)[0] == s[p + 0]);
            assert(false);
        }
    };
    assert(!match_at(s, p, "day"@)) by {
        if match_at(s, p, "day"@) {
            assert(s.subrange(p, p + 3)[0] == s[p + 0]);
            assert(s.subrange(p, p + 4)[0] == s[p + 0]);
            assert(false);
        }
    };
    assert(!match_at(s, p, "dys"@)) by {
        if match_at(s, p, "dys"@) {
            assert(s.subrange(p, p + 3)[0] == s[p + 0]);
            assert(s.subrange(p, p + 4)[0] == s[p + 0]);
            assert(false);
        }
    };
    assert(!match_at(s, p, "dy"@)) by {
        if match_at(s, p, "dy"@) {
            assert(s.subrange(p, p + 2)[0] == s[p + 0]);
            assert(s.subrange(p, p + 4)[0] == s[p + 0]);
            assert(false);
        }
    };
    assert(!match_at(s, p, "d"@)) by {
        if match_at(s, p, "d"@) {
            assert(s.subrange(p, p + 1)[0] == s[p + 0]);
            assert(s.subrange(p, p + 4)[0] == s[p + 0]);
            assert(false);
        }
    };
    assert(!match_at(s, p, "D"@)) by {
        if match_at(s, p, "D"@) {
            assert(s.subrange(p, p + 1)[0] == s[p + 0]);
            assert(s.subrange(p, p + 4)[0] == s[p + 0]);
            assert(false);
        }
    };
    assert(!match_at(s, p, "weeks"@)) by {
        if match_at(s, p, "weeks"@) {
            assert(s.subrange(p, p + 5)[0] == s[p + 0]);
            assert(s.subrange(p, p + 4)[0] == s[p + 0]);
            assert(false);
        }
    };
    assert(!match_at(s, p, "week"@)) by {
        if match_at(s, p, "week"@) {
            assert(s.subrange(p, p + 4)[0] == s[p + 0]);
            assert(s.subrange(p, p + 4)[0] == s[p + 0]);
            assert(false);
        }
    };
    assert(!match_at(s, p, "wks"@)) by {
        if match_at(s, p, "wks"@) {
            assert(s.subrange(p, p + 3)[0] == s[p + 0]);
            assert(s.subrange(p, p + 4)[0] == s[p + 0]);
            assert(false);
        }
    };
    assert(!match_at(s, p, "wk"@)) by {
        if match_at(s, p, "wk"@) {
            assert(s.subrange(p, p + 2)[0] == s[p + 0]);
            assert(s.subrange(p, p + 4)[0] == s[p + 0]);
            assert(false);
        }
    };
    assert(!match_at(s, p, "w"@)) by {
        if match_at(s, p, "w"@) {
            assert(s.subrange(p, p + 1)[0] == s[p + 0]);
            assert(s.subrange(p, p + 4)[0] == s[p + 0]);
            assert(false);
        }
    };
    assert(!match_at(s, p, "W"@)) by {
        if match_at(s, p, "W"@) {
            assert(s.subrange(p, p + 1)[0] == s[p + 0]);
            assert(s.subrange(p, p + 4)[0] == s[p + 0]);
            assert(false);
        }
    };
    assert(!match_at(s, p, "years"@)) by {
        if match_at(s, p, "years"@) {
            assert(s.subrange(p, p + 5)[0] == s[p + 0]);
            assert(s.subrange(p, p + 4)[0] == s[p + 0]);
            assert(false);
        }
    };
    assert(!match_at(s, p, "year"@)) by {
        if match_at(s, p, "year"@) {
            assert(s.subrange(p, p + 4)[0] == s[p + 0]);
            assert(s.subrange(p, p + 4)[0] == s[p + 0]);
            assert(false);
        }
    };
    assert(!match_at(s, p, "yrs"@)) by {
        if match_at(s, p, "yrs"@) {
            assert(s.subrange(p, p + 3)[0] == s[p + 0]);
            assert(s.subrange(p, p + 4)[0] == s[p + 0]);
            assert(false);
        }
    };
    assert(!match_at(s, p, "yr"@)) by {
        if match_at(s, p, "yr"@) {
            assert(s.subrange(p, p + 2)[0] == s[p + 0]);
            assert(s.subrange(p, p + 4)[0] == s[p + 0]);
            assert(false);
        }
    };
    assert(!match_at(s, p, "y"@)) by {
        if match_at(s, p, "y"@) {
            assert(s.subrange(p, p + 1)[0] == s[p + 0]);
            assert(s.subrange(p, p + 4)[0] == s[p + 0]);
            assert(false);
        }
    };
    assert(!match_at(s, p, "Y"@)) by {
        if match_at(s, p, "Y"@) {
            assert(s.subrange(p, p + 1)[0] == s[p + 0]);
            assert(s.subrange(p, p + 4)[0] == s[p + 0]);
            assert(false);
        }
    };
    assert(!match_at(s, p, "nanos"@)) by {
        if match_at(s, p, "nanos"@) {
            assert(s.subrange(p, p + 5)[0] == s[p + 0]);
            assert(s.subrange(p, p + 4)[0] == s[p + 0]);
            assert(false);
        }
    };
    assert(!match_at(s, p, "nsec"@)) by {
        if match_at(s, p, "nsec"@) {
            assert(s.subrange(p, p + 4)[0] == s[p + 0]);
            assert(s.subrange(p, p + 4)[0] == s[p + 0]);
            assert(false);
        }
    };
    assert(!match_at(s, p, "ns"@)) by {
        if match_at(s, p, "ns"@) {
            assert(s.subrange(p, p + 2)[0] == s[p + 0]);
            assert(s.subrange(p, p + 4)[0] == s[p + 0]);
            assert(false);
        }
    };
    assert(!match_at(s, p, "micros"@)) by {
        if match_at(s, p, "micros"@) {
            assert(s.subrange(p, p + 6)[2] == s[p + 2]);
            assert(s.subrange(p, p + 4)[2] == s[p + 2]);
            assert(false);
        }
    };
    assert(!match_at(s, p, "usec"@)) by {
        if match_at(s, p, "usec"@) {
            assert(s.subrange(p, p + 4)[0] == s[p + 0]);
            assert(s.subrange(p, p + 4)[0] == s[p + 0]);
            assert(false);
        }
    };
    assert(!match_at(s, p, "us"@)) by {
        if match_at(s, p, "us"@) {
            assert(s.subrange(p, p + 2)[0] == s[p + 0]);
            assert(s.subrange(p, p + 4)[0] == s[p + 0]);
            assert(false);
        }
    };
    assert(!match_at(s, p, "millis"@)) by {
        if match_at(s, p, "millis"@) {
            assert(s.subrange(p, p + 6)[2] == s[p + 2]);
            assert(s.subrange(p, p + 4)[2] == s[p + 2]);
            assert(false);
        }
    };
    assert(!match_at(s, p, "msec"@)) by {
        if match_at(s, p, "msec"@) {
            assert(s.subrange(p, p + 4)[1] == s[p + 1]);
            assert(s.subrange(p, p + 4)[1] == s[p + 1]);
            assert(false);
        }
    };
    assert(!match_at(s, p, "ms"@)) by {
        if match_at(s, p, "ms"@) {
            assert(s.subrange(p, p + 2)[1] == s[p + 1]);
            assert(s.subrange(p, p + 4)[1] == s[p + 1]);
            assert(false);
        }
    };
    assert(!match_at(s, p, "seconds"@)) by {
        if match_at(s, p, "seconds"@) {
            assert(s.subrange(p, p + 7)[0] == s[p + 0]);
            assert(s.subrange(p, p + 4)[0] == s[p + 0]);
            assert(false);
        }
    };
    assert(!match_at(s, p, "second"@)) by {
        if match_at(s, p, "second"@) {
            assert(s.subrange(p, p + 6)[0] == s[p + 0]);
            assert(s.subrange(p, p + 4)[0] == s[p + 0]);
            assert(false);
        }
    };
    assert(!match_at(s, p, "secs"@)) by {
        if match_at(s, p, "secs"@) {
            assert(s.subrange(p, p + 4)[0] == s[p + 0]);
            assert(s.subrange(p, p + 4)[0] == s[p + 0]);
            assert(false);
        }
    };
    assert(!match_at(s, p, "sec"@)) by {
        if match_at(s, p, "sec"@) {
            assert(s.subrange(p, p + 3)[0] == s[p + 0]);
            assert(s.subrange(p, p + 4)[0] == s[p + 0]);
            assert(false);
        }
    };
    assert(!match_at(s, p, "s"@)) by {
        if match_at(s, p, "s"@) {
            assert(s.subrange(p, p + 1)[0] == s[p + 0]);
            assert(s.subrange(p, p + 4)[0] == s[p + 0]);
            assert(false);
        }
    };
    assert(!match_at(s, p, "minutes"@)) by {
        if match_at(s, p, "minutes"@) {
            assert(s.subrange(p, p + 7)[3] == s[p + 3]);
            assert(s.subrange(p, p + 4)[3] == s[p + 3]);
            assert(false);
        }
    };
    assert(!match_at(s, p, "minute"@)) by {
        if match_at(s, p, "minute"@) {
            assert(s.subrange(p, p + 6)[3] == s[p + 3]);
            assert(s.subrange(p, p + 4)[3] == s[p + 3]);
            assert(false);
        }
    };
    assert(match_at(s, p, "mins"@));
}

/// With `min` at `p` and the word `and` right after it, the resolver
/// yields `Minutes`.
proof fn lemma_preand_minutes_min(s: Seq<char>, p: int)
    requires
        0 <= p,
        p + 6 <= s.len(),
        s.subrange(p, p + 3) == "min"@,
        s[p + 3] == 'a',
        s[p + 4] == 'n',
        s[p + 5] == 'd',
    ensures
        resolve_unit(s, p) == Some((Unit::Minutes, p + 3)),
{
    reveal_strlit("months");
    reveal_strlit("month");
    reveal_strlit("mths");
    reveal_strlit("mth");
    reveal_strlit("M");
    reveal_strlit("days");
    reveal_strlit("day");
    reveal_strlit("dys");
    reveal_strlit("dy");
    reveal_strlit("d");
    reveal_strlit("D");
    reveal_strlit("weeks");
    reveal_strlit("week");
    reveal_strlit("wks");
    reveal_strlit("wk");
    reveal_strlit("w");
    reveal_strlit("W");
    reveal_strlit("years");
    reveal_strlit("year");
    reveal_strlit("yrs");
    reveal_strlit("yr");
    reveal_strlit("y");
    reveal_strlit("Y");
    reveal_strlit("nanos");
    reveal_strlit("nsec");
    reveal_strlit("ns");
    reveal_strlit("micros");
    reveal_strlit("usec");
    reveal_strlit("us");
    reveal_strlit("millis");
    reveal_strlit("msec");
    reveal_strlit("ms");
    reveal_strlit("seconds");
    reveal_strlit("second");
    reveal_strlit("secs");
    reveal_strlit("sec");
    reveal_strlit("s");
    reveal_strlit("minutes");
    reveal_strlit("minute");
    reveal_strlit("mins");
    reveal_strlit("min");
    reveal_strlit("m");
    reveal_strlit("hours");
    reveal_strlit("hour");
    reveal_strlit("hrs");
    reveal_strlit("hr");
    reveal_strlit("h");
    reveal_strlit("H");
    assert(!match_at(s, p, "months"@)) by {
        if match_at(s, p, "months"@) {
            assert(s.subrange(p, p + 6)[1] == s[p + 1]);
            assert(s.subrange(p, p + 3)[1] == s[p + 1]);
            assert(false);
        }
    };
    assert(!match_at(s, p, "month"@)) by {
        if match_at(s, p, "month"@) {
            assert(s.subrange(p, p + 5)[1] == s[p + 1]);
            assert(s.subrange(p, p + 3)[1] == s[p + 1]);
            assert(false);
        }
    };
    assert(!match_at(s, p, "mths"@)) by {
        if match_at(s, p, "mths"@) {
            assert(s.subrange(p, p + 4)[1] == s[p + 1]);
            assert(s.subrange(p, p + 3)[1] == s[p + 1]);
            assert(false);
        }
    };
    assert(!match_at(s, p, "mth"@)) by {
        if match_at(s, p, "mth"@) {
            assert(s.subrange(p, p + 3)[1] == s[p + 1]);
            assert(s.subrange(p, p + 3)[1] == s[p + 1]);
            assert(false);
        }
    };
    assert(!match_at(s, p, "M"@)) by {
        if match_at(s, p, "M"@) {
            assert(s.subrange(p, p + 1)[0] == s[p + 0]);
            assert(s.subrange(p, p + 3)[0] == s[p + 0]);
            assert(false);
        }
    };
    assert(!match_at(s, p, "days"@)) by {
        if match_at(s, p, "days"@) {
            assert(s.subrange(p, p + 4)[0] == s[p + 0]);
            assert(s.subrange(p, p + 3)[0] == s[p + 0]);
            assert(false);
        }
    };
    assert(!match_at(s, p, "day"@)) by {
        if match_at(s, p, "day"@) {
            assert(s.subrange(p, p + 3)[0] == s[p + 0]);
            assert(s.subrange(p, p + 3)[0] == s[p + 0]);
            assert(false);
        }
    };
    assert(!match_at(s, p, "dys"@)) by {
        if match_at(s, p, "dys"@) {
            assert(s.subrange(p, p + 3)[0] == s[p + 0]);
            assert(s.subrange(p, p + 3)[0] == s[p + 0]);
            assert(false);
        }
    };
    assert(!match_at(s, p, "dy"@)) by {
        if match_at(s, p, "dy"@) {
            assert(s.subrange(p, p + 2)[0] == s[p + 0]);
            assert(s.subrange(p, p + 3)[0] == s[p + 0]);
            assert(false);
        }
    };
    assert(!match_at(s, p, "d"@)) by {
        if match_at(s, p, "d"@) {
            assert(s.subrange(p, p + 1)[0] == s[p + 0]);
            assert(s.subrange(p, p + 3)[0] == s[p + 0]);
            assert(false);
        }
    };
    assert(!match_at(s, p, "D"@)) by {
        if match_at(s, p, "D"@) {
            assert(s.subrange(p, p + 1)[0] == s[p + 0]);
            assert(s.subrange(p, p + 3)[0] == s[p + 0]);
            assert(false);
        }
    };
    assert(!match_at(s, p, "weeks"@)) by {
        if match_at(s, p, "weeks"@) {
            assert(s.subrange(p, p + 5)[0] == s[p + 0]);
            assert(s.subrange(p, p + 3)[0] == s[p + 0]);
            assert(false);
        }
    };
    assert(!match_at(s, p, "week"@)) by {
        if match_at(s, p, "week"@) {
            assert(s.subrange(p, p + 4)[0] == s[p + 0]);
            assert(s.subrange(p, p + 3)[0] == s[p + 0]);
            assert(false);
        }
    };
    assert(!match_at(s, p, "wks"@)) by {
        if match_at(s, p, "wks"@) {
            assert(s.subrange(p, p + 3)[0] == s[p + 0]);
            assert(s.subrange(p, p + 3)[0] == s[p + 0]);
            assert(false);
        }
    };
    assert(!match_at(s, p, "wk"@)) by {
        if match_at(s, p, "wk"@) {
            assert(s.subrange(p, p + 2)[0] == s[p + 0]);
            assert(s.subrange(p, p + 3)[0] == s[p + 0]);
            assert(false);
        }
    };
    assert(!match_at(s, p, "w"@)) by {
        if match_at(s, p, "w"@) {
            assert(s.subrange(p, p + 1)[0] == s[p + 0]);
            assert(s.subrange(p, p + 3)[0] == s[p + 0]);
            assert(false);
        }
    };
    assert(!match_at(s, p, "W"@)) by {
        if match_at(s, p, "W"@) {
            assert(s.subrange(p, p + 1)[0] == s[p + 0]);
            assert(s.subrange(p, p + 3)[0] == s[p + 0]);
            assert(false);
        }
    };
    assert(!match_at(s, p, "years"@)) by {
        if match_at(s, p, "years"@) {
            assert(s.subrange(p, p + 5)[0] == s[p + 0]);
            assert(s.subrange(p, p + 3)[0] == s[p + 0]);
            assert(false);
        }
    };
    assert(!match_at(s, p, "year"@)) by {
        if match_at(s, p, "year"@) {
            assert(s.subrange(p, p + 4)[0] == s[p + 0]);
            assert(s.subrange(p, p + 3)[0] == s[p + 0]);
            assert(false);
        }
    };
    assert(!match_at(s, p, "yrs"@)) by {
        if match_at(s, p, "yrs"@) {
            assert(s.subrange(p, p + 3)[0] == s[p + 0]);
            assert(s.subrange(p, p + 3)[0] == s[p + 0]);
            assert(false);
        }
    };
    assert(!match_at(s, p, "yr"@)) by {
        if match_at(s, p, "yr"@) {
            assert(s.subrange(p, p + 2)[0] == s[p + 0]);
            assert(s.subrange(p, p + 3)[0] == s[p + 0]);
            assert(false);
        }
    };
    assert(!match_at(s, p, "y"@)) by {
        if match_at(s, p, "y"@) {
            assert(s.subrange(p, p + 1)[0] == s[p + 0]);
            assert(s.subrange(p, p + 3)[0] == s[p + 0]);
            assert(false);
        }
    };
    assert(!match_at(s, p, "Y"@)) by {
        if match_at(s, p, "Y"@) {
            assert(s.subrange(p, p + 1)[0] == s[p + 0]);
            assert(s.subrange(p, p + 3)[0] == s[p + 0]);
            assert(false);
        }
    };
    assert(!match_at(s, p, "nanos"@)) by {
        if match_at(s, p, "nanos"@) {
            assert(s.subrange(p, p + 5)[0] == s[p + 0]);
            assert(s.subrange(p, p + 3)[0] == s[p + 0]);
            assert(false);
        }
    };
    assert(!match_at(s, p, "nsec"@)) by {
        if match_at(s, p, "nsec"@) {
            assert(s.subrange(p, p + 4)[0] == s[p + 0]);
            assert(s.subrange(p, p + 3)[0] == s[p + 0]);
            assert(false);
        }
    };
    assert(!match_at(s, p, "ns"@)) by {
        if match_at(s, p, "ns"@) {
            assert(s.subrange(p, p + 2)[0] == s[p + 0]);
            assert(s.subrange(p, p + 3)[0] == s[p + 0]);
            assert(false);
        }
    };
    assert(!match_at(s, p, "micros"@)) by {
        if match_at(s, p, "micros"@) {
            assert(s.subrange(p, p + 6)[2] == s[p + 2]);
            assert(s.subrange(p, p + 3)[2] == s[p + 2]);
            assert(false);
        }
    };
    assert(!match_at(s, p, "usec"@)) by {
        if match_at(s, p, "usec"@) {
            assert(s.subrange(p, p + 4)[0] == s[p + 0]);
            assert(s.subrange(p, p + 3)[0] == s[p + 0]);
            assert(false);
        }
    };
    assert(!match_at(s, p, "us"@)) by {
        if match_at(s, p, "us"@) {
            assert(s.subrange(p, p + 2)[0] == s[p + 0]);
            assert(s.subrange(p, p + 3)[0] == s[p + 0]);
            assert(false);
        }
    };
    assert(!match_at(s, p, "millis"@)) by {
        if match_at(s, p, "millis"@) {
            assert(s.subrange(p, p + 6)[2] == s[p + 2]);
            assert(s.subrange(p, p + 3)[2] == s[p + 2]);
            assert(false);
        }
    };
    assert(!match_at(s, p, "msec"@)) by {
        if match_at(s, p, "msec"@) {
            assert(s.subrange(p, p + 4)[1] == s[p + 1]);
            assert(s.subrange(p, p + 3)[1] == s[p + 1]);
            assert(false);
        }
    };
    assert(!match_at(s, p, "ms"@)) by {
        if match_at(s, p, "ms"@) {
            assert(s.subrange(p, p + 2)[1] == s[p + 1]);
            assert(s.subrange(p, p + 3)[1] == s[p + 1]);
            assert(false);
        }
    };
    assert(!match_at(s, p, "seconds"@)) by {
        if match_at(s, p, "seconds"@) {
            assert(s.subrange(p, p + 7)[0] == s[p + 0]);
            assert(s.subrange(p, p + 3)[0] == s[p + 0]);
            assert(false);
        }
    };
    assert(!match_at(s, p, "second"@)) by {
        if match_at(s, p, "second"@) {
            assert(s.subrange(p, p + 6)[0] == s[p + 0]);
            assert(s.subrange(p, p + 3)[0] == s[p + 0]);
            assert(false);
        }
    };
    assert(!match_at(s, p, "secs"@)) by {
        if match_at(s, p, "secs"@) {
            assert(s.subrange(p, p + 4)[0] == s[p + 0]);
            assert(s.subrange(p, p + 3)[0] == s[p + 0]);
            assert(false);
        }
    };
    assert(!match_at(s, p, "sec"@)) by {
        if match_at(s, p, "sec"@) {
            assert(s.subrange(p, p + 3)[0] == s[p + 0]);
            assert(s.subrange(p, p + 3)[0] == s[p + 0]);
            assert(false);
        }
    };
    assert(!match_at(s, p, "s"@)) by {
        if match_at(s, p, "s"@) {
            assert(s.subrange(p, p + 1)[0] == s[p + 0]);
            assert(s.subrange(p, p + 3)[0] == s[p + 0]);
            assert(false);
        }
    };
    assert(!match_at(s, p, "minutes"@)) by {
        if match_at(s, p, "minutes"@) {
            assert(s.subrange(p, p + 7)[3] == s[p + 3]);
            assert(false);
        }
    };
    assert(!match_at(s, p, "minute"@)) by {
        if match_at(s, p, "minute"@) {
            assert(s.subrange(p, p + 6)[3] == s[p + 3]);
            assert(false);
        }
    };
    assert(!match_at(s, p, "mins"@)) by {
        if match_at(s, p, "mins"@) {
            assert(s.subrange(p, p + 4)[3] == s[p + 3]);
            assert(false);
        }
    };
    assert(match_at(s, p, "min"@));
}

/// With `m` at `p` and the word `and` right after it, the resolver
/// yields `Minutes`.
proof fn lemma_preand_minutes_m(s: Seq<char>, p: int)
    requires
        0 <= p,
        p + 4 <= s.len(),
        s.subrange(p, p + 1) == "m"@,
        s[p + 1] == 'a',
        s[p + 2] == 'n',
        s[p + 3] == 'd',
    ensures
        resolve_unit(s, p) == Some((Unit::Minutes, p + 1)),
{
    reveal_strlit("months");
    reveal_strlit("month");
    reveal_strlit("mths");
    reveal_strlit("mth");
    reveal_strlit("M");
    reveal_strlit("days");
    reveal_strlit("day");
    reveal_strlit("dys");
    reveal_strlit("dy");
    reveal_strlit("d");
    reveal_strlit("D");
    reveal_strlit("weeks");
    reveal_strlit("week");
    reveal_strlit("wks");
    reveal_strlit("wk");
    reveal_strlit("w");
    reveal_strlit("W");
    reveal_strlit("years");
    reveal_strlit("year");
    reveal_strlit("yrs");
    reveal_strlit("yr");
    reveal_strlit("y");
    reveal_strlit("Y");
    reveal_strlit("nanos");
    reveal_strlit("nsec");
    reveal_strlit("ns");
    reveal_strlit("micros");
    reveal_strlit("usec");
    reveal_strlit("us");
    reveal_strlit("millis");
    reveal_strlit("msec");
    reveal_strlit("ms");
    reveal_strlit("seconds");
    reveal_strlit("second");
    reveal_strlit("secs");
    reveal_strlit("sec");
    reveal_strlit("s");
    reveal_strlit("minutes");
    reveal_strlit("minute");
    reveal_strlit("mins");
    reveal_strlit("min");
    reveal_strlit("m");
    reveal_strlit("hours");
    reveal_strlit("hour");
    reveal_strlit("hrs");
    reveal_strlit("hr");
    reveal_strlit("h");
    reveal_strlit("H");
    assert(!match_at(s, p, "months"@)) by {
        if match_at(s, p, "months"@) {
            assert(s.subrange(p, p + 6)[1] == s[p + 1]);
            assert(false);
        }
    };
    assert(!match_at(s, p, "month"@)) by {
        if match_at(s, p, "month"@) {
            assert(s.subrange(p, p + 5)[1] == s[p + 1]);
            assert(false);
        }
    };
    assert(!match_at(s, p, "mths"@)) by {
        if match_at(s, p, "mths"@) {
            assert(s.subrange(p, p + 4)[1] == s[p + 1]);
            assert(false);
        }
    };
    assert(!match_at(s, p, "mth"@)) by {
        if match_at(s, p, "mth"@) {
            assert(s.subrange(p, p + 3)[1] == s[p + 1]);
            assert(false);
        }
    };
    assert(!match_at(s, p, "M"@)) by {
        if match_at(s, p, "M"@) {
            assert(s.subrange(p, p + 1)[0] == s[p + 0]);
            assert(s.subrange(p, p + 1)[0] == s[p + 0]);
            assert(false);
        }
    };
    assert(!match_at(s, p, "days"@)) by {
        if match_at(s, p, "days"@) {
            assert(s.subrange(p, p + 4)[0] == s[p + 0]);
            assert(s.subrange(p, p + 1)[0] == s[p + 0]);
            assert(false);
        }
    };
    assert(!match_at(s, p, "day"@)) by {
        if match_at(s, p, "day"@) {
            assert(s.subrange(p, p + 3)[0] == s[p + 0]);
            assert(s.subrange(p, p + 1)[0] == s[p + 0]);
            assert(false);
        }
    };
    assert(!match_at(s, p, "dys"@)) by {
        if match_at(s, p, "dys"@) {
            assert(s.subrange(p, p + 3)[0] == s[p + 0]);
            assert(s.subrange(p, p + 1)[0] == s[p + 0]);
            assert(false);
        }
    };
    assert(!match_at(s, p, "dy"@)) by {
        if match_at(s, p, "dy"@) {
            assert(s.subrange(p, p + 2)[0] == s[p + 0]);
            assert(s.subrange(p, p + 1)[0] == s[p + 0]);
            assert(false);
        }
    };
    assert(!match_at(s, p, "d"@)) by {
        if match_at(s, p, "d"@) {
            assert(s.subrange(p, p + 1)[0] == s[p + 0]);
            assert(s.subrange(p, p + 1)[0] == s[p + 0]);
            assert(false);
        }
    };
    assert(!match_at(s, p, "D"@)) by {
        if match_at(s, p, "D"@) {
            assert(s.subrange(p, p + 1)[0] == s[p + 0]);
            assert(s.subrange(p, p + 1)[0] == s[p + 0]);
            assert(false);
        }
    };
    assert(!match_at(s, p, "weeks"@)) by {
        if match_at(s, p, "weeks"@) {
            assert(s.subrange(p, p + 5)[0] == s[p + 0]);
            assert(s.subrange(p, p + 1)[0] == s[p + 0]);
            assert(false);
        }
    };
    assert(!match_at(s, p, "week"@)) by {
        if match_at(s, p, "week"@) {
            assert(s.subrange(p, p + 4)[0] == s[p + 0]);
            assert(s.subrange(p, p + 1)[0] == s[p + 0]);
            assert(false);
        }
    };
    assert(!match_at(s, p, "wks"@)) by {
        if match_at(s, p, "wks"@) {
            assert(s.subrange(p, p + 3)[0] == s[p + 0]);
            assert(s.subrange(p, p + 1)[0] == s[p + 0]);
            assert(false);
        }
    };
    assert(!match_at(s, p, "wk"@)) by {
        if match_at(s, p, "wk"@) {
            assert(s.subrange(p, p + 2)[0] == s[p + 0]);
            assert(s.subrange(p, p + 1)[0] == s[p + 0]);
            assert(false);
        }
    };
    assert(!match_at(s, p, "w"@)) by {
        if match_at(s, p, "w"@) {
            assert(s.subrange(p, p + 1)[0] == s[p + 0]);
            assert(s.subrange(p, p + 1)[0] == s[p + 0]);
            assert(false);
        }
    };
    assert(!match_at(s, p, "W"@)) by {
        if match_at(s, p, "W"@) {
            assert(s.subrange(p, p + 1)[0] == s[p + 0]);
            assert(s.subrange(p, p + 1)[0] == s[p + 0]);
            assert(false);
        }
    };
    assert(!match_at(s, p, "years"@)) by {
        if match_at(s, p, "years"@) {
            assert(s.subrange(p, p + 5)[0] == s[p + 0]);
            assert(s.subrange(p, p + 1)[0] == s[p + 0]);
            assert(false);
        }
    };
    assert(!match_at(s, p, "year"@)) by {
        if match_at(s, p, "year"@) {
            assert(s.subrange(p, p + 4)[0] == s[p + 0]);
            assert(s.subrange(p, p + 1)[0] == s[p + 0]);
            assert(false);
        }
    };
    assert(!match_at(s, p, "yrs"@)) by {
        if match_at(s, p, "yrs"@) {
            assert(s.subrange(p, p + 3)[0] == s[p + 0]);
            assert(s.subrange(p, p + 1)[0] == s[p + 0]);
            assert(false);
        }
    };
    assert(!match_at(s, p, "yr"@)) by {
        if match_at(s, p, "yr"@) {
            assert(s.subrange(p, p + 2)[0] == s[p + 0]);
            assert(s.subrange(p, p + 1)[0] == s[p + 0]);
            assert(false);
        }
    };
    assert(!match_at(s, p, "y"@)) by {
        if match_at(s, p, "y"@) {
            assert(s.subrange(p, p + 1)[0] == s[p + 0]);
            assert(s.subrange(p, p + 1)[0] == s[p + 0]);
            assert(false);
        }
    };
    assert(!match_at(s, p, "Y"@)) by {
        if match_at(s, p, "Y"@) {
            assert(s.subrange(p, p + 1)[0] == s[p + 0]);
            assert(s.subrange(p, p + 1)[0] == s[p + 0]);
            assert(false);
        }
    };
    assert(!match_at(s, p, "nanos"@)) by {
        if match_at(s, p, "nanos"@) {
            assert(s.subrange(p, p + 5)[0] == s[p + 0]);
            assert(s.subrange(p, p + 1)[0] == s[p + 0]);
            assert(false);
        }
    };
    assert(!match_at(s, p, "nsec"@)) by {
        if match_at(s, p, "nsec"@) {
            assert(s.subrange(p, p + 4)[0] == s[p + 0]);
            assert(s.subrange(p, p + 1)[0] == s[p + 0]);
            assert(false);
        }
    };
    assert(!match_at(s, p, "ns"@)) by {
        if match_at(s, p, "ns"@) {
            assert(s.subrange(p, p + 2)[0] == s[p + 0]);
            assert(s.subrange(p, p + 1)[0] == s[p + 0]);
            assert(false);
        }
    };
    assert(!match_at(s, p, "micros"@)) by {
        if match_at(s, p, "micros"@) {
            assert(s.subrange(p, p + 6)[1] == s[p + 1]);
            assert(false);
        }
    };
    assert(!match_at(s, p, "usec"@)) by {
        if match_at(s, p, "usec"@) {
            assert(s.subrange(p, p + 4)[0] == s[p + 0]);
            assert(s.subrange(p, p + 1)[0] == s[p + 0]);
            assert(false);
        }
    };
    assert(!match_at(s, p, "us"@)) by {
        if match_at(s, p, "us"@) {
            assert(s.subrange(p, p + 2)[0] == s[p + 0]);
            assert(s.subrange(p, p + 1)[0] == s[p + 0]);
            assert(false);
        }
    };
    assert(!match_at(s, p, "millis"@)) by {
        if match_at(s, p, "millis"@) {
            assert(s.subrange(p, p + 6)[1] == s[p + 1]);
            assert(false);
        }
    };
    assert(!match_at(s, p, "msec"@)) by {
        if match_at(s, p, "msec"@) {
            assert(s.subrange(p, p + 4)[1] == s[p + 1]);
            assert(false);
        }
    };
    assert(!match_at(s, p, "ms"@)) by {
        if match_at(s, p, "ms"@) {
            assert(s.subrange(p, p + 2)[1] == s[p + 1]);
            assert(false);
        }
    };
    assert(!match_at(s, p, "seconds"@)) by {
        if match_at(s, p, "seconds"@) {
            assert(s.subrange(p, p + 7)[0] == s[p + 0]);
            assert(s.subrange(p, p + 1)[0] == s[p + 0]);
            assert(false);
        }
    };
    assert(!match_at(s, p, "second"@)) by {
        if match_at(s, p, "second"@) {
            assert(s.subrange(p, p + 6)[0] == s[p + 0]);
            assert(s.subrange(p, p + 1)[0] == s[p + 0]);
            assert(false);
        }
    };
    assert(!match_at(s, p, "secs"@)) by {
        if match_at(s, p, "secs"@) {
            assert(s.subrange(p, p + 4)[0] == s[p + 0]);
            assert(s.subrange(p, p + 1)[0] == s[p + 0]);
            assert(false);
        }
    };
    assert(!match_at(s, p, "sec"@)) by {
        if match_at(s, p, "sec"@) {
            assert(s.subrange(p, p + 3)[0] == s[p + 0]);
            assert(s.subrange(p, p + 1)[0] == s[p + 0]);
            assert(false);
        }
    };
    assert(!match_at(s, p, "s"@)) by {
        if match_at(s, p, "s"@) {
            assert(s.subrange(p, p + 1)[0] == s[p + 0]);
            assert(s.subrange(p, p + 1)[0] == s[p + 0]);
            assert(false);
        }
    };
    assert(!match_at(s, p, "minutes"@)) by {
        if match_at(s, p, "minutes"@) {
            assert(s.subrange(p, p + 7)[1] == s[p + 1]);
            assert(false);
        }
    };
    assert(!match_at(s, p, "minute"@)) by {
        if match_at(s, p, "minute"@) {
            assert(s.subrange(p, p + 6)[1] == s[p + 1]);
            assert(false);
        }
    };
    assert(!match_at(s, p, "mins"@)) by {
        if match_at(s, p, "mins"@) {
            assert(s.subrange(p, p + 4)[1] == s[p + 1]);
            assert(false);
        }
    };
    assert(!match_at(s, p, "min"@)) by {
        if match_at(s, p, "min"@) {
            assert(s.subrange(p, p + 3)[1] == s[p + 1]);
            assert(false);
        }
    };
    assert(match_at(s, p, "m"@));
}

/// With `hours` at `p` and the word `and` right after it, the resolver
/// yields `Hours`.
proof fn lemma_preand_hours_hours(s: Seq<char>, p: int)
    requires
        0 <= p,
        p + 8 <= s.len(),
        s.subrange(p, p + 5) == "hours"@,
        s[p + 5] == 'a',
        s[p + 6] == 'n',
        s[p + 7] == 'd',
    ensures
        resolve_unit(s, p) == Some((Unit::Hours, p + 5)),
{
    reveal_strlit("months");
    reveal_strlit("month");
    reveal_strlit("mths");
    reveal_strlit("mth");
    reveal_strlit("M");
    reveal_strlit("days");
    reveal_strlit("day");
    reveal_strlit("dys");
    reveal_strlit("dy");
    reveal_strlit("d");
    reveal_strlit("D");
    reveal_strlit("weeks");
    reveal_strlit("week");
    reveal_strlit("wks");
    reveal_strlit("wk");
    reveal_strlit("w");
    reveal_strlit("W");
    reveal_strlit("years");
    reveal_strlit("year");
    reveal_strlit("yrs");
    reveal_strlit("yr");
    reveal_strlit("y");
    reveal_strlit("Y");
    reveal_strlit("nanos");
    reveal_strlit("nsec");
    reveal_strlit("ns");
    reveal_strlit("micros");
    reveal_strlit("usec");
    reveal_strlit("us");
    reveal_strlit("millis");
    reveal_strlit("msec");
    reveal_strlit("ms");
    reveal_strlit("seconds");
    reveal_strlit("second");
    reveal_strlit("secs");
    reveal_strlit("sec");
    reveal_strlit("s");
    reveal_strlit("minutes");
    reveal_strlit("minute");
    reveal_strlit("mins");
    reveal_strlit("min");
    reveal_strlit("m");
    reveal_strlit("hours");
    reveal_strlit("hour");
    reveal_strlit("hrs");
    reveal_strlit("hr");
    reveal_strlit("h");
    reveal_strlit("H");
    assert(!match_at(s, p, "months"@)) by {
        if match_at(s, p, "months"@) {
            assert(s.subrange(p, p + 6)[0] == s[p + 0]);
            assert(s.subrange(p, p + 5)[0] == s[p + 0]);
            assert(false);
        }
    };
    assert(!match_at(s, p, "month"@)) by {
        if match_at(s, p, "month"@) {
            assert(s.subrange(p, p + 5)[0] == s[p + 0]);
            assert(s.subrange(p, p + 5)[0] == s[p + 0]);
            assert(false);
        }
    };
    assert(!match_at(s, p, "mths"@)) by {
        if match_at(s, p, "mths"@) {
            assert(s.subrange(p, p + 4)[0] == s[p + 0]);
            assert(s.subrange(p, p + 5)[0] == s[p + 0]);
            assert(false);
        }
    };
    assert(!match_at(s, p, "mth"@)) by {
        if match_at(s, p, "mth"@) {
            assert(s.subrange(p, p + 3)[0] == s[p + 0]);
            assert(s.subrange(p, p + 5)[0] == s[p + 0]);
            assert(false);
        }
    };
    assert(!match_at(s, p, "M"@)) by {
        if match_at(s, p, "M"@) {
            assert(s.subrange(p, p + 1)[0] == s[p + 0]);
            assert(s.subrange(p, p + 5)[0] == s[p + 0]);
            assert(false);
        }
    };
    assert(!match_at(s, p, "days"@)) by {
        if match_at(s, p, "days"@) {
            assert(s.subrange(p, p + 4)[0] == s[p + 0]);
            assert(s.subrange(p, p + 5)[0] == s[p + 0]);
            assert(false);
        }
    };
    assert(!match_at(s, p, "day"@)) by {
        if match_at(s, p, "day"@) {
            assert(s.subrange(p, p + 3)[0] == s[p + 0]);
            assert(s.subrange(p, p + 5)[0] == s[p + 0]);
            assert(false);
        }
    };
    assert(!match_at(s, p, "dys"@)) by {
        if match_at(s, p, "dys"@) {
            assert(s.subrange(p, p + 3)[0] == s[p + 0]);
            assert(s.subrange(p, p + 5)[0] == s[p + 0]);
            assert(false);
        }
    };
    assert(!match_at(s, p, "dy"@)) by {
        if match_at(s, p, "dy"@) {
            assert(s.subrange(p, p + 2)[0] == s[p + 0]);
            assert(s.subrange(p, p + 5)[0] == s[p + 0]);
            assert(false);
        }
    };
    assert(!match_at(s, p, "d"@)) by {
        if match_at(s, p, "d"@) {
            assert(s.subrange(p, p + 1)[0] == s[p + 0]);
            assert(s.subrange(p, p + 5)[0] == s[p + 0]);
            assert(false);
        }
    };
    assert(!match_at(s, p, "D"@)) by {
        if match_at(s, p, "D"@) {
            assert(s.subrange(p, p + 1)[0] == s[p + 0]);
            assert(s.subrange(p, p + 5)[0] == s[p + 0]);
            assert(false);
        }
    };
    assert(!match_at(s, p, "weeks"@)) by {
        if match_at(s, p, "weeks"@) {
            assert(s.subrange(p, p + 5)[0] == s[p + 0]);
            assert(s.subrange(p, p + 5)[0] == s[p + 0]);
            assert(false);
        }
    };
    assert(!match_at(s, p, "week"@)) by {
        if match_at(s, p, "week"@) {
            assert(s.subrange(p, p + 4)[0] == s[p + 0]);
            assert(s.subrange(p, p + 5)[0] == s[p + 0]);
            assert(false);
        }
    };
    assert(!match_at(s, p, "wks"@)) by {
        if match_at(s, p, "wks"@) {
            assert(s.subrange(p, p + 3)[0] == s[p + 0]);
            assert(s.subrange(p, p + 5)[0] == s[p + 0]);
            assert(false);
        }
    };
    assert(!match_at(s, p, "wk"@)) by {
        if match_at(s, p, "wk"@) {
            assert(s.subrange(p, p + 2)[0] == s[p + 0]);
            assert(s.subrange(p, p + 5)[0] == s[p + 0]);
            assert(false);
        }
    };
    assert(!match_at(s, p, "w"@)) by {
        if match_at(s, p, "w"@) {
            assert(s.subrange(p, p + 1)[0] == s[p + 0]);
            assert(s.subrange(p, p + 5)[0] == s[p + 0]);
            assert(false);
        }
    };
    assert(!match_at(s, p, "W"@)) by {
        if match_at(s, p, "W"@) {
            assert(s.subrange(p, p + 1)[0] == s[p + 0]);
            assert(s.subrange(p, p + 5)[0] == s[p + 0]);
            assert(false);
        }
    };
    assert(!match_at(s, p, "years"@)) by {
        if match_at(s, p, "years"@) {
            assert(s.subrange(p, p + 5)[0] == s[p + 0]);
            assert(s.subrange(p, p + 5)[0] == s[p + 0]);
            assert(false);
        }
    };
    assert(!match_at(s, p, "year"@)) by {
        if match_at(s, p, "year"@) {
            assert(s.subrange(p, p + 4)[0] == s[p + 0]);
            assert(s.subrange(p, p + 5)[0] == s[p + 0]);
            assert(false);
        }
    };
    assert(!match_at(s, p, "yrs"@)) by {
        if match_at(s, p, "yrs"@) {
            assert(s.subrange(p, p + 3)[0] == s[p + 0]);
            assert(s.subrange(p, p + 5)[0] == s[p + 0]);
            assert(false);
        }
    };
    assert(!match_at(s, p, "yr"@)) by {
        if match_at(s, p, "yr"@) {
            assert(s.subrange(p, p + 2)[0] == s[p + 0]);
            assert(s.subrange(p, p + 5)[0] == s[p + 0]);
            assert(false);
        }
    };
    assert(!match_at(s, p, "y"@)) by {
        if match_at(s, p, "y"@) {
            assert(s.subrange(p, p + 1)[0] == s[p + 0]);
            assert(s.subrange(p, p + 5)[0] == s[p + 0]);
            assert(false);
        }
    };
    assert(!match_at(s, p, "Y"@)) by {
        if match_at(s, p, "Y"@) {
            assert(s.subrange(p, p + 1)[0] == s[p + 0]);
            assert(s.subrange(p, p + 5)[0] == s[p + 0]);
            assert(false);
        }
    };
    assert(!match_at(s, p, "nanos"@)) by {
        if match_at(s, p, "nanos"@) {
            assert(s.subrange(p, p + 5)[0] == s[p + 0]);
            assert(s.subrange(p, p + 5)[0] == s[p + 0]);
            assert(false);
        }
    };
    assert(!match_at(s, p, "nsec"@)) by {
        if match_at(s, p, "nsec"@) {
            assert(s.subrange(p, p + 4)[0] == s[p + 0]);
            assert(s.subrange(p, p + 5)[0] == s[p + 0]);
            assert(false);
        }
    };
    assert(!match_at(s, p, "ns"@)) by {
        if match_at(s, p, "ns"@) {
            assert(s.subrange(p, p + 2)[0] == s[p + 0]);
            assert(s.subrange(p, p + 5)[0] == s[p + 0]);
            assert(false);
        }
    };
    assert(!match_at(s, p, "micros"@)) by {
        if match_at(s, p, "micros"@) {
            assert(s.subrange(p, p + 6)[0] == s[p + 0]);
            assert(s.subrange(p, p + 5)[0] == s[p + 0]);
            assert(false);
        }
    };
    assert(!match_at(s, p, "usec"@)) by {
        if match_at(s, p, "usec"@) {
            assert(s.subrange(p, p + 4)[0] == s[p + 0]);
            assert(s.subrange(p, p + 5)[0] == s[p + 0]);
            assert(false);
        }
    };
    assert(!match_at(s, p, "us"@)) by {
        if match_at(s, p, "us"@) {
            assert(s.subrange(p, p + 2)[0] == s[p + 0]);
            assert(s.subrange(p, p + 5)[0] == s[p + 0]);
            assert(false);
        }
    };
    assert(!match_at(s, p, "millis"@)) by {
        if match_at(s, p, "millis"@) {
            assert(s.subrange(p, p + 6)[0] == s[p + 0]);
            assert(s.subrange(p, p + 5)[0] == s[p + 0]);
            assert(false);
        }
    };
    assert(!match_at(s, p, "msec"@)) by {
        if match_at(s, p, "msec"@) {
            assert(s.subrange(p, p + 4)[0] == s[p + 0]);
            assert(s.subrange(p, p + 5)[0] == s[p + 0]);
            assert(false);
        }
    };
    assert(!match_at(s, p, "ms"@)) by {
        if match_at(s, p, "ms"@) {
            assert(s.subrange(p, p + 2)[0] == s[p + 0]);
            assert(s.subrange(p, p + 5)[0] == s[p + 0]);
            assert(false);
        }
    };
    assert(!match_at(s, p, "seconds"@)) by {
        if match_at(s, p, "seconds"@) {
            assert(s.subrange(p, p + 7)[0] == s[p + 0]);
            assert(s.subrange(p, p + 5)[0] == s[p + 0]);
            assert(false);
        }
    };
    assert(!match_at(s, p, "second"@)) by {
        if match_at(s, p, "second"@) {
            assert(s.subrange(p, p + 6)[0] == s[p + 0]);
            assert(s.subrange(p, p + 5)[0] == s[p + 0]);
            assert(false);
        }
    };
    assert(!match_at(s, p, "secs"@)) by {
        if match_at(s, p, "secs"@) {
            assert(s.subrange(p, p + 4)[0] == s[p + 0]);
            assert(s.subrange(p, p + 5)[0] == s[p + 0]);
            assert(false);
        }
    };
    assert(!match_at(s, p, "sec"@)) by {
        if match_at(s, p, "sec"@) {
            assert(s.subrange(p, p + 3)[0] == s[p + 0]);
            assert(s.subrange(p, p + 5)[0] == s[p + 0]);
            assert(false);
        }
    };
    assert(!match_at(s, p, "s"@)) by {
        if match_at(s, p, "s"@) {
            assert(s.subrange(p, p + 1)[0] == s[p + 0]);
            assert(s.subrange(p, p + 5)[0] == s[p + 0]);
            assert(false);
        }
    };
    assert(!match_at(s, p, "minutes"@)) by {
        if match_at(s, p, "minutes"@) {
            assert(s.subrange(p, p + 7)[0] == s[p + 0]);
            assert(s.subrange(p, p + 5)[0] == s[p + 0]);
            assert(false);
        }
    };
    assert(!match_at(s, p, "minute"@)) by {
        if match_at(s, p, "minute"@) {
            assert(s.subrange(p, p + 6)[0] == s[p + 0]);
            assert(s.subrange(p, p + 5)[0] == s[p + 0]);
            assert(false);
        }
    };
    assert(!match_at(s, p, "mins"@)) by {
        if match_at(s, p, "mins"@) {
            assert(s.subrange(p, p + 4)[0] == s[p + 0]);
            assert(s.subrange(p, p + 5)[0] == s[p + 0]);
            assert(false);
        }
    };
    assert(!match_at(s, p, "min"@)) by {
        if match_at(s, p, "min"@) {
            assert(s.subrange(p, p + 3)[0] == s[p + 0]);
            assert(s.subrange(p, p + 5)[0] == s[p + 0]);
            assert(false);
        }
    };
    assert(!match_at(s, p, "m"@)) by {
        if match_at(s, p, "m"@) {
            assert(s.subrange(p, p + 1)[0] == s[p + 0]);
            assert(s.subrange(p, p + 5)[0] == s[p + 0]);
            assert(false);
        }
    };
    assert(match_at(s, p, "hours"@));
}

/// With `hour` at `p` and the word `and` right after it, the resolver
/// yields `Hours`.
proof fn lemma_preand_hours_hour(s: Seq<char>, p: int)
    requires
        0 <= p,
        p + 7 <= s.len(),
        s.subrange(p, p + 4) == "hour"@,
        s[p + 4] == 'a',
        s[p + 5] == 'n',
        s[p + 6] == 'd',
    ensures
        resolve_unit(s, p) == Some((Unit::Hours, p + 4)),
{
    reveal_strlit("months");
    reveal_strlit("month");
    reveal_strlit("mths");
    reveal_strlit("mth");
    reveal_strlit("M");
    reveal_strlit("days");
    reveal_strlit("day");
    reveal_strlit("dys");
    reveal_strlit("dy");
    reveal_strlit("d");
    reveal_strlit("D");
    reveal_strlit("weeks");
    reveal_strlit("week");
    reveal_strlit("wks");
    reveal_strlit("wk");
    reveal_strlit("w");
    reveal_strlit("W");
    reveal_strlit("years");
    reveal_strlit("year");
    reveal_strlit("yrs");
    reveal_strlit("yr");
    reveal_strlit("y");
    reveal_strlit("Y");
    reveal_strlit("nanos");
    reveal_strlit("nsec");
    reveal_strlit("ns");
    reveal_strlit("micros");
    reveal_strlit("usec");
    reveal_strlit("us");
    reveal_strlit("millis");
    reveal_strlit("msec");
    reveal_strlit("ms");
    reveal_strlit("seconds");
    reveal_strlit("second");
    reveal_strlit("secs");
    reveal_strlit("sec");
    reveal_strlit("s");
    reveal_strlit("minutes");
    reveal_strlit("minute");
    reveal_strlit("mins");
    reveal_strlit("min");
    reveal_strlit("m");
    reveal_strlit("hours");
    reveal_strlit("hour");
    reveal_strlit("hrs");
    reveal_strlit("hr");
    reveal_strlit("h");
    reveal_strlit("H");
    assert(!match_at(s, p, "months"@)) by {
        if match_at(s, p, "months"@) {
            assert(s.subrange(p, p + 6)[0] == s[p + 0]);
            assert(s.subrange(p, p + 4)[0] == s[p + 0]);
            assert(false);
        }
    };
    assert(!match_at(s, p, "month"@)) by {
        if match_at(s, p, "month"@) {
            assert(s.subrange(p, p + 5)[0] == s[p + 0]);
            assert(s.subrange(p, p + 4)[0] == s[p + 0]);
            assert(false);
        }
    };
    assert(!match_at(s, p, "mths"@)) by {
        if match_at(s, p, "mths"@) {
            assert(s.subrange(p, p + 4)[0] == s[p + 0]);
            assert(s.subrange(p, p + 4)[0] == s[p + 0]);
            assert(false);
        }
    };
    assert(!match_at(s, p, "mth"@)) by {
        if match_at(s, p, "mth"@) {
            assert(s.subrange(p, p + 3)[0] == s[p + 0]);
            assert(s.subrange(p, p + 4)[0] == s[p + 0]);
            assert(false);
        }
    };
    assert(!match_at(s, p, "M"@)) by {
        if match_at(s, p, "M"@) {
            assert(s.subrange(p, p + 1)[0] == s[p + 0]);
            assert(s.subrange(p, p + 4)[0] == s[p + 0]);
            assert(false);
        }
    };
    assert(!match_at(s, p, "days"@)) by {
        if match_at(s, p, "days"@) {
            assert(s.subrange(p, p + 4)[0] == s[p + 0]);
            assert(s.subrange(p, p + 4)[0] == s[p + 0]);
            assert(false);
        }
    };
    assert(!match_at(s, p, "day"@)) by {
        if match_at(s, p, "day"@) {
            assert(s.subrange(p, p + 3)[0] == s[p + 0]);
            assert(s.subrange(p, p + 4)[0] == s[p + 0]);
            assert(false);
        }
    };
    assert(!match_at(s, p, "dys"@)) by {
        if match_at(s, p, "dys"@) {
            assert(s.subrange(p, p + 3)[0] == s[p + 0]);
            assert(s.subrange(p, p + 4)[0] == s[p + 0]);
            assert(false);
        }
    };
    assert(!match_at(s, p, "dy"@)) by {
        if match_at(s, p, "dy"@) {
            assert(s.subrange(p, p + 2)[0] == s[p + 0]);
            assert(s.subrange(p, p + 4)[0] == s[p + 0]);
            assert(false);
        }
    };
    assert(!match_at(s, p, "d"@)) by {
        if match_at(s, p, "d"@) {
            assert(s.subrange(p, p + 1)[0] == s[p + 0]);
            assert(s.subrange(p, p + 4)[0] == s[p + 0]);
            assert(false);
        }
    };
    assert(!match_at(s, p, "D"@)) by {
        if match_at(s, p, "D"@) {
            assert(s.subrange(p, p + 1)[0] == s[p + 0]);
            assert(s.subrange(p, p + 4)[0] == s[p + 0]);
            assert(false);
        }
    };
    assert(!match_at(s, p, "weeks"@)) by {
        if match_at(s, p, "weeks"@) {
            assert(s.subrange(p, p + 5)[0] == s[p + 0]);
            assert(s.subrange(p, p + 4)[0] == s[p + 0]);
            assert(false);
        }
    };
    assert(!match_at(s, p, "week"@)) by {
        if match_at(s, p, "week"@) {
            assert(s.subrange(p, p + 4)[0] == s[p + 0]);
            assert(s.subrange(p, p + 4)[0] == s[p + 0]);
            assert(false);
        }
    };
    assert(!match_at(s, p, "wks"@)) by {
        if match_at(s, p, "wks"@) {
            assert(s.subrange(p, p + 3)[0] == s[p + 0]);
            assert(s.subrange(p, p + 4)[0] == s[p + 0]);
            assert(false);
        }
    };
    assert(!match_at(s, p, "wk"@)) by {
        if match_at(s, p, "wk"@) {
            assert(s.subrange(p, p + 2)[0] == s[p + 0]);
            assert(s.subrange(p, p + 4)[0] == s[p + 0]);
            assert(false);
        }
    };
    assert(!match_at(s, p, "w"@)) by {
        if match_at(s, p, "w"@) {
            assert(s.subrange(p, p + 1)[0] == s[p + 0]);
            assert(s.subrange(p, p + 4)[0] == s[p + 0]);
            assert(false);
        }
    };
    assert(!match_at(s, p, "W"@)) by {
        if match_at(s, p, "W"@) {
            assert(s.subrange(p, p + 1)[0] == s[p + 0]);
            assert(s.subrange(p, p + 4)[0] == s[p + 0]);
            assert(false);
        }
    };
    assert(!match_at(s, p, "years"@)) by {
        if match_at(s, p, "years"@) {
            assert(s.subrange(p, p + 5)[0] == s[p + 0]);
            assert(s.subrange(p, p + 4)[0] == s[p + 0]);
            assert(false);
        }
    };
    assert(!match_at(s, p, "year"@)) by {
        if match_at(s, p, "year"@) {
            assert(s.subrange(p, p + 4)[0] == s[p + 0]);
            assert(s.subrange(p, p + 4)[0] == s[p + 0]);
            assert(false);
        }
    };
    assert(!match_at(s, p, "yrs"@)) by {
        if match_at(s, p, "yrs"@) {
            assert(s.subrange(p, p + 3)[0] == s[p + 0]);
            assert(s.subrange(p, p + 4)[0] == s[p + 0]);
            assert(false);
        }
    };
    assert(!match_at(s, p, "yr"@)) by {
        if match_at(s, p, "yr"@) {
            assert(s.subrange(p, p + 2)[0] == s[p + 0]);
            assert(s.subrange(p, p + 4)[0] == s[p + 0]);
            assert(false);
        }
    };
    assert(!match_at(s, p, "y"@)) by {
        if match_at(s, p, "y"@) {
            assert(s.subrange(p, p + 1)[0] == s[p + 0]);
            assert(s.subrange(p, p + 4)[0] == s[p + 0]);
            assert(false);
        }
    };
    assert(!match_at(s, p, "Y"@)) by {
        if match_at(s, p, "Y"@) {
            assert(s.subrange(p, p + 1)[0] == s[p + 0]);
            assert(s.subrange(p, p + 4)[0] == s[p + 0]);
            assert(false);
        }
    };
    assert(!match_at(s, p, "nanos"@)) by {
        if match_at(s, p, "nanos"@) {
            assert(s.subrange(p, p + 5)[0] == s[p + 0]);
            assert(s.subrange(p, p + 4)[0] == s[p + 0]);
            assert(false);
        }
    };
    assert(!match_at(s, p, "nsec"@)) by {
        if match_at(s, p, "nsec"@) {
            assert(s.subrange(p, p + 4)[0] == s[p + 0]);
            assert(s.subrange(p, p + 4)[0] == s[p + 0]);
            assert(false);
        }
    };
    assert(!match_at(s, p, "ns"@)) by {
        if match_at(s, p, "ns"@) {
            assert(s.subrange(p, p + 2)[0] == s[p + 0]);
            assert(s.subrange(p, p + 4)[0] == s[p + 0]);
            assert(false);
        }
    };
    assert(!match_at(s, p, "micros"@)) by {
        if match_at(s, p, "micros"@) {
            assert(s.subrange(p, p + 6)[0] == s[p + 0]);
            assert(s.subrange(p, p + 4)[0] == s[p + 0]);
            assert(false);
        }
    };
    assert(!match_at(s, p, "usec"@)) by {
        if match_at(s, p, "usec"@) {
            assert(s.subrange(p, p + 4)[0] == s[p + 0]);
            assert(s.subrange(p, p + 4)[0] == s[p + 0]);
            assert(false);
        }
    };
    assert(!match_at(s, p, "us"@)) by {
        if match_at(s, p, "us"@) {
            assert(s.subrange(p, p + 2)[0] == s[p + 0]);
            assert(s.subrange(p, p + 4)[0] == s[p + 0]);
            assert(false);
        }
    };
    assert(!match_at(s, p, "millis"@)) by {
        if match_at(s, p, "millis"@) {
            assert(s.subrange(p, p + 6)[0] == s[p + 0]);
            assert(s.subrange(p, p + 4)[0] == s[p + 0]);
            assert(false);
        }
    };
    assert(!match_at(s, p, "msec"@)) by {
        if match_at(s, p, "msec"@) {
            assert(s.subrange(p, p + 4)[0] == s[p + 0]);
            assert(s.subrange(p, p + 4)[0] == s[p + 0]);
            assert(false);
        }
    };
    assert(!match_at(s, p, "ms"@)) by {
        if match_at(s, p, "ms"@) {
            assert(s.subrange(p, p + 2)[0] == s[p + 0]);
            assert(s.subrange(p, p + 4)[0] == s[p + 0]);
            assert(false);
        }
    };
    assert(!match_at(s, p, "seconds"@)) by {
        if match_at(s, p, "seconds"@) {
            assert(s.subrange(p, p + 7)[0] == s[p + 0]);
            assert(s.subrange(p, p + 4)[0] == s[p + 0]);
            assert(false);
        }
    };
    assert(!match_at(s, p, "second"@)) by {
        if match_at(s, p, "second"@) {
            assert(s.subrange(p, p + 6)[0] == s[p + 0]);
            assert(s.subrange(p, p + 4)[0] == s[p + 0]);
            assert(false);
        }
    };
    assert(!match_at(s, p, "secs"@)) by {
        if match_at(s, p, "secs"@) {
            assert(s.subrange(p, p + 4)[0] == s[p + 0]);
            assert(s.subrange(p, p + 4)[0] == s[p + 0]);
            assert(false);
        }
    };
    assert(!match_at(s, p, "sec"@)) by {
        if match_at(s, p, "sec"@) {
            assert(s.subrange(p, p + 3)[0] == s[p + 0]);
            assert(s.subrange(p, p + 4)[0] == s[p + 0]);
            assert(false);
        }
    };
    assert(!match_at(s, p, "s"@)) by {
        if match_at(s, p, "s"@) {
            assert(s.subrange(p, p + 1)[0] == s[p + 0]);
            assert(s.subrange(p, p + 4)[0] == s[p + 0]);
            assert(false);
        }
    };
    assert(!match_at(s, p, "minutes"@)) by {
        if match_at(s, p, "minutes"@) {
            assert(s.subrange(p, p + 7)[0] == s[p + 0]);
            assert(s.subrange(p, p + 4)[0] == s[p + 0]);
            assert(false);
        }
    };
    assert(!match_at(s, p, "minute"@)) by {
        if match_at(s, p, "minute"@) {
            assert(s.subrange(p, p + 6)[0] == s[p + 0]);
            assert(s.subrange(p, p + 4)[0] == s[p + 0]);
            assert(false);
        }
    };
    assert(!match_at(s, p, "mins"@)) by {
        if match_at(s, p, "mins"@) {
            assert(s.subrange(p, p + 4)[0] == s[p + 0]);
            assert(s.subrange(p, p + 4)[0] == s[p + 0]);
            assert(false);
        }
    };
    assert(!match_at(s, p, "min"@)) by {
        if match_at(s, p, "min"@) {
            assert(s.subrange(p, p + 3)[0] == s[p + 0]);
            assert(s.subrange(p, p + 4)[0] == s[p + 0]);
            assert(false);
        }
    };
    assert(!match_at(s, p, "m"@)) by {
        if match_at(s, p, "m"@) {
            assert(s.subrange(p, p + 1)[0] == s[p + 0]);
            assert(s.subrange(p, p + 4)[0] == s[p + 0]);
            assert(false);
        }
    };
    assert(!match_at(s, p, "hours"@)) by {
        if match_at(s, p, "hours"@) {
            assert(s.subrange(p, p + 5)[4] == s[p + 4]);
            assert(false);
        }
    };
    assert(match_at(s, p, "hour"@));
}

/// With `hrs` at `p` and the word `and` right after it, the resolver
/// yields `Hours`.
proof fn lemma_preand_hours_hrs(s: Seq<char>, p: int)
    requires
        0 <= p,
        p + 6 <= s.len(),
        s.subrange(p, p + 3) == "hrs"@,
        s[p + 3] == 'a',
        s[p + 4] == 'n',
        s[p + 5] == 'd',
    ensures
        resolve_unit(s, p) == Some((Unit::Hours, p + 3)),
{
    reveal_strlit("months");
    reveal_strlit("month");
    reveal_strlit("mths");
    reveal_strlit("mth");
    reveal_strlit("M");
    reveal_strlit("days");
    reveal_strlit("day");
    reveal_strlit("dys");
    reveal_strlit("dy");
    reveal_strlit("d");
    reveal_strlit("D");
    reveal_strlit("weeks");
    reveal_strlit("week");
    reveal_strlit("wks");
    reveal_strlit("wk");
    reveal_strlit("w");
    reveal_strlit("W");
    reveal_strlit("years");
    reveal_strlit("year");
    reveal_strlit("yrs");
    reveal_strlit("yr");
    reveal_strlit("y");
    reveal_strlit("Y");
    reveal_strlit("nanos");
    reveal_strlit("nsec");
    reveal_strlit("ns");
    reveal_strlit("micros");
    reveal_strlit("usec");
    reveal_strlit("us");
    reveal_strlit("millis");
    reveal_strlit("msec");
    reveal_strlit("ms");
    reveal_strlit("seconds");
    reveal_strlit("second");
    reveal_strlit("secs");
    reveal_strlit("sec");
    reveal_strlit("s");
    reveal_strlit("minutes");
    reveal_strlit("minute");
    reveal_strlit("mins");
    reveal_strlit("min");
    reveal_strlit("m");
    reveal_strlit("hours");
    reveal_strlit("hour");
    reveal_strlit("hrs");
    reveal_strlit("hr");
    reveal_strlit("h");
    reveal_strlit("H");
    assert(!match_at(s, p, "months"@)) by {
        if match_at(s, p, "months"@) {
            assert(s.subrange(p, p + 6)[0] == s[p + 0]);
            assert(s.subrange(p, p + 3)[0] == s[p + 0]);
            assert(false);
        }
    };
    assert(!match_at(s, p, "month"@)) by {
        if match_at(s, p, "month"@) {
            assert(s.subrange(p, p + 5)[0] == s[p + 0]);
            assert(s.subrange(p, p + 3)[0] == s[p + 0]);
            assert(false);
        }
    };
    assert(!match_at(s, p, "mths"@)) by {
        if match_at(s, p, "mths"@) {
            assert(s.subrange(p, p + 4)[0] == s[p + 0]);
            assert(s.subrange(p, p + 3)[0] == s[p + 0]);
            assert(false);
        }
    };
    assert(!match_at(s, p, "mth"@)) by {
        if match_at(s, p, "mth"@) {
            assert(s.subrange(p, p + 3)[0] == s[p + 0]);
            assert(s.subrange(p, p + 3)[0] == s[p + 0]);
            assert(false);
        }
    };
    assert(!match_at(s, p, "M"@)) by {
        if match_at(s, p, "M"@) {
            assert(s.subrange(p, p + 1)[0] == s[p + 0]);
            assert(s.subrange(p, p + 3)[0] == s[p + 0]);
            assert(false);
        }
    };
    assert(!match_at(s, p, "days"@)) by {
        if match_at(s, p, "days"@) {
            assert(s.subrange(p, p + 4)[0] == s[p + 0]);
            assert(s.subrange(p, p + 3)[0] == s[p + 0]);
            assert(false);
        }
    };
    assert(!match_at(s, p, "day"@)) by {
        if match_at(s, p, "day"@) {
            assert(s.subrange(p, p + 3)[0] == s[p + 0]);
            assert(s.subrange(p, p + 3)[0] == s[p + 0]);
            assert(false);
        }
    };
    assert(!match_at(s, p, "dys"@)) by {
        if match_at(s, p, "dys"@) {
            assert(s.subrange(p, p + 3)[0] == s[p + 0]);
            assert(s.subrange(p, p + 3)[0] == s[p + 0]);
            assert(false);
        }
    };
    assert(!match_at(s, p, "dy"@)) by {
        if match_at(s, p, "dy"@) {
            assert(s.subrange(p, p + 2)[0] == s[p + 0]);
            assert(s.subrange(p, p + 3)[0] == s[p + 0]);
            assert(false);
        }
    };
    assert(!match_at(s, p, "d"@)) by {
        if match_at(s, p, "d"@) {
            assert(s.subrange(p, p + 1)[0] == s[p + 0]);
            assert(s.subrange(p, p + 3)[0] == s[p + 0]);
            assert(false);
        }
    };
    assert(!match_at(s, p, "D"@)) by {
        if match_at(s, p, "D"@) {
            assert(s.subrange(p, p + 1)[0] == s[p + 0]);
            assert(s.subrange(p, p + 3)[0] == s[p + 0]);
            assert(false);
        }
    };
    assert(!match_at(s, p, "weeks"@)) by {
        if match_at(s, p, "weeks"@) {
            assert(s.subrange(p, p + 5)[0] == s[p + 0]);
            assert(s.subrange(p, p + 3)[0] == s[p + 0]);
            assert(false);
        }
    };
    assert(!match_at(s, p, "week"@)) by {
        if match_at(s, p, "week"@) {
            assert(s.subrange(p, p + 4)[0] == s[p + 0]);
            assert(s.subrange(p, p + 3)[0] == s[p + 0]);
            assert(false);
        }
    };
    assert(!match_at(s, p, "wks"@)) by {
        if match_at(s, p, "wks"@) {
            assert(s.subrange(p, p + 3)[0] == s[p + 0]);
            assert(s.subrange(p, p + 3)[0] == s[p + 0]);
            assert(false);
        }
    };
    assert(!match_at(s, p, "wk"@)) by {
        if match_at(s, p, "wk"@) {
            assert(s.subrange(p, p + 2)[0] == s[p + 0]);
            assert(s.subrange(p, p + 3)[0] == s[p + 0]);
            assert(false);
        }
    };
    assert(!match_at(s, p, "w"@)) by {
        if match_at(s, p, "w"@) {
            assert(s.subrange(p, p + 1)[0] == s[p + 0]);
            assert(s.subrange(p, p + 3)[0] == s[p + 0]);
            assert(false);
        }
    };
    assert(!match_at(s, p, "W"@)) by {
        if match_at(s, p, "W"@) {
            assert(s.subrange(p, p + 1)[0] == s[p + 0]);
            assert(s.subrange(p, p + 3)[0] == s[p + 0]);
            assert(false);
        }
    };
    assert(!match_at(s, p, "years"@)) by {
        if match_at(s, p, "years"@) {
            assert(s.subrange(p, p + 5)[0] == s[p + 0]);
            assert(s.subrange(p, p + 3)[0] == s[p + 0]);
            assert(false);
        }
    };
    assert(!match_at(s, p, "year"@)) by {
        if match_at(s, p, "year"@) {
            assert(s.subrange(p, p + 4)[0] == s[p + 0]);
            assert(s.subrange(p, p + 3)[0] == s[p + 0]);
            assert(false);
        }
    };
    assert(!match_at(s, p, "yrs"@)) by {
        if match_at(s, p, "yrs"@) {
            assert(s.subrange(p, p + 3)[0] == s[p + 0]);
            assert(s.subrange(p, p + 3)[0] == s[p + 0]);
            assert(false);
        }
    };
    assert(!match_at(s, p, "yr"@)) by {
        if match_at(s, p, "yr"@) {
            assert(s.subrange(p, p + 2)[0] == s[p + 0]);
            assert(s.subrange(p, p + 3)[0] == s[p + 0]);
            assert(false);
        }
    };
    assert(!match_at(s, p, "y"@)) by {
        if match_at(s, p, "y"@) {
            assert(s.subrange(p, p + 1)[0] == s[p + 0]);
            assert(s.subrange(p, p + 3)[0] == s[p + 0]);
            assert(false);
        }
    };
    assert(!match_at(s, p, "Y"@)) by {
        if match_at(s, p, "Y"@) {
            assert(s.subrange(p, p + 1)[0] == s[p + 0]);
            assert(s.subrange(p, p + 3)[0] == s[p + 0]);
            assert(false);
        }
    };
    assert(!match_at(s, p, "nanos"@)) by {
        if match_at(s, p, "nanos"@) {
            assert(s.subrange(p, p + 5)[0] == s[p + 0]);
            assert(s.subrange(p, p + 3)[0] == s[p + 0]);
            assert(false);
        }
    };
    assert(!match_at(s, p, "nsec"@)) by {
        if match_at(s, p, "nsec"@) {
            assert(s.subrange(p, p + 4)[0] == s[p + 0]);
            assert(s.subrange(p, p + 3)[0] == s[p + 0]);
            assert(false);
        }
    };
    assert(!match_at(s, p, "ns"@)) by {
        if match_at(s, p, "ns"@) {
            assert(s.subrange(p, p + 2)[0] == s[p + 0]);
            assert(s.subrange(p, p + 3)[0] == s[p + 0]);
            assert(false);
        }
    };
    assert(!match_at(s, p, "micros"@)) by {
        if match_at(s, p, "micros"@) {
            assert(s.subrange(p, p + 6)[0] == s[p + 0]);
            assert(s.subrange(p, p + 3)[0] == s[p + 0]);
            assert(false);
        }
    };
    assert(!match_at(s, p, "usec"@)) by {
        if match_at(s, p, "usec"@) {
            assert(s.subrange(p, p + 4)[0] == s[p + 0]);
            assert(s.subrange(p, p + 3)[0] == s[p + 0]);
            assert(false);
        }
    };
    assert(!match_at(s, p, "us"@)) by {
        if match_at(s, p, "us"@) {
            assert(s.subrange(p, p + 2)[0] == s[p + 0]);
            assert(s.subrange(p, p + 3)[0] == s[p + 0]);
            assert(false);
        }
    };
    assert(!match_at(s, p, "millis"@)) by {
        if match_at(s, p, "millis"@) {
            assert(s.subrange(p, p + 6)[0] == s[p + 0]);
            assert(s.subrange(p, p + 3)[0] == s[p + 0]);
            assert(false);
        }
    };
    assert(!match_at(s, p, "msec"@)) by {
        if match_at(s, p, "msec"@) {
            assert(s.subrange(p, p + 4)[0] == s[p + 0]);
            assert(s.subrange(p, p + 3)[0] == s[p + 0]);
            assert(false);
        }
    };
    assert(!match_at(s, p, "ms"@)) by {
        if match_at(s, p, "ms"@) {
            assert(s.subrange(p, p + 2)[0] == s[p + 0]);
            assert(s.subrange(p, p + 3)[0] == s[p + 0]);
            assert(false);
        }
    };
    assert(!match_at(s, p, "seconds"@)) by {
        if match_at(s, p, "seconds"@) {
            assert(s.subrange(p, p + 7)[0] == s[p + 0]);
            assert(s.subrange(p, p + 3)[0] == s[p + 0]);
            assert(false);
        }
    };
    assert(!match_at(s, p, "second"@)) by {
        if match_at(s, p, "second"@) {
            assert(s.subrange(p, p + 6)[0] == s[p + 0]);
            assert(s.subrange(p, p + 3)[0] == s[p + 0]);
            assert(false);
        }
    };
    assert(!match_at(s, p, "secs"@)) by {
        if match_at(s, p, "secs"@) {
            assert(s.subrange(p, p + 4)[0] == s[p + 0]);
            assert(s.subrange(p, p + 3)[0] == s[p + 0]);
            assert(false);
        }
    };
    assert(!match_at(s, p, "sec"@)) by {
        if match_at(s, p, "sec"@) {
            assert(s.subrange(p, p + 3)[0] == s[p + 0]);
            assert(s.subrange(p, p + 3)[0] == s[p + 0]);
            assert(false);
        }
    };
    assert(!match_at(s, p, "s"@)) by {
        if match_at(s, p, "s"@) {
            assert(s.subrange(p, p + 1)[0] == s[p + 0]);
            assert(s.subrange(p, p + 3)[0] == s[p + 0]);
            assert(false);
        }
    };
    assert(!match_at(s, p, "minutes"@)) by {
        if match_at(s, p, "minutes"@) {
            assert(s.subrange(p, p + 7)[0] == s[p + 0]);
            assert(s.subrange(p, p + 3)[0] == s[p + 0]);
            assert(false);
        }
    };
    assert(!match_at(s, p, "minute"@)) by {
        if match_at(s, p, "minute"@) {
            assert(s.subrange(p, p + 6)[0] == s[p + 0]);
            assert(s.subrange(p, p + 3)[0] == s[p + 0]);
            assert(false);
        }
    };
    assert(!match_at(s, p, "mins"@)) by {
        if match_at(s, p, "mins"@) {
            assert(s.subrange(p, p + 4)[0] == s[p + 0]);
            assert(s.subrange(p, p + 3)[0] == s[p + 0]);
            assert(false);
        }
    };
    assert(!match_at(s, p, "min"@)) by {
        if match_at(s, p, "min"@) {
            assert(s.subrange(p, p + 3)[0] == s[p + 0]);
            assert(s.subrange(p, p + 3)[0] == s[p + 0]);
            assert(false);
        }
    };
    assert(!match_at(s, p, "m"@)) by {
        if match_at(s, p, "m"@) {
            assert(s.subrange(p, p + 1)[0] == s[p + 0]);
            assert(s.subrange(p, p + 3)[0] == s[p + 0]);
            assert(false);
        }
    };
    assert(!match_at(s, p, "hours"@)) by {
        if match_at(s, p, "hours"@) {
            assert(s.subrange(p, p + 5)[1] == s[p + 1]);
            assert(s.subrange(p, p + 3)[1] == s[p + 1]);
            assert(false);
        }
    };
    assert(!match_at(s, p, "hour"@)) by {
        if match_at(s, p, "hour"@) {
            assert(s.subrange(p, p + 4)[1] == s[p + 1]);
            assert(s.subrange(p, p + 3)[1] == s[p + 1]);
            assert(false);
        }
    };
    assert(match_at(s, p, "hrs"@));
}

/// With `hr` at `p` and the word `and` right after it, the resolver
/// yields `Hours`.
proof fn lemma_preand_hours_hr(s: Seq<char>, p: int)
    requires
        0 <= p,
        p + 5 <= s.len(),
        s.subrange(p, p + 2) == "hr"@,
        s[p + 2] == 'a',
        s[p + 3] == 'n',
        s[p + 4] == 'd',
    ensures
        resolve_unit(s, p) == Some((Unit::Hours, p + 2)),
{
    reveal_strlit("months");
    reveal_strlit("month");
    reveal_strlit("mths");
    reveal_strlit("mth");
    reveal_strlit("M");
    reveal_strlit("days");
    reveal_strlit("day");
    reveal_strlit("dys");
    reveal_strlit("dy");
    reveal_strlit("d");
    reveal_strlit("D");
    reveal_strlit("weeks");
    reveal_strlit("week");
    reveal_strlit("wks");
    reveal_strlit("wk");
    reveal_strlit("w");
    reveal_strlit("W");
    reveal_strlit("years");
    reveal_strlit("year");
    reveal_strlit("yrs");
    reveal_strlit("yr");
    reveal_strlit("y");
    reveal_strlit("Y");
    reveal_strlit("nanos");
    reveal_strlit("nsec");
    reveal_strlit("ns");
    reveal_strlit("micros");
    reveal_strlit("usec");
    reveal_strlit("us");
    reveal_strlit("millis");
    reveal_strlit("msec");
    reveal_strlit("ms");
    reveal_strlit("seconds");
    reveal_strlit("second");
    reveal_strlit("secs");
    reveal_strlit("sec");
    reveal_strlit("s");
    reveal_strlit("minutes");
    reveal_strlit("minute");
    reveal_strlit("mins");
    reveal_strlit("min");
    reveal_strlit("m");
    reveal_strlit("hours");
    reveal_strlit("hour");
    reveal_strlit("hrs");
    reveal_strlit("hr");
    reveal_strlit("h");
    reveal_strlit("H");
    assert(!match_at(s, p, "months"@)) by {
        if match_at(s, p, "months"@) {
            assert(s.subrange(p, p + 6)[0] == s[p + 0]);
            assert(s.subrange(p, p + 2)[0] == s[p + 0]);
            assert(false);
        }
    };
    assert(!match_at(s, p, "month"@)) by {
        if match_at(s, p, "month"@) {
            assert(s.subrange(p, p + 5)[0] == s[p + 0]);
            assert(s.subrange(p, p + 2)[0] == s[p + 0]);
            assert(false);
        }
    };
    assert(!match_at(s, p, "mths"@)) by {
        if match_at(s, p, "mths"@) {
            assert(s.subrange(p, p + 4)[0] == s[p + 0]);
            assert(s.subrange(p, p + 2)[0] == s[p + 0]);
            assert(false);
        }
    };
    assert(!match_at(s, p, "mth"@)) by {
        if match_at(s, p, "mth"@) {
            assert(s.subrange(p, p + 3)[0] == s[p + 0]);
            assert(s.subrange(p, p + 2)[0] == s[p + 0]);
            assert(false);
        }
    };
    assert(!match_at(s, p, "M"@)) by {
        if match_at(s, p, "M"@) {
            assert(s.subrange(p, p + 1)[0] == s[p + 0]);
            assert(s.subrange(p, p + 2)[0] == s[p + 0]);
            assert(false);
        }
    };
    assert(!match_at(s, p, "days"@)) by {
        if match_at(s, p, "days"@) {
            assert(s.subrange(p, p + 4)[0] == s[p + 0]);
            assert(s.subrange(p, p + 2)[0] == s[p + 0]);
            assert(false);
        }
    };
    assert(!match_at(s, p, "day"@)) by {
        if match_at(s, p, "day"@) {
            assert(s.subrange(p, p + 3)[0] == s[p + 0]);
            assert(s.subrange(p, p + 2)[0] == s[p + 0]);
            assert(false);
        }
    };
    assert(!match_at(s, p, "dys"@)) by {
        if match_at(s, p, "dys"@) {
            assert(s.subrange(p, p + 3)[0] == s[p + 0]);
            assert(s.subrange(p, p + 2)[0] == s[p + 0]);
            assert(false);
        }
    };
    assert(!match_at(s, p, "dy"@)) by {
        if match_at(s, p, "dy"@) {
            assert(s.subrange(p, p + 2)[0] == s[p + 0]);
            assert(s.subrange(p, p + 2)[0] == s[p + 0]);
            assert(false);
        }
    };
    assert(!match_at(s, p, "d"@)) by {
        if match_at(s, p, "d"@) {
            assert(s.subrange(p, p + 1)[0] == s[p + 0]);
            assert(s.subrange(p, p + 2)[0] == s[p + 0]);
            assert(false);
        }
    };
    assert(!match_at(s, p, "D"@)) by {
        if match_at(s, p, "D"@) {
            assert(s.subrange(p, p + 1)[0] == s[p + 0]);
            assert(s.subrange(p, p + 2)[0] == s[p + 0]);
            assert(false);
        }
    };
    assert(!match_at(s, p, "weeks"@)) by {
        if match_at(s, p, "weeks"@) {
            assert(s.subrange(p, p + 5)[0] == s[p + 0]);
            assert(s.subrange(p, p + 2)[0] == s[p + 0]);
            assert(false);
        }
    };
    assert(!match_at(s, p, "week"@)) by {
        if match_at(s, p, "week"@) {
            assert(s.subrange(p, p + 4)[0] == s[p + 0]);
            assert(s.subrange(p, p + 2)[0] == s[p + 0]);
            assert(false);
        }
    };
    assert(!match_at(s, p, "wks"@)) by {
        if match_at(s, p, "wks"@) {
            assert(s.subrange(p, p + 3)[0] == s[p + 0]);
            assert(s.subrange(p, p + 2)[0] == s[p + 0]);
            assert(false);
        }
    };
    assert(!match_at(s, p, "wk"@)) by {
        if match_at(s, p, "wk"@) {
            assert(s.subrange(p, p + 2)[0] == s[p + 0]);
            assert(s.subrange(p, p + 2)[0] == s[p + 0]);
            assert(false);
        }
    };
    assert(!match_at(s, p, "w"@)) by {
        if match_at(s, p, "w"@) {
            assert(s.subrange(p, p + 1)[0] == s[p + 0]);
            assert(s.subrange(p, p + 2)[0] == s[p + 0]);
            assert(false);
        }
    };
    assert(!match_at(s, p, "W"@)) by {
        if match_at(s, p, "W"@) {
            assert(s.subrange(p, p + 1)[0] == s[p + 0]);
            assert(s.subrange(p, p + 2)[0] == s[p + 0]);
            assert(false);
        }
    };
    assert(!match_at(s, p, "years"@)) by {
        if match_at(s, p, "years"@) {
            assert(s.subrange(p, p + 5)[0] == s[p + 0]);
            assert(s.subrange(p, p + 2)[0] == s[p + 0]);
            assert(false);
        }
    };
    assert(!match_at(s, p, "year"@)) by {
        if match_at(s, p, "year"@) {
            assert(s.subrange(p, p + 4)[0] == s[p + 0]);
            assert(s.subrange(p, p + 2)[0] == s[p + 0]);
            assert(false);
        }
    };
    assert(!match_at(s, p, "yrs"@)) by {
        if match_at(s, p, "yrs"@) {
            assert(s.subrange(p, p + 3)[0] == s[p + 0]);
            assert(s.subrange(p, p + 2)[0] == s[p + 0]);
            assert(false);
        }
    };
    assert(!match_at(s, p, "yr"@)) by {
        if match_at(s, p, "yr"@) {
            assert(s.subrange(p, p + 2)[0] == s[p + 0]);
            assert(s.subrange(p, p + 2)[0] == s[p + 0]);
            assert(false);
        }
    };
    assert(!match_at(s, p, "y"@)) by {
        if match_at(s, p, "y"@) {
            assert(s.subrange(p, p + 1)[0] == s[p + 0]);
            assert(s.subrange(p, p + 2)[0] == s[p + 0]);
            assert(false);
        }
    };
    assert(!match_at(s, p, "Y"@)) by {
        if match_at(s, p, "Y"@) {
            assert(s.subrange(p, p + 1)[0] == s[p + 0]);
            assert(s.subrange(p, p + 2)[0] == s[p + 0]);
            assert(false);
        }
    };
    assert(!match_at(s, p, "nanos"@)) by {
        if match_at(s, p, "nanos"@) {
            assert(s.subrange(p, p + 5)[0] == s[p + 0]);
            assert(s.subrange(p, p + 2)[0] == s[p + 0]);
            assert(false);
        }
    };
    assert(!match_at(s, p, "nsec"@)) by {
        if match_at(s, p, "nsec"@) {
            assert(s.subrange(p, p + 4)[0] == s[p + 0]);
            assert(s.subrange(p, p + 2)[0] == s[p + 0]);
            assert(false);
        }
    };
    assert(!match_at(s, p, "ns"@)) by {
        if match_at(s, p, "ns"@) {
            assert(s.subrange(p, p + 2)[0] == s[p + 0]);
            assert(s.subrange(p, p + 2)[0] == s[p + 0]);
            assert(false);
        }
    };
    assert(!match_at(s, p, "micros"@)) by {
        if match_at(s, p, "micros"@) {
            assert(s.subrange(p, p + 6)[0] == s[p + 0]);
            assert(s.subrange(p, p + 2)[0] == s[p + 0]);
            assert(false);
        }
    };
    assert(!match_at(s, p, "usec"@)) by {
        if match_at(s, p, "usec"@) {
            assert(s.subrange(p, p + 4)[0] == s[p + 0]);
            assert(s.subrange(p, p + 2)[0] == s[p + 0]);
            assert(false);
        }
    };
    assert(!match_at(s, p, "us"@)) by {
        if match_at(s, p, "us"@) {
            assert(s.subrange(p, p + 2)[0] == s[p + 0]);
            assert(s.subrange(p, p + 2)[0] == s[p + 0]);
            assert(false);
        }
    };
    assert(!match_at(s, p, "millis"@)) by {
        if match_at(s, p, "millis"@) {
            assert(s.subrange(p, p + 6)[0] == s[p + 0]);
            assert(s.subrange(p, p + 2)[0] == s[p + 0]);
            assert(false);
        }
    };
    assert(!match_at(s, p, "msec"@)) by {
        if match_at(s, p, "msec"@) {
            assert(s.subrange(p, p + 4)[0] == s[p + 0]);
            assert(s.subrange(p, p + 2)[0] == s[p + 0]);
            assert(false);
        }
    };
    assert(!match_at(s, p, "ms"@)) by {
        if match_at(s, p, "ms"@) {
            assert(s.subrange(p, p + 2)[0] == s[p + 0]);
            assert(s.subrange(p, p + 2)[0] == s[p + 0]);
            assert(false);
        }
    };
    assert(!match_at(s, p, "seconds"@)) by {
        if match_at(s, p, "seconds"@) {
            assert(s.subrange(p, p + 7)[0] == s[p + 0]);
            assert(s.subrange(p, p + 2)[0] == s[p + 0]);
            assert(false);
        }
    };
    assert(!match_at(s, p, "second"@)) by {
        if match_at(s, p, "second"@) {
            assert(s.subrange(p, p + 6)[0] == s[p + 0]);
            assert(s.subrange(p, p + 2)[0] == s[p + 0]);
            assert(false);
        }
    };
    assert(!match_at(s, p, "secs"@)) by {
        if match_at(s, p, "secs"@) {
            assert(s.subrange(p, p + 4)[0] == s[p + 0]);
            assert(s.subrange(p, p + 2)[0] == s[p + 0]);
            assert(false);
        }
    };
    assert(!match_at(s, p, "sec"@)) by {
        if match_at(s, p, "sec"@) {
            assert(s.subrange(p, p + 3)[0] == s[p + 0]);
            assert(s.subrange(p, p + 2)[0] == s[p + 0]);
            assert(false);
        }
    };
    assert(!match_at(s, p, "s"@)) by {
        if match_at(s, p, "s"@) {
            assert(s.subrange(p, p + 1)[0] == s[p + 0]);
            assert(s.subrange(p, p + 2)[0] == s[p + 0]);
            assert(false);
        }
    };
    assert(!match_at(s, p, "minutes"@)) by {
        if match_at(s, p, "minutes"@) {
            assert(s.subrange(p, p + 7)[0] == s[p + 0]);
            assert(s.subrange(p, p + 2)[0] == s[p + 0]);
            assert(false);
        }
    };
    assert(!match_at(s, p, "minute"@)) by {
        if match_at(s, p, "minute"@) {
            assert(s.subrange(p, p + 6)[0] == s[p + 0]);
            assert(s.subrange(p, p + 2)[0] == s[p + 0]);
            assert(false);
        }
    };
    assert(!match_at(s, p, "mins"@)) by {
        if match_at(s, p, "mins"@) {
            assert(s.subrange(p, p + 4)[0] == s[p + 0]);
            assert(s.subrange(p, p + 2)[0] == s[p + 0]);
            assert(false);
        }
    };
    assert(!match_at(s, p, "min"@)) by {
        if match_at(s, p, "min"@) {
            assert(s.subrange(p, p + 3)[0] == s[p + 0]);
            assert(s.subrange(p, p + 2)[0] == s[p + 0]);
            assert(false);
        }
    };
    assert(!match_at(s, p, "m"@)) by {
        if match_at(s, p, "m"@) {
            assert(s.subrange(p, p + 1)[0] == s[p + 0]);
            assert(s.subrange(p, p + 2)[0] == s[p + 0]);
            assert(false);
        }
    };
    assert(!match_at(s, p, "hours"@)) by {
        if match_at(s, p, "hours"@) {
            assert(s.subrange(p, p + 5)[1] == s[p + 1]);
            assert(s.subrange(p, p + 2)[1] == s[p + 1]);
            assert(false);
        }
    };
    assert(!match_at(s, p, "hour"@)) by {
        if match_at(s, p, "hour"@) {
            assert(s.subrange(p, p + 4)[1] == s[p + 1]);
            assert(s.subrange(p, p + 2)[1] == s[p + 1]);
            assert(false);
        }
    };
    assert(!match_at(s, p, "hrs"@)) by {
        if match_at(s, p, "hrs"@) {
            assert(s.subrange(p, p + 3)[2] == s[p + 2]);
            assert(false);
        }
    };
    assert(match_at(s, p, "hr"@));
}

/// With `h` at `p` and the word `and` right after it, the resolver
/// yields `Hours`.
proof fn lemma_preand_hours_h(s: Seq<char>, p: int)
    requires
        0 <= p,
        p + 4 <= s.len(),
        s.subrange(p, p + 1) == "h"@,
        s[p + 1] == 'a',
        s[p + 2] == 'n',
        s[p + 3] == 'd',
    ensures
        resolve_unit(s, p) == Some((Unit::Hours, p + 1)),
{
    reveal_strlit("months");
    reveal_strlit("month");
    reveal_strlit("mths");
    reveal_strlit("mth");
    reveal_strlit("M");
    reveal_strlit("days");
    reveal_strlit("day");
    reveal_strlit("dys");
    reveal_strlit("dy");
    reveal_strlit("d");
    reveal_strlit("D");
    reveal_strlit("weeks");
    reveal_strlit("week");
    reveal_strlit("wks");
    reveal_strlit("wk");
    reveal_strlit("w");
    reveal_strlit("W");
    reveal_strlit("years");
    reveal_strlit("year");
    reveal_strlit("yrs");
    reveal_strlit("yr");
    reveal_strlit("y");
    reveal_strlit("Y");
    reveal_strlit("nanos");
    reveal_strlit("nsec");
    reveal_strlit("ns");
    reveal_strlit("micros");
    reveal_strlit("usec");
    reveal_strlit("us");
    reveal_strlit("millis");
    reveal_strlit("msec");
    reveal_strlit("ms");
    reveal_strlit("seconds");
    reveal_strlit("second");
    reveal_strlit("secs");
    reveal_strlit("sec");
    reveal_strlit("s");
    reveal_strlit("minutes");
    reveal_strlit("minute");
    reveal_strlit("mins");
    reveal_strlit("min");
    reveal_strlit("m");
    reveal_strlit("hours");
    reveal_strlit("hour");
    reveal_strlit("hrs");
    reveal_strlit("hr");
    reveal_strlit("h");
    reveal_strlit("H");
    assert(!match_at(s, p, "months"@)) by {
        if match_at(s, p, "months"@) {
            assert(s.subrange(p, p + 6)[0] == s[p + 0]);
            assert(s.subrange(p, p + 1)[0] == s[p + 0]);
            assert(false);
        }
    };
    assert(!match_at(s, p, "month"@)) by {
        if match_at(s, p, "month"@) {
            assert(s.subrange(p, p + 5)[0] == s[p + 0]);
            assert(s.subrange(p, p + 1)[0] == s[p + 0]);
            assert(false);
        }
    };
    assert(!match_at(s, p, "mths"@)) by {
        if match_at(s, p, "mths"@) {
            assert(s.subrange(p, p + 4)[0] == s[p + 0]);
            assert(s.subrange(p, p + 1)[0] == s[p + 0]);
            assert(false);
        }
    };
    assert(!match_at(s, p, "mth"@)) by {
        if match_at(s, p, "mth"@) {
            assert(s.subrange(p, p + 3)[0] == s[p + 0]);
            assert(s.subrange(p, p + 1)[0] == s[p + 0]);
            assert(false);
        }
    };
    assert(!match_at(s, p, "M"@)) by {
        if match_at(s, p, "M"@) {
            assert(s.subrange(p, p + 1)[0] == s[p + 0]);
            assert(s.subrange(p, p + 1)[0] == s[p + 0]);
            assert(false);
        }
    };
    assert(!match_at(s, p, "days"@)) by {
        if match_at(s, p, "days"@) {
            assert(s.subrange(p, p + 4)[0] == s[p + 0]);
            assert(s.subrange(p, p + 1)[0] == s[p + 0]);
            assert(false);
        }
    };
    assert(!match_at(s, p, "day"@)) by {
        if match_at(s, p, "day"@) {
            assert(s.subrange(p, p + 3)[0] == s[p + 0]);
            assert(s.subrange(p, p + 1)[0] == s[p + 0]);
            assert(false);
        }
    };
    assert(!match_at(s, p, "dys"@)) by {
        if match_at(s, p, "dys"@) {
            assert(s.subrange(p, p + 3)[0] == s[p + 0]);
            assert(s.subrange(p, p + 1)[0] == s[p + 0]);
            assert(false);
        }
    };
    assert(!match_at(s, p, "dy"@)) by {
        if match_at(s, p, "dy"@) {
            assert(s.subrange(p, p + 2)[0] == s[p + 0]);
            assert(s.subrange(p, p + 1)[0] == s[p + 0]);
            assert(false);
        }
    };
    assert(!match_at(s, p, "d"@)) by {
        if match_at(s, p, "d"@) {
            assert(s.subrange(p, p + 1)[0] == s[p + 0]);
            assert(s.subrange(p, p + 1)[0] == s[p + 0]);
            assert(false);
        }
    };
    assert(!match_at(s, p, "D"@)) by {
        if match_at(s, p, "D"@) {
            assert(s.subrange(p, p + 1)[0] == s[p + 0]);
            assert(s.subrange(p, p + 1)[0] == s[p + 0]);
            assert(false);
        }
    };
    assert(!match_at(s, p, "weeks"@)) by {
        if match_at(s, p, "weeks"@) {
            assert(s.subrange(p, p + 5)[0] == s[p + 0]);
            assert(s.subrange(p, p + 1)[0] == s[p + 0]);
            assert(false);
        }
    };
    assert(!match_at(s, p, "week"@)) by {
        if match_at(s, p, "week"@) {
            assert(s.subrange(p, p + 4)[0] == s[p + 0]);
            assert(s.subrange(p, p + 1)[0] == s[p + 0]);
            assert(false);
        }
    };
    assert(!match_at(s, p, "wks"@)) by {
        if match_at(s, p, "wks"@) {
            assert(s.subrange(p, p + 3)[0] == s[p + 0]);
            assert(s.subrange(p, p + 1)[0] == s[p + 0]);
            assert(false);
        }
    };
    assert(!match_at(s, p, "wk"@)) by {
        if match_at(s, p, "wk"@) {
            assert(s.subrange(p, p + 2)[0] == s[p + 0]);
            assert(s.subrange(p, p + 1)[0] == s[p + 0]);
            assert(false);
        }
    };
    assert(!match_at(s, p, "w"@)) by {
        if match_at(s, p, "w"@) {
            assert(s.subrange(p, p + 1)[0] == s[p + 0]);
            assert(s.subrange(p, p + 1)[0] == s[p + 0]);
            assert(false);
        }
    };
    assert(!match_at(s, p, "W"@)) by {
        if match_at(s, p, "W"@) {
            assert(s.subrange(p, p + 1)[0] == s[p + 0]);
            assert(s.subrange(p, p + 1)[0] == s[p + 0]);
            assert(false);
        }
    };
    assert(!match_at(s, p, "years"@)) by {
        if match_at(s, p, "years"@) {
            assert(s.subrange(p, p + 5)[0] == s[p + 0]);
            assert(s.subrange(p, p + 1)[0] == s[p + 0]);
            assert(false);
        }
    };
    assert(!match_at(s, p, "year"@)) by {
        if match_at(s, p, "year"@) {
            assert(s.subrange(p, p + 4)[0] == s[p + 0]);
            assert(s.subrange(p, p + 1)[0] == s[p + 0]);
            assert(false);
        }
    };
    assert(!match_at(s, p, "yrs"@)) by {
        if match_at(s, p, "yrs"@) {
            assert(s.subrange(p, p + 3)[0] == s[p + 0]);
            assert(s.subrange(p, p + 1)[0] == s[p + 0]);
            assert(false);
        }
    };
    assert(!match_at(s, p, "yr"@)) by {
        if match_at(s, p, "yr"@) {
            assert(s.subrange(p, p + 2)[0] == s[p + 0]);
            assert(s.subrange(p, p + 1)[0] == s[p + 0]);
            assert(false);
        }
    };
    assert(!match_at(s, p, "y"@)) by {
        if match_at(s, p, "y"@) {
            assert(s.subrange(p, p + 1)[0] == s[p + 0]);
            assert(s.subrange(p, p + 1)[0] == s[p + 0]);
            assert(false);
        }
    };
    assert(!match_at(s, p, "Y"@)) by {
        if match_at(s, p, "Y"@) {
            assert(s.subrange(p, p + 1)[0] == s[p + 0]);
            assert(s.subrange(p, p + 1)[0] == s[p + 0]);
            assert(false);
        }
    };
    assert(!match_at(s, p, "nanos"@)) by {
        if match_at(s, p, "nanos"@) {
            assert(s.subrange(p, p + 5)[0] == s[p + 0]);
            assert(s.subrange(p, p + 1)[0] == s[p + 0]);
            assert(false);
        }
    };
    assert(!match_at(s, p, "nsec"@)) by {
        if match_at(s, p, "nsec"@) {
            assert(s.subrange(p, p + 4)[0] == s[p + 0]);
            assert(s.subrange(p, p + 1)[0] == s[p + 0]);
            assert(false);
        }
    };
    assert(!match_at(s, p, "ns"@)) by {
        if match_at(s, p, "ns"@) {
            assert(s.subrange(p, p + 2)[0] == s[p + 0]);
            assert(s.subrange(p, p + 1)[0] == s[p + 0]);
            assert(false);
        }
    };
    assert(!match_at(s, p, "micros"@)) by {
        if match_at(s, p, "micros"@) {
            assert(s.subrange(p, p + 6)[0] == s[p + 0]);
            assert(s.subrange(p, p + 1)[0] == s[p + 0]);
            assert(false);
        }
    };
    assert(!match_at(s, p, "usec"@)) by {
        if match_at(s, p, "usec"@) {
            assert(s.subrange(p, p + 4)[0] == s[p + 0]);
            assert(s.subrange(p, p + 1)[0] == s[p + 0]);
            assert(false);
        }
    };
    assert(!match_at(s, p, "us"@)) by {
        if match_at(s, p, "us"@) {
            assert(s.subrange(p, p + 2)[0] == s[p + 0]);
            assert(s.subrange(p, p + 1)[0] == s[p + 0]);
            assert(false);
        }
    };
    assert(!match_at(s, p, "millis"@)) by {
        if match_at(s, p, "millis"@) {
            assert(s.subrange(p, p + 6)[0] == s[p + 0]);
            assert(s.subrange(p, p + 1)[0] == s[p + 0]);
            assert(false);
        }
    };
    assert(!match_at(s, p, "msec"@)) by {
        if match_at(s, p, "msec"@) {
            assert(s.subrange(p, p + 4)[0] == s[p + 0]);
            assert(s.subrange(p, p + 1)[0] == s[p + 0]);
            assert(false);
        }
    };
    assert(!match_at(s, p, "ms"@)) by {
        if match_at(s, p, "ms"@) {
            assert(s.subrange(p, p + 2)[0] == s[p + 0]);
            assert(s.subrange(p, p + 1)[0] == s[p + 0]);
            assert(false);
        }
    };
    assert(!match_at(s, p, "seconds"@)) by {
        if match_at(s, p, "seconds"@) {
            assert(s.subrange(p, p + 7)[0] == s[p + 0]);
            assert(s.subrange(p, p + 1)[0] == s[p + 0]);
            assert(false);
        }
    };
    assert(!match_at(s, p, "second"@)) by {
        if match_at(s, p, "second"@) {
            assert(s.subrange(p, p + 6)[0] == s[p + 0]);
            assert(s.subrange(p, p + 1)[0] == s[p + 0]);
            assert(false);
        }
    };
    assert(!match_at(s, p, "secs"@)) by {
        if match_at(s, p, "secs"@) {
            assert(s.subrange(p, p + 4)[0] == s[p + 0]);
            assert(s.subrange(p, p + 1)[0] == s[p + 0]);
            assert(false);
        }
    };
    assert(!match_at(s, p, "sec"@)) by {
        if match_at(s, p, "sec"@) {
            assert(s.subrange(p, p + 3)[0] == s[p + 0]);
            assert(s.subrange(p, p + 1)[0] == s[p + 0]);
            assert(false);
        }
    };
    assert(!match_at(s, p, "s"@)) by {
        if match_at(s, p, "s"@) {
            assert(s.subrange(p, p + 1)[0] == s[p + 0]);
            assert(s.subrange(p, p + 1)[0] == s[p + 0]);
            assert(false);
        }
    };
    assert(!match_at(s, p, "minutes"@)) by {
        if match_at(s, p, "minutes"@) {
            assert(s.subrange(p, p + 7)[0] == s[p + 0]);
            assert(s.subrange(p, p + 1)[0] == s[p + 0]);
            assert(false);
        }
    };
    assert(!match_at(s, p, "minute"@)) by {
        if match_at(s, p, "minute"@) {
            assert(s.subrange(p, p + 6)[0] == s[p + 0]);
            assert(s.subrange(p, p + 1)[0] == s[p + 0]);
            assert(false);
        }
    };
    assert(!match_at(s, p, "mins"@)) by {
        if match_at(s, p, "mins"@) {
            assert(s.subrange(p, p + 4)[0] == s[p + 0]);
            assert(s.subrange(p, p + 1)[0] == s[p + 0]);
            assert(false);
        }
    };
    assert(!match_at(s, p, "min"@)) by {
        if match_at(s, p, "min"@) {
            assert(s.subrange(p, p + 3)[0] == s[p + 0]);
            assert(s.subrange(p, p + 1)[0] == s[p + 0]);
            assert(false);
        }
    };
    assert(!match_at(s, p, "m"@)) by {
        if match_at(s, p, "m"@) {
            assert(s.subrange(p, p + 1)[0] == s[p + 0]);
            assert(s.subrange(p, p + 1)[0] == s[p + 0]);
            assert(false);
        }
    };
    assert(!match_at(s, p, "hours"@)) by {
        if match_at(s, p, "hours"@) {
            assert(s.subrange(p, p + 5)[1] == s[p + 1]);
            assert(false);
        }
    };
    assert(!match_at(s, p, "hour"@)) by {
        if match_at(s, p, "hour"@) {
            assert(s.subrange(p, p + 4)[1] == s[p + 1]);
            assert(false);
        }
    };
    assert(!match_at(s, p, "hrs"@)) by {
        if match_at(s, p, "hrs"@) {
            assert(s.subrange(p, p + 3)[1] == s[p + 1]);
            assert(false);
        }
    };
    assert(!match_at(s, p, "hr"@)) by {
        if match_at(s, p, "hr"@) {
            assert(s.subrange(p, p + 2)[1] == s[p + 1]);
            assert(false);
        }
    };
    assert(match_at(s, p, "h"@));
}

/// With `H` at `p` and the word `and` right after it, the resolver
/// yields `Hours`.
proof fn lemma_preand_hours_cap_h(s: Seq<char>, p: int)
    requires
        0 <= p,
        p + 4 <= s.len(),
        s.subrange(p, p + 1) == "H"@,
        s[p + 1] == 'a',
        s[p + 2] == 'n',
        s[p + 3] == 'd',
    ensures
        resolve_unit(s, p) == Some((Unit::Hours, p + 1)),
{
    reveal_strlit("months");
    reveal_strlit("month");
    reveal_strlit("mths");
    reveal_strlit("mth");
    reveal_strlit("M");
    reveal_strlit("days");
    reveal_strlit("day");
    reveal_strlit("dys");
    reveal_strlit("dy");
    reveal_strlit("d");
    reveal_strlit("D");
    reveal_strlit("weeks");
    reveal_strlit("week");
    reveal_strlit("wks");
    reveal_strlit("wk");
    reveal_strlit("w");
    reveal_strlit("W");
    reveal_strlit("years");
    reveal_strlit("year");
    reveal_strlit("yrs");
    reveal_strlit("yr");
    reveal_strlit("y");
    reveal_strlit("Y");
    reveal_strlit("nanos");
    reveal_strlit("nsec");
    reveal_strlit("ns");
    reveal_strlit("micros");
    reveal_strlit("usec");
    reveal_strlit("us");
    reveal_strlit("millis");
    reveal_strlit("msec");
    reveal_strlit("ms");
    reveal_strlit("seconds");
    reveal_strlit("second");
    reveal_strlit("secs");
    reveal_strlit("sec");
    reveal_strlit("s");
    reveal_strlit("minutes");
    reveal_strlit("minute");
    reveal_strlit("mins");
    reveal_strlit("min");
    reveal_strlit("m");
    reveal_strlit("hours");
    reveal_strlit("hour");
    reveal_strlit("hrs");
    reveal_strlit("hr");
    reveal_strlit("h");
    reveal_strlit("H");
    assert(!match_at(s, p, "months"@)) by {
        if match_at(s, p, "months"@) {
            assert(s.subrange(p, p + 6)[0] == s[p + 0]);
            assert(s.subrange(p, p + 1)[0] == s[p + 0]);
            assert(false);
        }
    };
    assert(!match_at(s, p, "month"@)) by {
        if match_at(s, p, "month"@) {
            assert(s.subrange(p, p + 5)[0] == s[p + 0]);
            assert(s.subrange(p, p + 1)[0] == s[p + 0]);
            assert(false);
        }
    };
    assert(!match_at(s, p, "mths"@)) by {
        if match_at(s, p, "mths"@) {
            assert(s.subrange(p, p + 4)[0] == s[p + 0]);
            assert(s.subrange(p, p + 1)[0] == s[p + 0]);
            assert(false);
        }
    };
    assert(!match_at(s, p, "mth"@)) by {
        if match_at(s, p, "mth"@) {
            assert(s.subrange(p, p + 3)[0] == s[p + 0]);
            assert(s.subrange(p, p + 1)[0] == s[p + 0]);
            assert(false);
        }
    };
    assert(!match_at(s, p, "M"@)) by {
        if match_at(s, p, "M"@) {
            assert(s.subrange(p, p + 1)[0] == s[p + 0]);
            assert(s.subrange(p, p + 1)[0] == s[p + 0]);
            assert(false);
        }
    };
    assert(!match_at(s, p, "days"@)) by {
        if match_at(s, p, "days"@) {
            assert(s.subrange(p, p + 4)[0] == s[p + 0]);
            assert(s.subrange(p, p + 1)[0] == s[p + 0]);
            assert(false);
        }
    };
    assert(!match_at(s, p, "day"@)) by {
        if match_at(s, p, "day"@) {
            assert(s.subrange(p, p + 3)[0] == s[p + 0]);
            assert(s.subrange(p, p + 1)[0] == s[p + 0]);
            assert(false);
        }
    };
    assert(!match_at(s, p, "dys"@)) by {
        if match_at(s, p, "dys"@) {
            assert(s.subrange(p, p + 3)[0] == s[p + 0]);
            assert(s.subrange(p, p + 1)[0] == s[p + 0]);
            assert(false);
        }
    };
    assert(!match_at(s, p, "dy"@)) by {
        if match_at(s, p, "dy"@) {
            assert(s.subrange(p, p + 2)[0] == s[p + 0]);
            assert(s.subrange(p, p + 1)[0] == s[p + 0]);
            assert(false);
        }
    };
    assert(!match_at(s, p, "d"@)) by {
        if match_at(s, p, "d"@) {
            assert(s.subrange(p, p + 1)[0] == s[p + 0]);
            assert(s.subrange(p, p + 1)[0] == s[p + 0]);
            assert(false);
        }
    };
    assert(!match_at(s, p, "D"@)) by {
        if match_at(s, p, "D"@) {
            assert(s.subrange(p, p + 1)[0] == s[p + 0]);
            assert(s.subrange(p, p + 1)[0] == s[p + 0]);
            assert(false);
        }
    };
    assert(!match_at(s, p, "weeks"@)) by {
        if match_at(s, p, "weeks"@) {
            assert(s.subrange(p, p + 5)[0] == s[p + 0]);
            assert(s.subrange(p, p + 1)[0] == s[p + 0]);
            assert(false);
        }
    };
    assert(!match_at(s, p, "week"@)) by {
        if match_at(s, p, "week"@) {
            assert(s.subrange(p, p + 4)[0] == s[p + 0]);
            assert(s.subrange(p, p + 1)[0] == s[p + 0]);
            assert(false);
        }
    };
    assert(!match_at(s, p, "wks"@)) by {
        if match_at(s, p, "wks"@) {
            assert(s.subrange(p, p + 3)[0] == s[p + 0]);
            assert(s.subrange(p, p + 1)[0] == s[p + 0]);
            assert(false);
        }
    };
    assert(!match_at(s, p, "wk"@)) by {
        if match_at(s, p, "wk"@) {
            assert(s.subrange(p, p + 2)[0] == s[p + 0]);
            assert(s.subrange(p, p + 1)[0] == s[p + 0]);
            assert(false);
        }
    };
    assert(!match_at(s, p, "w"@)) by {
        if match_at(s, p, "w"@) {
            assert(s.subrange(p, p + 1)[0] == s[p + 0]);
            assert(s.subrange(p, p + 1)[0] == s[p + 0]);
            assert(false);
        }
    };
    assert(!match_at(s, p, "W"@)) by {
        if match_at(s, p, "W"@) {
            assert(s.subrange(p, p + 1)[0] == s[p + 0]);
            assert(s.subrange(p, p + 1)[0] == s[p + 0]);
            assert(false);
        }
    };
    assert(!match_at(s, p, "years"@)) by {
        if match_at(s, p, "years"@) {
            assert(s.subrange(p, p + 5)[0] == s[p + 0]);
            assert(s.subrange(p, p + 1)[0] == s[p + 0]);
            assert(false);
        }
    };
    assert(!match_at(s, p, "year"@)) by {
        if match_at(s, p, "year"@) {
            assert(s.subrange(p, p + 4)[0] == s[p + 0]);
            assert(s.subrange(p, p + 1)[0] == s[p + 0]);
            assert(false);
        }
    };
    assert(!match_at(s, p, "yrs"@)) by {
        if match_at(s, p, "yrs"@) {
            assert(s.subrange(p, p + 3)[0] == s[p + 0]);
            assert(s.subrange(p, p + 1)[0] == s[p + 0]);
            assert(false);
        }
    };
    assert(!match_at(s, p, "yr"@)) by {
        if match_at(s, p, "yr"@) {
            assert(s.subrange(p, p + 2)[0] == s[p + 0]);
            assert(s.subrange(p, p + 1)[0] == s[p + 0]);
            assert(false);
        }
    };
    assert(!match_at(s, p, "y"@)) by {
        if match_at(s, p, "y"@) {
            assert(s.subrange(p, p + 1)[0] == s[p + 0]);
            assert(s.subrange(p, p + 1)[0] == s[p + 0]);
            assert(false);
        }
    };
    assert(!match_at(s, p, "Y"@)) by {
        if match_at(s, p, "Y"@) {
            assert(s.subrange(p, p + 1)[0] == s[p + 0]);
            assert(s.subrange(p, p + 1)[0] == s[p + 0]);
            assert(false);
        }
    };
    assert(!match_at(s, p, "nanos"@)) by {
        if match_at(s, p, "nanos"@) {
            assert(s.subrange(p, p + 5)[0] == s[p + 0]);
            assert(s.subrange(p, p + 1)[0] == s[p + 0]);
            assert(false);
        }
    };
    assert(!match_at(s, p, "nsec"@)) by {
        if match_at(s, p, "nsec"@) {
            assert(s.subrange(p, p + 4)[0] == s[p + 0]);
            assert(s.subrange(p, p + 1)[0] == s[p + 0]);
            assert(false);
        }
    };
    assert(!match_at(s, p, "ns"@)) by {
        if match_at(s, p, "ns"@) {
            assert(s.subrange(p, p + 2)[0] == s[p + 0]);
            assert(s.subrange(p, p + 1)[0] == s[p + 0]);
            assert(false);
        }
    };
    assert(!match_at(s, p, "micros"@)) by {
        if match_at(s, p, "micros"@) {
            assert(s.subrange(p, p + 6)[0] == s[p + 0]);
            assert(s.subrange(p, p + 1)[0] == s[p + 0]);
            assert(false);
        }
    };
    assert(!match_at(s, p, "usec"@)) by {
        if match_at(s, p, "usec"@) {
            assert(s.subrange(p, p + 4)[0] == s[p + 0]);
            assert(s.subrange(p, p + 1)[0] == s[p + 0]);
            assert(false);
        }
    };
    assert(!match_at(s, p, "us"@)) by {
        if match_at(s, p, "us"@) {
            assert(s.subrange(p, p + 2)[0] == s[p + 0]);
            assert(s.subrange(p, p + 1)[0] == s[p + 0]);
            assert(false);
        }
    };
    assert(!match_at(s, p, "millis"@)) by {
        if match_at(s, p, "millis"@) {
            assert(s.subrange(p, p + 6)[0] == s[p + 0]);
            assert(s.subrange(p, p + 1)[0] == s[p + 0]);
            assert(false);
        }
    };
    assert(!match_at(s, p, "msec"@)) by {
        if match_at(s, p, "msec"@) {
            assert(s.subrange(p, p + 4)[0] == s[p + 0]);
            assert(s.subrange(p, p + 1)[0] == s[p + 0]);
            assert(false);
        }
    };
    assert(!match_at(s, p, "ms"@)) by {
        if match_at(s, p, "ms"@) {
            assert(s.subrange(p, p + 2)[0] == s[p + 0]);
            assert(s.subrange(p, p + 1)[0] == s[p + 0]);
            assert(false);
        }
    };
    assert(!match_at(s, p, "seconds"@)) by {
        if match_at(s, p, "seconds"@) {
            assert(s.subrange(p, p + 7)[0] == s[p + 0]);
            assert(s.subrange(p, p + 1)[0] == s[p + 0]);
            assert(false);
        }
    };
    assert(!match_at(s, p, "second"@)) by {
        if match_at(s, p, "second"@) {
            assert(s.subrange(p, p + 6)[0] == s[p + 0]);
            assert(s.subrange(p, p + 1)[0] == s[p + 0]);
            assert(false);
        }
    };
    assert(!match_at(s, p, "secs"@)) by {
        if match_at(s, p, "secs"@) {
            assert(s.subrange(p, p + 4)[0] == s[p + 0]);
            assert(s.subrange(p, p + 1)[0] == s[p + 0]);
            assert(false);
        }
    };
    assert(!match_at(s, p, "sec"@)) by {
        if match_at(s, p, "sec"@) {
            assert(s.subrange(p, p + 3)[0] == s[p + 0]);
            assert(s.subrange(p, p + 1)[0] == s[p + 0]);
            assert(false);
        }
    };
    assert(!match_at(s, p, "s"@)) by {
        if match_at(s, p, "s"@) {
            assert(s.subrange(p, p + 1)[0] == s[p + 0]);
            assert(s.subrange(p, p + 1)[0] == s[p + 0]);
            assert(false);
        }
    };
    assert(!match_at(s, p, "minutes"@)) by {
        if match_at(s, p, "minutes"@) {
            assert(s.subrange(p, p + 7)[0] == s[p + 0]);
            assert(s.subrange(p, p + 1)[0] == s[p + 0]);
            assert(false);
        }
    };
    assert(!match_at(s, p, "minute"@)) by {
        if match_at(s, p, "minute"@) {
            assert(s.subrange(p, p + 6)[0] == s[p + 0]);
            assert(s.subrange(p, p + 1)[0] == s[p + 0]);
            assert(false);
        }
    };
    assert(!match_at(s, p, "mins"@)) by {
        if match_at(s, p, "mins"@) {
            assert(s.subrange(p, p + 4)[0] == s[p + 0]);
            assert(s.subrange(p, p + 1)[0] == s[p + 0]);
            assert(false);
        }
    };
    assert(!match_at(s, p, "min"@)) by {
        if match_at(s, p, "min"@) {
            assert(s.subrange(p, p + 3)[0] == s[p + 0]);
            assert(s.subrange(p, p + 1)[0] == s[p + 0]);
            assert(false);
        }
    };
    assert(!match_at(s, p, "m"@)) by {
        if match_at(s, p, "m"@) {
            assert(s.subrange(p, p + 1)[0] == s[p + 0]);
            assert(s.subrange(p, p + 1)[0] == s[p + 0]);
            assert(false);
        }
    };
    assert(!match_at(s, p, "hours"@)) by {
        if match_at(s, p, "hours"@) {
            assert(s.subrange(p, p + 5)[0] == s[p + 0]);
            assert(s.subrange(p, p + 1)[0] == s[p + 0]);
            assert(false);
        }
    };
    assert(!match_at(s, p, "hour"@)) by {
        if match_at(s, p, "hour"@) {
            assert(s.subrange(p, p + 4)[0] == s[p + 0]);
            assert(s.subrange(p, p + 1)[0] == s[p + 0]);
            assert(false);
        }
    };
    assert(!match_at(s, p, "hrs"@)) by {
        if match_at(s, p, "hrs"@) {
            assert(s.subrange(p, p + 3)[0] == s[p + 0]);
            assert(s.subrange(p, p + 1)[0] == s[p + 0]);
            assert(false);
        }
    };
    assert(!match_at(s, p, "hr"@)) by {
        if match_at(s, p, "hr"@) {
            assert(s.subrange(p, p + 2)[0] == s[p + 0]);
            assert(s.subrange(p, p + 1)[0] == s[p + 0]);
            assert(false);
        }
    };
    assert(!match_at(s, p, "h"@)) by {
        if match_at(s, p, "h"@) {
            assert(s.subrange(p, p + 1)[0] == s[p + 0]);
            assert(s.subrange(p, p + 1)[0] == s[p + 0]);
            assert(false);
        }
    };
    assert(match_at(s, p, "H"@));
}

/// Any table suffix at `p` with the word `and` right after it resolves to
/// its unit, the match ending exactly before the `and`.
pub proof fn lemma_resolve_table_before_and(s: Seq<char>, p: int, sfx: Seq<char>, u: Unit)
    requires
        0 <= p,
        is_table_entry(sfx, u),
        p + sfx.len() + 3 <= s.len(),
        s.subrange(p, p + sfx.len() as int) == sfx,
        s[p + sfx.len()] == 'a',
        s[p + sfx.len() + 1] == 'n',
        s[p + sfx.len() + 2] == 'd',
    ensures
        resolve_unit(s, p) == Some((u, p + sfx.len() as int)),
{
    reveal_strlit("months");
    reveal_strlit("month");
    reveal_strlit("mths");
    reveal_strlit("mth");
    reveal_strlit("M");
    reveal_strlit("days");
    reveal_strlit("day");
    reveal_strlit("dys");
    reveal_strlit("dy");
    reveal_strlit("d");
    reveal_strlit("D");
    reveal_strlit("weeks");
    reveal_strlit("week");
    reveal_strlit("wks");
    reveal_strlit("wk");
    reveal_strlit("w");
    reveal_strlit("W");
    reveal_strlit("years");
    reveal_strlit("year");
    reveal_strlit("yrs");
    reveal_strlit("yr");
    reveal_strlit("y");
    reveal_strlit("Y");
    reveal_strlit("nanos");
    reveal_strlit("nsec");
    reveal_strlit("ns");
    reveal_strlit("micros");
    reveal_strlit("usec");
    reveal_strlit("us");
    reveal_strlit("millis");
    reveal_strlit("msec");
    reveal_strlit("ms");
    reveal_strlit("seconds");
    reveal_strlit("second");
    reveal_strlit("secs");
    reveal_strlit("sec");
    reveal_strlit("s");
    reveal_strlit("minutes");
    reveal_strlit("minute");
    reveal_strlit("mins");
    reveal_strlit("min");
    reveal_strlit("m");
    reveal_strlit("hours");
    reveal_strlit("hour");
    reveal_strlit("hrs");
    reveal_strlit("hr");
    reveal_strlit("h");
    reveal_strlit("H");
    if sfx == "months"@ && u == Unit::Months {
        lemma_preand_months_months(s, p);
    } else if sfx == "month"@ && u == Unit::Months {
        lemma_preand_months_month(s, p);
    } else if sfx == "mths"@ && u == Unit::Months {
        lemma_preand_months_mths(s, p);
    } else if sfx == "mth"@ && u == Unit::Months {
        lemma_preand_months_mth(s, p);
    } else if sfx == "M"@ && u == Unit::Months {
        lemma_preand_months_cap_m(s, p);
    } else if sfx == "days"@ && u == Unit::Days {
        lemma_preand_days_days(s, p);
    } else if sfx == "day"@ && u == Unit::Days {
        lemma_preand_days_day(s, p);
    } else if sfx == "dys"@ && u == Unit::Days {
        lemma_preand_days_dys(s, p);
    } else if sfx == "dy"@ && u == Unit::Days {
        lemma_preand_days_dy(s, p);
    } else if sfx == "d"@ && u == Unit::Days {
        lemma_preand_days_d(s, p);
    } else if sfx == "D"@ && u == Unit::Days {
        lemma_preand_days_cap_d(s, p);
    } else if sfx == "weeks"@ && u == Unit::Weeks {
        lemma_preand_weeks_weeks(s, p);
    } else if sfx == "week"@ && u == Unit::Weeks {
        lemma_preand_weeks_week(s, p);
    } else if sfx == "wks"@ && u == Unit::Weeks {
        lemma_preand_weeks_wks(s, p);
    } else if sfx == "wk"@ && u == Unit::Weeks {
        lemma_preand_weeks_wk(s, p);
    } else if sfx == "w"@ && u == Unit::Weeks {
        lemma_preand_weeks_w(s, p);
    } else if sfx == "W"@ && u == Unit::Weeks {
        lemma_preand_weeks_cap_w(s, p);
    } else if sfx == "years"@ && u == Unit::Years {
        lemma_preand_years_years(s, p);
    } else if sfx == "year"@ && u == Unit::Years {
        lemma_preand_years_year(s, p);
    } else if sfx == "yrs"@ && u == Unit::Years {
        lemma_preand_years_yrs(s, p);
    } else if sfx == "yr"@ && u == Unit::Years {
        lemma_preand_years_yr(s, p);
    } else if sfx == "y"@ && u == Unit::Years {
        lemma_preand_years_y(s, p);
    } else if sfx == "Y"@ && u == Unit::Years {
        lemma_preand_years_cap_y(s, p);
    } else if sfx == "nanos"@ && u == Unit::Nanos {
        lemma_preand_nanos_nanos(s, p);
    } else if sfx == "nsec"@ && u == Unit::Nanos {
        lemma_preand_nanos_nsec(s, p);
    } else if sfx == "ns"@ && u == Unit::Nanos {
        lemma_preand_nanos_ns(s, p);
    } else if sfx == "micros"@ && u == Unit::Micros {
        lemma_preand_micros_micros(s, p);
    } else if sfx == "usec"@ && u == Unit::Micros {
        lemma_preand_micros_usec(s, p);
    } else if sfx == "us"@ && u == Unit::Micros {
        lemma_preand_micros_us(s, p);
    } else if sfx == "millis"@ && u == Unit::Millis {
        lemma_preand_millis_millis(s, p);
    } else if sfx == "msec"@ && u == Unit::Millis {
        lemma_preand_millis_msec(s, p);
    } else if sfx == "ms"@ && u == Unit::Millis {
        lemma_preand_millis_ms(s, p);
    } else if sfx == "seconds"@ && u == Unit::Seconds {
        lemma_preand_seconds_seconds(s, p);
    } else if sfx == "second"@ && u == Unit::Seconds {
        lemma_preand_seconds_second(s, p);
    } else if sfx == "secs"@ && u == Unit::Seconds {
        lemma_preand_seconds_secs(s, p);
    } else if sfx == "sec"@ && u == Unit::Seconds {
        lemma_preand_seconds_sec(s, p);
    } else if sfx == "s"@ && u == Unit::Seconds {
        lemma_preand_seconds_s(s, p);
    } else if sfx == "minutes"@ && u == Unit::Minutes {
        lemma_preand_minutes_minutes(s, p);
    } else if sfx == "minute"@ && u == Unit::Minutes {
        lemma_preand_minutes_minute(s, p);
    } else if sfx == "mins"@ && u == Unit::Minutes {
        lemma_preand_minutes_mins(s, p);
    } else if sfx == "min"@ && u == Unit::Minutes {
        lemma_preand_minutes_min(s, p);
    } else if sfx == "m"@ && u == Unit::Minutes {
        lemma_preand_minutes_m(s, p);
    } else if sfx == "hours"@ && u == Unit::Hours {
        lemma_preand_hours_hours(s, p);
    } else if sfx == "hour"@ && u == Unit::Hours {
        lemma_preand_hours_hour(s, p);
    } else if sfx == "hrs"@ && u == Unit::Hours {
        lemma_preand_hours_hrs(s, p);
    } else if sfx == "hr"@ && u == Unit::Hours {
        lemma_preand_hours_hr(s, p);
    } else if sfx == "h"@ && u == Unit::Hours {
        lemma_preand_hours_h(s, p);
    } else if sfx == "H"@ && u == Unit::Hours {
        lemma_preand_hours_cap_h(s, p);
    } else {
        assert(false);
    }
}

} // verus!
