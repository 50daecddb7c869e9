//! Exact conversion of a scanned literal and its unit into a duration.
//!
//! A literal's value is `d * 10^k`.  The overflow guard rejects a literal
//! above `u64::MAX` before any unit conversion.  Conversion multiplies by the
//! unit's factor, takes the floor for whole seconds, and rounds the remainder
//! to the nearest nanosecond, half away from zero; all of it is integer
//! arithmetic on the decimal representation, so the result is exact.

use vstd::arithmetic::div_mod::{
    lemma_basic_div, lemma_div_is_ordered, lemma_fundamental_div_mod,
    lemma_fundamental_div_mod_converse_div, lemma_mod_division_less_than_divisor,
};
use vstd::arithmetic::mul::{lemma_mul_inequality, lemma_mul_strict_upper_bound};
use vstd::prelude::*;

use crate::duration::{Duration, NANOS_PER_SEC};
use crate::scan::MANT_LIMIT;
use crate::units::{factor_num, factor_pow, unit_factor, Unit};

verus! {

pub open spec fn pow10(n: nat) -> nat
    decreases n,
{
    if n == 0 {
        1
    } else {
        10 * pow10((n - 1) as nat)
    }
}

pub proof fn lemma_pow10_pos(n: nat)
    ensures
        pow10(n) >= 1,
    decreases n,
{
    if n > 0 {
        lemma_pow10_pos((n - 1) as nat);
    }
}

pub proof fn lemma_pow10_mono(a: nat, b: nat)
    requires
        a <= b,
    ensures
        0 < pow10(a) <= pow10(b),
    decreases b,
{
    lemma_pow10_pos(a);
    if a < b {
        lemma_pow10_mono(a, (b - 1) as nat);
    }
}

/// The concrete powers of ten the parser's arithmetic leans on.
pub proof fn lemma_pow10_vals()
    ensures
        pow10(9) == 1_000_000_000,
        pow10(18) == 1_000_000_000_000_000_000,
        pow10(19) == 10_000_000_000_000_000_000,
        pow10(20) == 100_000_000_000_000_000_000,
        pow10(28) == 10_000_000_000_000_000_000_000_000_000,
        pow10(37) == 10_000_000_000_000_000_000_000_000_000_000_000_000,
{
    assert(pow10(0) == 1);
    assert(pow10(1) == 10);
    assert(pow10(2) == 100);
    assert(pow10(3) == 1000);
    assert(pow10(4) == 10000);
    assert(pow10(5) == 100000);
    assert(pow10(6) == 1000000);
    assert(pow10(7) == 10000000);
    assert(pow10(8) == 100000000);
    assert(pow10(9) == 1000000000);
    assert(pow10(10) == 10000000000);
    assert(pow10(11) == 100000000000);
    assert(pow10(12) == 1000000000000);
    assert(pow10(13) == 10000000000000);
    assert(pow10(14) == 100000000000000);
    assert(pow10(15) == 1000000000000000);
    assert(pow10(16) == 10000000000000000);
    assert(pow10(17) == 100000000000000000);
    assert(pow10(18) == 1000000000000000000);
    assert(pow10(19) == 10000000000000000000);
    assert(pow10(20) == 100000000000000000000);
    assert(pow10(21) == 1000000000000000000000);
    assert(pow10(22) == 10000000000000000000000);
    assert(pow10(23) == 100000000000000000000000);
    assert(pow10(24) == 1000000000000000000000000);
    assert(pow10(25) == 10000000000000000000000000);
    assert(pow10(26) == 100000000000000000000000000);
    assert(pow10(27) == 1000000000000000000000000000);
    assert(pow10(28) == 10000000000000000000000000000);
    assert(pow10(29) == 100000000000000000000000000000);
    assert(pow10(30) == 1000000000000000000000000000000);
    assert(pow10(31) == 10000000000000000000000000000000);
    assert(pow10(32) == 100000000000000000000000000000000);
    assert(pow10(33) == 1000000000000000000000000000000000);
    assert(pow10(34) == 10000000000000000000000000000000000);
    assert(pow10(35) == 100000000000000000000000000000000000);
    assert(pow10(36) == 1000000000000000000000000000000000000);
    assert(pow10(37) == 10000000000000000000000000000000000000);
}

pub fn pow10_u128(n: u32) -> (r: u128)
    requires
        n <= 38,
    ensures
        r == pow10(n as nat),
        r >= 1,
{
    let mut r: u128 = 1;
    let mut t: u32 = 0;
    while t < n
        invariant
            t <= n <= 38,
            r == pow10(t as nat),
        decreases n - t,
    {
        proof {
            lemma_pow10_mono(t as nat, 37);
            lemma_pow10_vals();
        }
        r = r * 10;
        t = t + 1;
    }
    proof {
        lemma_pow10_mono(0, n as nat);
    }
    r
}

/// For a positive divisor, `x * p <= m` exactly when `x <= m / p`.
pub proof fn lemma_mul_le_iff_div(x: int, p: int, m: int)
    requires
        x >= 0,
        p >= 1,
        m >= 0,
    ensures
        (x * p <= m) <==> (x <= m / p),
{
    let q = m / p;
    let r = m % p;
    lemma_fundamental_div_mod(m, p);
    lemma_mod_division_less_than_divisor(m, p);
    if x <= q {
        lemma_mul_inequality(x, q, p);
        assert(q * p == p * q) by (nonlinear_arith);
    }
    if x > q {
        lemma_mul_inequality(q + 1, x, p);
        assert((q + 1) * p == p * q + p) by (nonlinear_arith);
    }
}

/// Rounding `w / p` to the nearest integer, half away from zero, equals
/// `(2w + p) / (2p)`, and also the quotient bumped when twice the remainder
/// reaches the divisor.
pub proof fn lemma_round_div(w: int, p: int)
    requires
        w >= 0,
        p >= 1,
    ensures
        (2 * w + p) / (2 * p) == w / p + if 2 * (w % p) >= p {
            1int
        } else {
            0int
        },
{
    let q = w / p;
    let r = w % p;
    lemma_fundamental_div_mod(w, p);
    lemma_mod_division_less_than_divisor(w, p);
    if 2 * r >= p {
        assert(2 * w + p == (q + 1) * (2 * p) + (2 * r - p)) by (nonlinear_arith)
            requires
                w == p * q + r,
        ;
        lemma_fundamental_div_mod_converse_div(2 * w + p, 2 * p, q + 1, 2 * r - p);
    } else {
        assert(2 * w + p == q * (2 * p) + (2 * r + p)) by (nonlinear_arith)
            requires
                w == p * q + r,
        ;
        lemma_fundamental_div_mod_converse_div(2 * w + p, 2 * p, q, 2 * r + p);
    }
}

/// The overflow guard: a nonzero literal whose exact value `d * 10^k`
/// exceeds `u64::MAX`.
pub open spec fn lit_too_big(d: nat, k: int) -> bool {
    if d == 0 {
        false
    } else if k >= 0 {
        d * pow10(k as nat) > u64::MAX
    } else {
        d > u64::MAX * pow10((-k) as nat)
    }
}

/// A mantissa of twenty or more integer digits always exceeds the guard.
proof fn lemma_big_k(d: nat, k: int)
    requires
        d >= 1,
        k >= 20,
    ensures
        lit_too_big(d, k),
{
    lemma_pow10_mono(20, k as nat);
    lemma_pow10_vals();
    lemma_mul_inequality(1, d as int, pow10(k as nat) as int);
}

/// Whether the literal `d * 10^k` exceeds `u64::MAX`.
pub fn lit_guard(d: u128, k: i128) -> (big: bool)
    requires
        d < MANT_LIMIT * 10,
    ensures
        big == lit_too_big(d as nat, k as int),
{
    if d == 0 {
        false
    } else if k >= 20 {
        proof {
            lemma_big_k(d as nat, k as int);
        }
        true
    } else if k >= 0 {
        let p = pow10_u128(k as u32);
        proof {
            lemma_pow10_mono(k as nat, 19);
            lemma_pow10_vals();
            lemma_mul_le_iff_div(d as int, p as int, u64::MAX as int);
        }
        d > (u64::MAX as u128) / p
    } else if k <= -19 {
        proof {
            lemma_pow10_mono(19, (-k) as nat);
            lemma_pow10_vals();
            lemma_mul_inequality(10, u64::MAX as int, pow10(19) as int);
            assert(u64::MAX * pow10((-k) as nat) >= u64::MAX * pow10(19)) by (nonlinear_arith)
                requires
                    pow10((-k) as nat) >= pow10(19) > 0,
            ;
        }
        false
    } else {
        let p = pow10_u128((-k) as u32);
        proof {
            lemma_pow10_mono((-k) as nat, 18);
            lemma_pow10_vals();
            lemma_mul_inequality(p as int, pow10(18) as int, u64::MAX as int);
            assert(u64::MAX as int * p as int == p as int * u64::MAX as int) by (nonlinear_arith);
        }
        d > (u64::MAX as u128) * p
    }
}

/// The total nanoseconds a span `d * 10^k` of unit `u` denotes: the exact
/// product with the unit's factor, scaled to nanoseconds, rounded to the
/// nearest integer half away from zero.
pub open spec fn span_nanos(d: nat, k: int, u: Unit) -> nat {
    let m = k - factor_pow(u) + 9;
    let w = d * factor_num(u);
    if m >= 0 {
        w * pow10(m as nat)
    } else {
        (2 * w + pow10((-m) as nat)) / (2 * pow10((-m) as nat))
    }
}

/// Converts a guarded literal and unit to a duration; `None` when the
/// whole-seconds component would exceed `u64::MAX`.
pub fn convert(d: u128, k: i128, u: Unit) -> (r: Option<Duration>)
    requires
        d < MANT_LIMIT * 10,
        !lit_too_big(d as nat, k as int),
        -40_000_000_000_000_000_000 <= k <= 40_000_000_000_000_000_000,
    ensures
        match r {
            Some(dur) => dur.wf() && dur.secs as nat == span_nanos(d as nat, k as int, u) / (
            NANOS_PER_SEC as nat) && dur.nanos as nat == span_nanos(d as nat, k as int, u) % (
            NANOS_PER_SEC as nat),
            None => span_nanos(d as nat, k as int, u) / (NANOS_PER_SEC as nat) > u64::MAX,
        },
{
    let ghost spn = span_nanos(d as nat, k as int, u);
    if d == 0 {
        proof {
            let m = k - factor_pow(u) + 9;
            assert(d as nat * factor_num(u) == 0) by (nonlinear_arith)
                requires
                    d == 0,
            ;
            if m < 0 {
                let mm = (-m) as nat;
                lemma_pow10_mono(0, mm);
                lemma_basic_div(pow10(mm) as int, 2 * pow10(mm) as int);
                assert(spn == pow10(mm) / (2 * pow10(mm)));
            } else {
                assert(0nat * pow10(m as nat) == 0) by (nonlinear_arith);
                assert(spn == 0 * pow10(m as nat));
            }
            assert(spn == 0);
            lemma_basic_div(0, NANOS_PER_SEC as int);
            vstd::arithmetic::div_mod::lemma_small_mod(0nat, NANOS_PER_SEC as nat);
        }
        return Some(Duration::zero());
    }
    let (f, p) = unit_factor(u);
    let m: i128 = k - (p as i128) + 9;
    proof {
        lemma_pow10_vals();
        lemma_mul_strict_upper_bound(d as int, pow10(20) as int, f as int, 31_557_601);
    }
    let w: u128 = d * (f as u128);
    proof {
        assert(w == d as nat * factor_num(u));
        assert(w < pow10(20) * 31_557_601);
    }
    if m >= 0 {
        proof {
            if k >= 20 {
                lemma_big_k(d as nat, k as int);
            }
        }
        let pw = pow10_u128(m as u32);
        let lim = (u128::MAX) / pw;
        if w > lim {
            proof {
                lemma_mul_le_iff_div(w as int, pw as int, u128::MAX as int);
                assert(spn == w * pw);
                assert(spn > u128::MAX);
                assert((u64::MAX + 1) * (NANOS_PER_SEC as int) <= u128::MAX as int);
                lemma_div_is_ordered(
                    (u64::MAX + 1) * (NANOS_PER_SEC as int),
                    spn as int,
                    NANOS_PER_SEC as int,
                );
                lemma_fundamental_div_mod_converse_div(
                    (u64::MAX + 1) * (NANOS_PER_SEC as int),
                    NANOS_PER_SEC as int,
                    u64::MAX + 1,
                    0,
                );
            }
            return None;
        }
        proof {
            lemma_mul_le_iff_div(w as int, pw as int, u128::MAX as int);
        }
        let nn = w * pw;
        proof {
            assert(spn == nn);
            lemma_mod_division_less_than_divisor(nn as int, NANOS_PER_SEC as int);
        }
        let secs = nn / (NANOS_PER_SEC as u128);
        if secs > u64::MAX as u128 {
            return None;
        }
        Some(Duration::new((secs as u64), ((nn % (NANOS_PER_SEC as u128)) as u32)))
    } else {
        if m <= -28 {
            proof {
                let mm = (-m) as nat;
                lemma_pow10_mono(28, mm);
                lemma_pow10_vals();
                assert(2 * w + pow10(mm) < 2 * pow10(mm));
                lemma_basic_div((2 * w + pow10(mm)) as int, 2 * pow10(mm) as int);
            }
            return Some(Duration::zero());
        }
        let pw = pow10_u128((-m) as u32);
        let q = w / pw;
        let rr = w % pw;
        proof {
            lemma_mod_division_less_than_divisor(w as int, pw as int);
            lemma_pow10_mono((-m) as nat, 27);
            lemma_pow10_vals();
            lemma_round_div(w as int, pw as int);
        }
        let nn: u128 = if 2 * rr >= pw {
            q + 1
        } else {
            q
        };
        proof {
            assert(spn == nn);
            lemma_mod_division_less_than_divisor(nn as int, NANOS_PER_SEC as int);
        }
        let secs = nn / (NANOS_PER_SEC as u128);
        if secs > u64::MAX as u128 {
            return None;
        }
        Some(Duration::new((secs as u64), ((nn % (NANOS_PER_SEC as u128)) as u32)))
    }
}

} // verus!
