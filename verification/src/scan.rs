//! Character-level scanning: whitespace runs and numeric literals.
//!
//! A numeric literal is an unsigned integer, decimal, or scientific-notation
//! number.  Its exact value is represented as `mantissa * 10^exponent`: the
//! scanner keeps the first 20 significant digits of the mantissa exactly
//! (further digits only adjust the exponent or are beyond nanosecond
//! significance) and saturates the written exponent at 10^18.

use vstd::prelude::*;

verus! {

/// Mantissa cap: digits are folded in only while the mantissa is below 10^19,
/// so it always stays below 10^20 and 20 significant digits are exact.
pub const MANT_LIMIT: u128 = 10_000_000_000_000_000_000;

/// Saturation bound for a written exponent.
pub const EXP_SAT: i128 = 1_000_000_000_000_000_000;

/// A separator space: the blank characters accepted between spans.
pub open spec fn is_sep_space(c: char) -> bool {
    c == ' ' || c == '\t'
}

/// A trimmable character: whitespace removed at the ends of the input.
pub open spec fn is_trim_space(c: char) -> bool {
    c == ' ' || c == '\t' || c == '\n' || c == '\r' || c == '\u{b}' || c == '\u{c}'
}

pub open spec fn is_digit(c: char) -> bool {
    48 <= c as int <= 57
}

pub open spec fn digit_val(c: char) -> nat {
    (c as int - 48) as nat
}

/// End of the run of separator spaces starting at `i`.
pub open spec fn ws_end(s: Seq<char>, i: int) -> int
    decreases s.len() - i,
{
    if 0 <= i < s.len() && is_sep_space(s[i]) {
        ws_end(s, i + 1)
    } else {
        i
    }
}

/// Folds integer-part digits into `(mantissa, exponent)` starting at `i`;
/// returns the updated pair and the first non-digit position.
pub open spec fn scan_int(s: Seq<char>, i: int, d: nat, k: int) -> (nat, int, int)
    decreases s.len() - i,
{
    if 0 <= i < s.len() && is_digit(s[i]) {
        if d < MANT_LIMIT {
            scan_int(s, i + 1, d * 10 + digit_val(s[i]), k)
        } else {
            scan_int(s, i + 1, d, k + 1)
        }
    } else {
        (d, k, i)
    }
}

/// Folds fraction-part digits into `(mantissa, exponent)` starting at `i`.
pub open spec fn scan_frac(s: Seq<char>, i: int, d: nat, k: int) -> (nat, int, int)
    decreases s.len() - i,
{
    if 0 <= i < s.len() && is_digit(s[i]) {
        if d < MANT_LIMIT {
            scan_frac(s, i + 1, d * 10 + digit_val(s[i]), k - 1)
        } else {
            scan_frac(s, i + 1, d, k)
        }
    } else {
        (d, k, i)
    }
}

/// Folds exponent digits into `e`, saturating at `EXP_SAT`.
pub open spec fn scan_exp(s: Seq<char>, i: int, e: int) -> (int, int)
    decreases s.len() - i,
{
    if 0 <= i < s.len() && is_digit(s[i]) {
        if e < EXP_SAT {
            scan_exp(s, i + 1, e * 10 + digit_val(s[i]))
        } else {
            scan_exp(s, i + 1, e)
        }
    } else {
        (e, i)
    }
}

/// Scans one maximal numeric literal at `i`.  `Some((d, k, j))` means the
/// literal's exact value is `d * 10^k` and scanning stopped at `j`; `None`
/// means no digit was found.  A `.` may lead, digits may surround it, and an
/// `e`/`E` exponent with optional sign follows only when at least one digit
/// follows it (otherwise the `e` is left unconsumed).
pub open spec fn scan_number(s: Seq<char>, i: int) -> Option<(nat, int, int)> {
    let (d1, k1, j1) = scan_int(s, i, 0, 0);
    let dotted = j1 < s.len() && s[j1] == '.';
    let (d2, k2, j2) = if dotted {
        scan_frac(s, j1 + 1, d1, k1)
    } else {
        (d1, k1, j1)
    };
    let has_digits = j1 > i || (dotted && j2 > j1 + 1);
    if !has_digits {
        None
    } else {
        if j2 < s.len() && (s[j2] == 'e' || s[j2] == 'E') {
            let signed = j2 + 1 < s.len() && (s[j2 + 1] == '+' || s[j2 + 1] == '-');
            let neg = j2 + 1 < s.len() && s[j2 + 1] == '-';
            let js = if signed {
                j2 + 2
            } else {
                j2 + 1
            };
            let (e, j3) = scan_exp(s, js, 0);
            if j3 > js {
                Some((d2, k2 + if neg { -e } else { e }, j3))
            } else {
                Some((d2, k2, j2))
            }
        } else {
            Some((d2, k2, j2))
        }
    }
}

/// Bounds preserved by integer-part scanning.
pub proof fn lemma_scan_int_bounds(s: Seq<char>, i: int, d: nat, k: int)
    requires
        0 <= i <= s.len(),
        d < MANT_LIMIT * 10,
        0 <= k,
    ensures
        ({
            let (d2, k2, j2) = scan_int(s, i, d, k);
            d2 < MANT_LIMIT * 10 && k <= k2 <= k + (j2 - i) && i <= j2 <= s.len()
        }),
    decreases s.len() - i,
{
    if 0 <= i < s.len() && is_digit(s[i]) {
        if d < MANT_LIMIT {
            lemma_scan_int_bounds(s, i + 1, d * 10 + digit_val(s[i]), k);
        } else {
            lemma_scan_int_bounds(s, i + 1, d, k + 1);
        }
    }
}

/// Bounds preserved by fraction-part scanning.
pub proof fn lemma_scan_frac_bounds(s: Seq<char>, i: int, d: nat, k: int)
    requires
        0 <= i <= s.len(),
        d < MANT_LIMIT * 10,
    ensures
        ({
            let (d2, k2, j2) = scan_frac(s, i, d, k);
            d2 < MANT_LIMIT * 10 && k - (j2 - i) <= k2 <= k && i <= j2 <= s.len()
        }),
    decreases s.len() - i,
{
    if 0 <= i < s.len() && is_digit(s[i]) {
        if d < MANT_LIMIT {
            lemma_scan_frac_bounds(s, i + 1, d * 10 + digit_val(s[i]), k - 1);
        } else {
            lemma_scan_frac_bounds(s, i + 1, d, k);
        }
    }
}

/// Bounds preserved by exponent scanning.
pub proof fn lemma_scan_exp_bounds(s: Seq<char>, i: int, e: int)
    requires
        0 <= i <= s.len(),
        0 <= e < EXP_SAT * 10,
    ensures
        ({
            let (e2, j2) = scan_exp(s, i, e);
            0 <= e2 < EXP_SAT * 10 && i <= j2 <= s.len()
        }),
    decreases s.len() - i,
{
    if 0 <= i < s.len() && is_digit(s[i]) {
        if e < EXP_SAT {
            lemma_scan_exp_bounds(s, i + 1, e * 10 + digit_val(s[i]));
        } else {
            lemma_scan_exp_bounds(s, i + 1, e);
        }
    }
}

/// Where `scan_number` succeeds it consumed at least one character and
/// returns a bounded mantissa and a moderate exponent.
pub proof fn lemma_scan_number_bounds(s: Seq<char>, i: int)
    requires
        0 <= i <= s.len(),
    ensures
        ({
            match scan_number(s, i) {
                Some((d, k, j)) => d < MANT_LIMIT * 10 && i < j <= s.len() && -(s.len() + EXP_SAT
                    * 10) <= k <= s.len() + EXP_SAT * 10,
                None => true,
            }
        }),
{
    lemma_scan_int_bounds(s, i, 0, 0);
    let (d1, k1, j1) = scan_int(s, i, 0, 0);
    if j1 < s.len() && s[j1] == '.' {
        lemma_scan_frac_bounds(s, j1 + 1, d1, k1);
    }
    let dotted = j1 < s.len() && s[j1] == '.';
    let (d2, k2, j2) = if dotted {
        scan_frac(s, j1 + 1, d1, k1)
    } else {
        (d1, k1, j1)
    };
    if j2 < s.len() && (s[j2] == 'e' || s[j2] == 'E') {
        let signed = j2 + 1 < s.len() && (s[j2 + 1] == '+' || s[j2 + 1] == '-');
        let js = if signed {
            j2 + 2
        } else {
            j2 + 1
        };
        if js <= s.len() {
            lemma_scan_exp_bounds(s, js, 0);
        }
    }
}

/// Skips separator spaces from `i`; returns the end of the run.
pub fn skip_ws(s: &str, n: usize, i: usize) -> (j: usize)
    requires
        n == s@.len(),
        i <= n,
    ensures
        i <= j <= n,
        j == ws_end(s@, i as int),
{
    let mut j = i;
    loop
        invariant
            i <= j <= n,
            n == s@.len(),
            ws_end(s@, i as int) == ws_end(s@, j as int),
        ensures
            i <= j <= n,
            j == ws_end(s@, j as int),
            ws_end(s@, i as int) == ws_end(s@, j as int),
        decreases n - j,
    {
        if j >= n {
            break ;
        }
        let c = s.get_char(j);
        if !(c == ' ' || c == '\t') {
            break ;
        }
        j = j + 1;
    }
    j
}

/// Scans one numeric literal at `i`, as `scan_number` describes.
pub fn number_at(s: &str, n: usize, i: usize) -> (r: Option<(u128, i128, usize)>)
    requires
        n == s@.len(),
        i <= n,
    ensures
        match r {
            Some((d, k, j)) => scan_number(s@, i as int) == Some(
                ((d as nat), (k as int), (j as int)),
            ) && i < j <= n && d < MANT_LIMIT * 10 && -(EXP_SAT * 10 + n as int) <= k as int
                <= EXP_SAT * 10 + n as int,
            None => scan_number(s@, i as int) is None,
        },
{
    proof {
        lemma_scan_number_bounds(s@, i as int);
    }
    let mut d: u128 = 0;
    let mut k: i128 = 0;
    let mut j = i;
    loop
        invariant
            i <= j <= n,
            n == s@.len(),
            d < MANT_LIMIT * 10,
            0 <= k <= j - i,
            scan_int(s@, i as int, 0, 0) == scan_int(s@, j as int, d as nat, k as int),
        ensures
            i <= j <= n,
            d < MANT_LIMIT * 10,
            0 <= k <= j - i,
            scan_int(s@, i as int, 0, 0) == ((d as nat), (k as int), (j as int)),
        decreases n - j,
    {
        if j >= n {
            break ;
        }
        let c = s.get_char(j);
        let cv = c as u32;
        if !(48 <= cv && cv <= 57) {
            break ;
        }
        if d < MANT_LIMIT {
            d = d * 10 + ((cv - 48) as u128);
        } else {
            k = k + 1;
        }
        j = j + 1;
    }
    let j1 = j;
    let dotted = j1 < n && s.get_char(j1) == '.';
    if dotted {
        j = j + 1;
        loop
            invariant
                j1 + 1 <= j <= n,
                n == s@.len(),
                dotted,
                j1 < s@.len() && s@[j1 as int] == '.',
                d < MANT_LIMIT * 10,
                -(j - j1) <= k <= j - i,
                i <= j1,
                scan_frac(s@, j1 + 1, scan_int(s@, i as int, 0, 0).0, scan_int(s@, i as int, 0, 0).1)
                    == scan_frac(s@, j as int, d as nat, k as int),
            ensures
                j1 + 1 <= j <= n,
                d < MANT_LIMIT * 10,
                -(j - j1) <= k <= j - i,
                scan_frac(s@, j1 + 1, scan_int(s@, i as int, 0, 0).0, scan_int(s@, i as int, 0, 0).1)
                    == ((d as nat), (k as int), (j as int)),
            decreases n - j,
        {
            if j >= n {
                break ;
            }
            let c = s.get_char(j);
            let cv = c as u32;
            if !(48 <= cv && cv <= 57) {
                break ;
            }
            if d < MANT_LIMIT {
                d = d * 10 + ((cv - 48) as u128);
                k = k - 1;
            }
            j = j + 1;
        }
    }
    let j2 = j;
    let has_digits = j1 > i || (dotted && j2 > j1 + 1);
    if !has_digits {
        return None;
    }
    if j2 < n {
        let ec = s.get_char(j2);
        if ec == 'e' || ec == 'E' {
            let signed = j2 + 1 < n && {
                let sc = s.get_char(j2 + 1);
                sc == '+' || sc == '-'
            };
            let neg = j2 + 1 < n && s.get_char(j2 + 1) == '-';
            let js = if signed {
                j2 + 2
            } else {
                j2 + 1
            };
            let mut e: i128 = 0;
            let mut j3 = js;
            loop
                invariant
                    js <= j3 <= n,
                    n == s@.len(),
                    js <= n,
                    0 <= e < EXP_SAT * 10,
                    scan_exp(s@, js as int, 0) == scan_exp(s@, j3 as int, e as int),
                ensures
                    js <= j3 <= n,
                    0 <= e < EXP_SAT * 10,
                    scan_exp(s@, js as int, 0) == ((e as int), (j3 as int)),
                decreases n - j3,
            {
                if j3 >= n {
                    break ;
                }
                let c = s.get_char(j3);
                let cv = c as u32;
                if !(48 <= cv && cv <= 57) {
                    break ;
                }
                if e < EXP_SAT {
                    e = e * 10 + ((cv - 48) as i128);
                }
                j3 = j3 + 1;
            }
            if j3 > js {
                let kk: i128 = if neg {
                    k - e
                } else {
                    k + e
                };
                return Some((d, kk, j3));
            } else {
                return Some((d, k, j2));
            }
        }
    }
    Some((d, k, j2))
}

} // verus!
