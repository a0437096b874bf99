use vstd::prelude::*;

use crate::error::ContractError;

verus! {

/// Number of assets on the curve.
pub const N_COINS: u64 = 2;

/// Upper bound for the (unscaled) amplification coefficient.
pub const MAX_AMP: u64 = 1_000_000;

/// Greatest allowed ratio between the old and the new amplification.
pub const MAX_AMP_CHANGE: u64 = 10;

/// Fewest seconds between two ramp starts, and the least ramp length.
pub const MIN_AMP_CHANGING_TIME: u64 = 86400;

/// Amplification values are handled scaled by this precision factor.
pub const AMP_PRECISION: u64 = 100;

/// Newton iterations granted to the solver before it reports
/// non-convergence.
pub const ITERATIONS: u64 = 32;

/// A truncated proportion `a * b / c` with `b <= c` stays within
/// `[0, a]`.
pub proof fn lemma_mul_div_bounds(a: int, b: int, c: int)
    requires
        0 <= a,
        0 <= b <= c,
        0 < c,
    ensures
        0 <= a * b / c <= a,
{
    vstd::arithmetic::mul::lemma_mul_inequality(b, c, a);
    assert(b * a <= c * a);
    assert(a * b == b * a) by (nonlinear_arith);
    assert(a * c == c * a) by (nonlinear_arith);
    vstd::arithmetic::div_mod::lemma_div_is_ordered(a * b, a * c, c);
    vstd::arithmetic::div_mod::lemma_div_multiples_vanish(a, c);
    assert(c * a / c == a);
    assert(a * b >= 0) by (nonlinear_arith)
        requires
            a >= 0,
            b >= 0,
    ;
    vstd::arithmetic::div_mod::lemma_div_pos_is_pos(a * b, c);
}

/// A truncated proportion `a * b / c` is monotone in `b`.
pub proof fn lemma_mul_div_monotone(a: int, b1: int, b2: int, c: int)
    requires
        0 <= a,
        0 <= b1 <= b2,
        0 < c,
    ensures
        a * b1 / c <= a * b2 / c,
{
    vstd::arithmetic::mul::lemma_mul_inequality(b1, b2, a);
    assert(b1 * a <= b2 * a);
    assert(a * b1 == b1 * a) by (nonlinear_arith);
    assert(a * b2 == b2 * a) by (nonlinear_arith);
    vstd::arithmetic::div_mod::lemma_div_is_ordered(a * b1, a * b2, c);
}

/// One Newton step of the invariant iteration, mirroring the checked
/// 128-bit arithmetic of the solver: `Err(Overflow)` exactly where a
/// product or sum would not fit in 128 bits or a divisor is zero.
///
/// `t1d` is `Ann*S/AMP_PRECISION`, `annm` is `Ann - AMP_PRECISION`,
/// `x02` and `x12` are the doubled balances, `d` the current iterate.
/// The step computes `D_p = D^3/(4*x0*x1)` piecewise and then
/// `D' = (Ann*S/P + 2*D_p) * D / ((Ann-P)*D/P + 3*D_p)`.
pub open spec fn spec_d_step(t1d: int, annm: int, x02: int, x12: int, d: int) -> Result<
    u128,
    ContractError,
> {
    if d * d > u128::MAX {
        Err(ContractError::Overflow)
    } else {
        let dp1: int = d * d / x02;
        if dp1 * d > u128::MAX {
            Err(ContractError::Overflow)
        } else {
            let dp: int = dp1 * d / x12;
            if dp * 2 > u128::MAX {
                Err(ContractError::Overflow)
            } else if t1d + dp * 2 > u128::MAX {
                Err(ContractError::Overflow)
            } else {
                let num1: int = t1d + dp * 2;
                if num1 * d > u128::MAX {
                    Err(ContractError::Overflow)
                } else if annm * d > u128::MAX {
                    Err(ContractError::Overflow)
                } else {
                    let num: int = num1 * d;
                    let t2d: int = annm * d / (AMP_PRECISION as int);
                    if dp * 3 > u128::MAX {
                        Err(ContractError::Overflow)
                    } else if t2d + dp * 3 > u128::MAX {
                        Err(ContractError::Overflow)
                    } else {
                        let den: int = t2d + dp * 3;
                        if den == 0 {
                            Err(ContractError::Overflow)
                        } else {
                            Ok((num / den) as u128)
                        }
                    }
                }
            }
        }
    }
}

/// The invariant iteration from iterate `d` with `fuel` steps left:
/// stops at the first step whose result moved by at most one unit, and
/// reports `ConvergenceError` when the fuel runs out.
pub open spec fn spec_d_loop(
    t1d: int,
    annm: int,
    x02: int,
    x12: int,
    d: u128,
    fuel: nat,
) -> Result<u128, ContractError>
    decreases fuel,
{
    if fuel == 0 {
        Err(ContractError::ConvergenceError)
    } else {
        match spec_d_step(t1d, annm, x02, x12, d as int) {
            Err(e) => Err(e),
            Ok(dn) => {
                if -1 <= dn - d <= 1 {
                    Ok(dn)
                } else {
                    spec_d_loop(t1d, annm, x02, x12, dn, (fuel - 1) as nat)
                }
            },
        }
    }
}

/// The exact value of `compute_d`: the curve constant `D` for
/// rate-normalized balances `x0, x1` and scaled amplification `amp`,
/// obtained by Newton's method from `D_0 = x0 + x1` under unit
/// tolerance, or the error the 128-bit computation runs into.
pub open spec fn spec_compute_d(amp: u64, x0: u128, x1: u128) -> Result<u128, ContractError> {
    let ann: int = 4 * amp;
    if x0 + x1 > u128::MAX {
        Err(ContractError::Overflow)
    } else if x0 + x1 == 0 {
        Ok(0u128)
    } else if x0 == 0 || x1 == 0 {
        Err(ContractError::Overflow)
    } else if x0 * 2 > u128::MAX || x1 * 2 > u128::MAX {
        Err(ContractError::Overflow)
    } else if ann * (x0 + x1) > u128::MAX {
        Err(ContractError::Overflow)
    } else {
        spec_d_loop(
            ann * (x0 + x1) / (AMP_PRECISION as int),
            ann - AMP_PRECISION,
            x0 * 2,
            x1 * 2,
            (x0 + x1) as u128,
            ITERATIONS as nat,
        )
    }
}

/// Computes the curve constant `D` for rate-normalized balances
/// `x0, x1` and amplification `amp` (scaled by `AMP_PRECISION`).
///
/// Newton's method from `D_0 = x0 + x1`; converges when an iterate
/// moves by at most one unit, fails with `ConvergenceError` after
/// `ITERATIONS` steps, and with `Overflow` where the 128-bit
/// arithmetic would overflow or divide by zero (in particular when
/// exactly one balance is zero). Division truncates toward zero
/// throughout, so the result is biased conservatively.
pub fn compute_d(amp: u64, x0: u128, x1: u128) -> (r: Result<u128, ContractError>)
    requires
        AMP_PRECISION <= amp <= MAX_AMP * AMP_PRECISION,
    ensures
        r == spec_compute_d(amp, x0, x1),
{
    // n^n for two assets; naming its value keeps the range of `ann`
    // evident
    let n2: u128 = (N_COINS * N_COINS) as u128;
    proof {
        assert(n2 == 4);
    }
    let ann: u128 = (amp as u128) * n2;
    let s: u128 = match x0.checked_add(x1) {
        Some(v) => v,
        None => {
            return Err(ContractError::Overflow);
        },
    };
    if s == 0 {
        return Ok(0);
    }
    if x0 == 0 || x1 == 0 {
        return Err(ContractError::Overflow);
    }
    let x02: u128 = match x0.checked_mul(2) {
        Some(v) => v,
        None => {
            return Err(ContractError::Overflow);
        },
    };
    let x12: u128 = match x1.checked_mul(2) {
        Some(v) => v,
        None => {
            return Err(ContractError::Overflow);
        },
    };
    let anns: u128 = match ann.checked_mul(s) {
        Some(v) => v,
        None => {
            return Err(ContractError::Overflow);
        },
    };
    let t1d: u128 = anns / (AMP_PRECISION as u128);
    let annm: u128 = ann - (AMP_PRECISION as u128);
    let mut d: u128 = s;
    let mut i: u64 = 0;
    while i < ITERATIONS
        invariant
            i <= ITERATIONS,
            AMP_PRECISION <= amp <= MAX_AMP * AMP_PRECISION,
            ann == 4 * amp,
            t1d == anns as int / (AMP_PRECISION as int),
            anns == ann * (x0 + x1),
            annm == ann - AMP_PRECISION,
            x0 != 0,
            x1 != 0,
            x02 == x0 * 2,
            x12 == x1 * 2,
            spec_d_loop(t1d as int, annm as int, x02 as int, x12 as int, d, (ITERATIONS - i) as nat)
                == spec_compute_d(amp, x0, x1),
        decreases ITERATIONS - i,
    {
        let dd: u128 = match d.checked_mul(d) {
            Some(v) => v,
            None => {
                return Err(ContractError::Overflow);
            },
        };
        let dp1: u128 = dd / x02;
        let dpd: u128 = match dp1.checked_mul(d) {
            Some(v) => v,
            None => {
                return Err(ContractError::Overflow);
            },
        };
        let dp: u128 = dpd / x12;
        let dp2: u128 = match dp.checked_mul(2) {
            Some(v) => v,
            None => {
                return Err(ContractError::Overflow);
            },
        };
        let num1: u128 = match t1d.checked_add(dp2) {
            Some(v) => v,
            None => {
                return Err(ContractError::Overflow);
            },
        };
        let num: u128 = match num1.checked_mul(d) {
            Some(v) => v,
            None => {
                return Err(ContractError::Overflow);
            },
        };
        let t2: u128 = match annm.checked_mul(d) {
            Some(v) => v,
            None => {
                return Err(ContractError::Overflow);
            },
        };
        let t2d: u128 = t2 / (AMP_PRECISION as u128);
        let dp3: u128 = match dp.checked_mul(3) {
            Some(v) => v,
            None => {
                return Err(ContractError::Overflow);
            },
        };
        let den: u128 = match t2d.checked_add(dp3) {
            Some(v) => v,
            None => {
                return Err(ContractError::Overflow);
            },
        };
        if den == 0 {
            return Err(ContractError::Overflow);
        }
        let dn: u128 = num / den;
        let converged: bool = if dn >= d {
            dn - d <= 1
        } else {
            d - dn <= 1
        };
        if converged {
            return Ok(dn);
        }
        d = dn;
        i = i + 1;
    }
    Err(ContractError::ConvergenceError)
}

/// One Newton step of the one-dimensional solve for the complementary
/// balance, mirroring the checked 128-bit arithmetic. `c` and `b` are
/// the precomputed constants of the iteration, `dcap` the target
/// invariant, `y` the current iterate; the step computes
/// `y' = (y^2 + c) / (2y + b - D)`.
pub open spec fn spec_y_step(c: int, b: int, dcap: int, y: int) -> Result<u128, ContractError> {
    if y * y > u128::MAX {
        Err(ContractError::Overflow)
    } else if y * y + c > u128::MAX {
        Err(ContractError::Overflow)
    } else {
        let num: int = y * y + c;
        if y * 2 > u128::MAX {
            Err(ContractError::Overflow)
        } else if y * 2 + b > u128::MAX {
            Err(ContractError::Overflow)
        } else if y * 2 + b - dcap < 0 {
            Err(ContractError::Overflow)
        } else {
            let den: int = y * 2 + b - dcap;
            if den == 0 {
                Err(ContractError::Overflow)
            } else {
                Ok((num / den) as u128)
            }
        }
    }
}

/// The one-dimensional iteration from iterate `y` with `fuel` steps
/// left, under the same unit-tolerance stopping rule as the invariant
/// iteration.
pub open spec fn spec_y_loop(c: int, b: int, dcap: int, y: u128, fuel: nat) -> Result<
    u128,
    ContractError,
>
    decreases fuel,
{
    if fuel == 0 {
        Err(ContractError::ConvergenceError)
    } else {
        match spec_y_step(c, b, dcap, y as int) {
            Err(e) => Err(e),
            Ok(yn) => {
                if -1 <= yn - y <= 1 {
                    Ok(yn)
                } else {
                    spec_y_loop(c, b, dcap, yn, (fuel - 1) as nat)
                }
            },
        }
    }
}

/// The exact value of `compute_y`: the complementary normalized
/// balance for known balance `x`, target invariant `d` and scaled
/// amplification `amp`, or the error the 128-bit computation runs
/// into.
pub open spec fn spec_compute_y(amp: u64, x: u128, d: u128) -> Result<u128, ContractError> {
    let ann: int = 4 * amp;
    if x == 0 {
        Err(ContractError::Overflow)
    } else if x * 2 > u128::MAX {
        Err(ContractError::Overflow)
    } else if d * d > u128::MAX {
        Err(ContractError::Overflow)
    } else {
        let c1: int = d * d / (x * 2);
        if c1 * d > u128::MAX {
            Err(ContractError::Overflow)
        } else if c1 * d * 100 > u128::MAX {
            Err(ContractError::Overflow)
        } else if d * 100 > u128::MAX {
            Err(ContractError::Overflow)
        } else {
            let c: int = c1 * d * 100 / (ann * 2);
            let b0: int = d * 100 / ann;
            if x + b0 > u128::MAX {
                Err(ContractError::Overflow)
            } else {
                spec_y_loop(c, x + b0, d as int, d, ITERATIONS as nat)
            }
        }
    }
}

/// On a balanced pool the invariant is exact: for equal normalized
/// balances `x`, the solver's first Newton step is already a fixed
/// point and `compute_d` returns exactly `2 * x`.
pub proof fn lemma_balanced_pool_invariant(amp: u64, x: u128)
    requires
        AMP_PRECISION <= amp <= MAX_AMP * AMP_PRECISION,
        0 < x <= 1_000_000_000_000_000,
    ensures
        spec_compute_d(amp, x, x) == Ok::<u128, ContractError>((2 * x) as u128),
{
    let ann: int = 4 * amp;
    let s: int = 2 * x;
    let t1d: int = ann * s / 100;
    let annm: int = ann - 100;
    // magnitudes of the first step's intermediates
    assert(s * s <= 4_000_000_000_000_000_000_000_000_000_000int) by (nonlinear_arith)
        requires
            0 < s <= 2_000_000_000_000_000,
    ;
    assert(ann * s <= 400_000_000 * 2_000_000_000_000_000int) by (nonlinear_arith)
        requires
            ann <= 400_000_000,
            0 < s <= 2_000_000_000_000_000,
    ;
    vstd::arithmetic::div_mod::lemma_div_pos_is_pos(ann * s, 100);
    vstd::arithmetic::div_mod::lemma_div_is_ordered(ann * s, 800_000_000_000_000_000_000_000int, 100);
    // D_p of the first step: (s*s/(2x)) * s / (2x) == s exactly
    vstd::arithmetic::div_mod::lemma_div_multiples_vanish(s, s);
    assert(s * s / s == s);
    assert(s * s / (2 * x) == s);
    // numerator and denominator agree up to the factor s
    let num1: int = t1d + 2 * s;
    assert(num1 * s <= u128::MAX) by (nonlinear_arith)
        requires
            0 < s <= 2_000_000_000_000_000,
            0 <= t1d <= 8_000_000_000_000_000_000_000int,
            num1 == t1d + 2 * s,
    ;
    // (ann - 100) * s / 100 == ann * s / 100 - s
    vstd::arithmetic::div_mod::lemma_fundamental_div_mod(ann * s, 100);
    vstd::arithmetic::div_mod::lemma_mod_bound(ann * s, 100);
    assert((ann - 100) * s == ann * s - 100 * s) by (nonlinear_arith);
    assert(annm * s == (t1d - s) * 100 + (ann * s) % 100);
    vstd::arithmetic::div_mod::lemma_fundamental_div_mod_converse_div(
        annm * s,
        100,
        t1d - s,
        (ann * s) % 100,
    );
    assert(annm * s / 100 == t1d - s);
    let den: int = (t1d - s) + 3 * s;
    assert(den == num1);
    assert(num1 * s / den == s) by {
        vstd::arithmetic::div_mod::lemma_div_multiples_vanish(s, num1);
    }
    // the step returns s, so the loop stops at once
    assert(spec_d_step(t1d, annm, s, s, s) == Ok::<u128, ContractError>(s as u128));
    assert(spec_d_loop(t1d, annm, s, s, s as u128, ITERATIONS as nat) == Ok::<u128, ContractError>(
        s as u128,
    ));
}

/// On a balanced pool the one-dimensional solve is exact as well:
/// with known balance `x` and invariant `2 * x`, the complementary
/// balance `x` is an exact fixed point of the `compute_y` Newton step
/// (the step's constants are spelled out as `spec_compute_y` derives
/// them).
pub proof fn lemma_balanced_point_solves_y_step(amp: u64, x: u128)
    requires
        AMP_PRECISION <= amp <= MAX_AMP * AMP_PRECISION,
        0 < x <= 1_000_000_000_000_000,
    ensures
        ({
            let xi: int = x as int;
            let ann: int = 4 * amp;
            let d: int = 2 * xi;
            let c: int = d * d / (xi * 2) * d * 100 / (ann * 2);
            let b: int = xi + d * 100 / ann;
            spec_y_step(c, b, d, xi) == Ok::<u128, ContractError>(x)
        }),
{
    let xi: int = x as int;
    let ann: int = 4 * amp;
    let d: int = 2 * xi;
    // the cube-term cancellation: (d*d)/(2x) == d
    vstd::arithmetic::div_mod::lemma_div_multiples_vanish(d, d);
    assert(d * d / (xi * 2) == d);
    let t: int = d * 100 / ann;
    vstd::arithmetic::div_mod::lemma_fundamental_div_mod(d * 100, ann);
    vstd::arithmetic::div_mod::lemma_mod_bound(d * 100, ann);
    vstd::arithmetic::div_mod::lemma_div_pos_is_pos(d * 100, ann);
    let rho: int = (d * 100) % ann;
    let cnum: int = d * d * 100;
    let dd2: int = ann * 2;
    let c: int = cnum / dd2;
    // t * xi <= c: the numerator dominates (2*ann) * (t*xi)
    assert(cnum >= dd2 * (t * xi) && cnum <= dd2 * (t * xi + xi) - 1) by (nonlinear_arith)
        requires
            d == 2 * xi,
            0 < xi,
            cnum == d * d * 100,
            dd2 == ann * 2,
            d * 100 == ann * t + rho,
            0 <= rho < ann,
            0 < ann,
            0 <= t,
    ;
    vstd::arithmetic::div_mod::lemma_div_multiples_vanish(t * xi, dd2);
    vstd::arithmetic::div_mod::lemma_div_is_ordered(dd2 * (t * xi), cnum, dd2);
    assert(t * xi <= c);
    // c <= t*xi + xi - 1
    let k: int = t * xi + xi;
    assert(dd2 * k - 1 == (k - 1) * dd2 + (dd2 - 1)) by (nonlinear_arith);
    vstd::arithmetic::div_mod::lemma_fundamental_div_mod_converse_div(
        dd2 * k - 1,
        dd2,
        k - 1,
        dd2 - 1,
    );
    vstd::arithmetic::div_mod::lemma_div_is_ordered(cnum, dd2 * k - 1, dd2);
    assert(c <= k - 1);
    // the quotient at candidate y == x is exactly x
    let den: int = xi + t;
    let num: int = xi * xi + c;
    assert(num == xi * den + (c - t * xi)) by (nonlinear_arith)
        requires
            num == xi * xi + c,
            den == xi + t,
    ;
    vstd::arithmetic::div_mod::lemma_fundamental_div_mod_converse_div(
        num,
        den,
        xi,
        c - t * xi,
    );
    assert(num / den == xi);
    // magnitudes: everything the step computes fits 128 bits
    vstd::arithmetic::div_mod::lemma_div_is_ordered_by_denominator(d * 100, 400, ann);
    assert(t <= xi);
    assert(xi * xi <= 1_000_000_000_000_000_000_000_000_000_000int && t * xi <= xi * xi)
        by (nonlinear_arith)
        requires
            0 < xi <= 1_000_000_000_000_000,
            0 <= t <= xi,
    ;
}

/// Solves for the complementary rate-normalized balance: given the
/// known balance `x`, the invariant `d` and the scaled amplification
/// `amp`, finds `y` with `invariant(x, y) = d` by Newton's method from
/// `y_0 = d`, with `c = D^3 * AMP_PRECISION / (4 * x * Ann)` and
/// `b = x + D * AMP_PRECISION / Ann`, under the same unit tolerance,
/// iteration bound and truncating division as `compute_d`.
pub fn compute_y(amp: u64, x: u128, d: u128) -> (r: Result<u128, ContractError>)
    requires
        AMP_PRECISION <= amp <= MAX_AMP * AMP_PRECISION,
    ensures
        r == spec_compute_y(amp, x, d),
{
    // n^n for two assets; naming its value keeps the range of `ann`
    // evident
    let n2: u128 = (N_COINS * N_COINS) as u128;
    proof {
        assert(n2 == 4);
    }
    let ann: u128 = (amp as u128) * n2;
    if x == 0 {
        return Err(ContractError::Overflow);
    }
    let x2: u128 = match x.checked_mul(2) {
        Some(v) => v,
        None => {
            return Err(ContractError::Overflow);
        },
    };
    let dd: u128 = match d.checked_mul(d) {
        Some(v) => v,
        None => {
            return Err(ContractError::Overflow);
        },
    };
    let c1: u128 = dd / x2;
    let c1d: u128 = match c1.checked_mul(d) {
        Some(v) => v,
        None => {
            return Err(ContractError::Overflow);
        },
    };
    let c1d100: u128 = match c1d.checked_mul(100) {
        Some(v) => v,
        None => {
            return Err(ContractError::Overflow);
        },
    };
    let d100: u128 = match d.checked_mul(100) {
        Some(v) => v,
        None => {
            return Err(ContractError::Overflow);
        },
    };
    let c: u128 = c1d100 / (ann * 2);
    let b0: u128 = d100 / ann;
    let b: u128 = match x.checked_add(b0) {
        Some(v) => v,
        None => {
            return Err(ContractError::Overflow);
        },
    };
    let mut y: u128 = d;
    let mut i: u64 = 0;
    while i < ITERATIONS
        invariant
            i <= ITERATIONS,
            AMP_PRECISION <= amp <= MAX_AMP * AMP_PRECISION,
            ann == 4 * amp,
            x != 0,
            x2 == x * 2,
            dd == d * d,
            c1 == dd as int / (x * 2),
            c == c1 * d * 100 / (ann * 2),
            c1 * d <= u128::MAX,
            c1 * d * 100 <= u128::MAX,
            d * 100 <= u128::MAX,
            b == x + d * 100 / (ann as int),
            spec_y_loop(c as int, b as int, d as int, y, (ITERATIONS - i) as nat)
                == spec_compute_y(amp, x, d),
        decreases ITERATIONS - i,
    {
        let yy: u128 = match y.checked_mul(y) {
            Some(v) => v,
            None => {
                return Err(ContractError::Overflow);
            },
        };
        let num: u128 = match yy.checked_add(c) {
            Some(v) => v,
            None => {
                return Err(ContractError::Overflow);
            },
        };
        let y2: u128 = match y.checked_mul(2) {
            Some(v) => v,
            None => {
                return Err(ContractError::Overflow);
            },
        };
        let y2b: u128 = match y2.checked_add(b) {
            Some(v) => v,
            None => {
                return Err(ContractError::Overflow);
            },
        };
        let den: u128 = match y2b.checked_sub(d) {
            Some(v) => v,
            None => {
                return Err(ContractError::Overflow);
            },
        };
        if den == 0 {
            return Err(ContractError::Overflow);
        }
        let yn: u128 = num / den;
        let converged: bool = if yn >= y {
            yn - y <= 1
        } else {
            y - yn <= 1
        };
        if converged {
            return Ok(yn);
        }
        y = yn;
        i = i + 1;
    }
    Err(ContractError::ConvergenceError)
}

} // verus!
