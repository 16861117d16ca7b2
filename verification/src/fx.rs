use vstd::prelude::*;

verus! {

use vstd::arithmetic::div_mod::lemma_div_is_ordered;
use vstd::arithmetic::div_mod::lemma_fundamental_div_mod;
use vstd::arithmetic::div_mod::lemma_fundamental_div_mod_converse;

/// Scale of the fixed-point representation: a real value `v` is stored as the
/// integer `v * SCALE`, so one unit is `SCALE` ticks and the resolution is a
/// millionth of a unit.
pub const SCALE: i64 = 1_000_000;

/// A full turn of an angle, in ticks.  Angles in this library are measured in
/// turns (one turn is `2 * pi` radians), so trigonometry never needs `pi`.
pub const TURN: i64 = 1_000_000;

/// Half a turn, in ticks.
pub const HALF_TURN: i64 = 500_000;

/// A quarter turn, in ticks.
pub const QUARTER_TURN: i64 = 250_000;

/// Largest magnitude, in ticks, that a scalar handed to the fixed-point
/// operations may have: one million units.
pub const FX_LIMIT: i64 = 1_000_000_000_000;

/// Largest magnitude, in ticks, that a product of two in-range scalars may
/// have after rescaling: `FX_LIMIT * FX_LIMIT / SCALE`.
pub const FX_PRODUCT_LIMIT: i64 = 1_000_000_000_000_000_000;

/// Round-toward-zero integer division, the semantics of every executable
/// division in this module.
pub open spec fn div_trunc(n: int, d: int) -> int {
    if n >= 0 {
        n / d
    } else {
        -((-n) / d)
    }
}

/// The value, in ticks, of the fixed-point product of `a` and `b` (in ticks).
pub open spec fn fx_mul_spec(a: int, b: int) -> int {
    div_trunc(a * b, SCALE as int)
}

/// The value, in ticks, of the fixed-point quotient of `a` by `b` (in ticks).
pub open spec fn fx_div_spec(a: int, b: int) -> int {
    div_trunc(a * (SCALE as int), b)
}

/// Divide a possibly negative numerator by a positive denominator, rounding
/// toward zero.
pub fn i64_div_trunc(n: i64, d: i64) -> (r: i64)
    requires
        d > 0,
        n > i64::MIN,
    ensures
        r == div_trunc(n as int, d as int),
        n >= 0 ==> 0 <= r <= n,
        n < 0 ==> n <= r <= 0,
{
    proof {
        if n >= 0 {
            lemma_div_is_ordered(n as int, n as int, d as int);
            vstd::arithmetic::div_mod::lemma_div_is_ordered_by_denominator(n as int, 1, d as int);
        } else {
            lemma_div_is_ordered((-n) as int, (-n) as int, d as int);
            vstd::arithmetic::div_mod::lemma_div_is_ordered_by_denominator(
                (-n) as int,
                1,
                d as int,
            );
        }
    }
    if n >= 0 {
        ((n as u64) / (d as u64)) as i64
    } else {
        -((((-n) as u64) / (d as u64)) as i64)
    }
}

/// Fixed-point multiplication: the product of two scalars in ticks, rescaled
/// by `SCALE` and rounded toward zero.
pub fn fx_mul(a: i64, b: i64) -> (r: i64)
    requires
        -FX_LIMIT <= a <= FX_LIMIT,
        -FX_LIMIT <= b <= FX_LIMIT,
    ensures
        r == fx_mul_spec(a as int, b as int),
        -FX_PRODUCT_LIMIT <= r <= FX_PRODUCT_LIMIT,
{
    proof {
        assert((a as int) * (b as int) <= (FX_LIMIT as int) * (FX_LIMIT as int)
            && -((FX_LIMIT as int) * (FX_LIMIT as int)) <= (a as int) * (b as int))
            by (nonlinear_arith)
            requires
                -FX_LIMIT <= a <= FX_LIMIT,
                -FX_LIMIT <= b <= FX_LIMIT,
        ;
    }
    let p: i128 = (a as i128) * (b as i128);
    proof {
        if p >= 0 {
            lemma_div_is_ordered(p as int, (FX_LIMIT as int) * (FX_LIMIT as int), SCALE as int);
        } else {
            lemma_div_is_ordered(
                -(p as int),
                (FX_LIMIT as int) * (FX_LIMIT as int),
                SCALE as int,
            );
        }
    }
    if p >= 0 {
        (((p as u128) / (SCALE as u128)) as i128) as i64
    } else {
        -((((-p) as u128) / (SCALE as u128)) as i128) as i64
    }
}

/// Fixed-point division: the quotient of two scalars in ticks, rescaled by
/// `SCALE` and rounded toward zero.  The denominator must be positive.
pub fn fx_div(a: i64, b: i64) -> (r: i64)
    requires
        -FX_LIMIT <= a <= FX_LIMIT,
        0 < b,
    ensures
        r == fx_div_spec(a as int, b as int),
        -FX_PRODUCT_LIMIT <= r <= FX_PRODUCT_LIMIT,
        a >= 0 ==> 0 <= r,
        a < 0 ==> r <= 0,
        b >= SCALE && a >= 0 ==> r <= a,
        b >= SCALE && a < 0 ==> a <= r,
{
    proof {
        assert((a as int) * (SCALE as int) <= (FX_LIMIT as int) * (SCALE as int)
            && -((FX_LIMIT as int) * (SCALE as int)) <= (a as int) * (SCALE as int))
            by (nonlinear_arith)
            requires
                -FX_LIMIT <= a <= FX_LIMIT,
        ;
    }
    let p: i128 = (a as i128) * (SCALE as i128);
    proof {
        if p >= 0 {
            lemma_div_is_ordered(p as int, (FX_LIMIT as int) * (SCALE as int), b as int);
            vstd::arithmetic::div_mod::lemma_div_pos_is_pos(p as int, b as int);
            vstd::arithmetic::div_mod::lemma_div_is_ordered_by_denominator(p as int, 1, b as int);
            if b >= SCALE {
                vstd::arithmetic::div_mod::lemma_div_is_ordered_by_denominator(
                    p as int,
                    SCALE as int,
                    b as int,
                );
                vstd::arithmetic::div_mod::lemma_div_multiples_vanish(
                    a as int,
                    SCALE as int,
                );
            }
        } else {
            lemma_div_is_ordered(-(p as int), (FX_LIMIT as int) * (SCALE as int), b as int);
            vstd::arithmetic::div_mod::lemma_div_pos_is_pos(-(p as int), b as int);
            vstd::arithmetic::div_mod::lemma_div_is_ordered_by_denominator(
                -(p as int),
                1,
                b as int,
            );
            if b >= SCALE {
                vstd::arithmetic::div_mod::lemma_div_is_ordered_by_denominator(
                    -(p as int),
                    SCALE as int,
                    b as int,
                );
                vstd::arithmetic::div_mod::lemma_div_multiples_vanish(
                    -(a as int),
                    SCALE as int,
                );
            }
        }
    }
    if p >= 0 {
        (((p as u128) / (b as u128)) as i128) as i64
    } else {
        -((((-p) as u128) / (b as u128)) as i128) as i64
    }
}

/// A magnitude bound on a fixed-point product from magnitude bounds on its
/// factors.
pub proof fn lemma_fx_mul_spec_bound(a: int, b: int, aa: int, bb: int)
    requires
        -aa <= a <= aa,
        -bb <= b <= bb,
    ensures
        -(aa * bb / (SCALE as int)) <= fx_mul_spec(a, b) <= aa * bb / (SCALE as int),
{
    assert(-(aa * bb) <= a * b <= aa * bb) by (nonlinear_arith)
        requires
            -aa <= a <= aa,
            -bb <= b <= bb,
    ;
    let p = a * b;
    vstd::arithmetic::div_mod::lemma_div_pos_is_pos(aa * bb, SCALE as int);
    if p >= 0 {
        lemma_div_is_ordered(p, aa * bb, SCALE as int);
        vstd::arithmetic::div_mod::lemma_div_pos_is_pos(p, SCALE as int);
    } else {
        lemma_div_is_ordered(-p, aa * bb, SCALE as int);
        vstd::arithmetic::div_mod::lemma_div_pos_is_pos(-p, SCALE as int);
    }
}

/// Clamp a scalar into an inclusive range.
pub fn fx_clamp(v: i64, lo: i64, hi: i64) -> (r: i64)
    requires
        lo <= hi,
    ensures
        r == clamp_spec(v as int, lo as int, hi as int),
        lo <= r <= hi,
{
    if v < lo {
        lo
    } else if v > hi {
        hi
    } else {
        v
    }
}

/// The value of `fx_clamp`.
pub open spec fn clamp_spec(v: int, lo: int, hi: int) -> int {
    if v < lo {
        lo
    } else if v > hi {
        hi
    } else {
        v
    }
}

/// Normalize an angle in ticks to the canonical range `[0, TURN)`.
/// The result is the Euclidean remainder of the angle by a full turn.
pub fn norm_turn(a: i64) -> (r: i64)
    requires
        a > i64::MIN,
    ensures
        r == (a as int) % (TURN as int),
        0 <= r < TURN,
{
    if a >= 0 {
        ((a as u64) % (TURN as u64)) as i64
    } else {
        let m: i64 = (((-a) as u64) % (TURN as u64)) as i64;
        proof {
            lemma_fundamental_div_mod((-a) as int, TURN as int);
            let q = ((-a) as int) / (TURN as int);
            if m == 0 {
                assert(a as int == (-q) * (TURN as int) + 0) by (nonlinear_arith)
                    requires
                        (-a) as int == q * (TURN as int) + 0,
                ;
                lemma_fundamental_div_mod_converse(a as int, TURN as int, -q, 0);
            } else {
                assert(a as int == (-q - 1) * (TURN as int) + ((TURN - m) as int))
                    by (nonlinear_arith)
                    requires
                        (-a) as int == q * (TURN as int) + (m as int),
                        TURN == 1_000_000,
                ;
                lemma_fundamental_div_mod_converse(
                    a as int,
                    TURN as int,
                    -q - 1,
                    (TURN - m) as int,
                );
            }
        }
        if m == 0 {
            0
        } else {
            TURN - m
        }
    }
}

/// The sine of an angle given in turn ticks, as a scalar in ticks.
///
/// This is the standard parabolic approximation: exact at every quarter turn,
/// within a few percent elsewhere, and with the same sign and zeroes as the
/// true sine everywhere.
pub open spec fn sin_turns_spec(t: int) -> int {
    let m = t % (TURN as int);
    if m <= HALF_TURN {
        16 * m * (HALF_TURN - m) / (SCALE as int)
    } else {
        -(16 * (m - HALF_TURN) * ((TURN as int) - m) / (SCALE as int))
    }
}

/// The cosine of an angle given in turn ticks: the sine a quarter turn later.
pub open spec fn cos_turns_spec(t: int) -> int {
    sin_turns_spec(t + QUARTER_TURN)
}

/// The scaled, truncated parabola `16 * x * (HALF_TURN - x) / SCALE` on
/// `[0, HALF_TURN]`, the half-wave of the sine approximation.
fn sin_half_wave(x: i64) -> (r: i64)
    requires
        0 <= x <= HALF_TURN,
    ensures
        r == 16 * (x as int) * ((HALF_TURN - x) as int) / (SCALE as int),
        0 <= r <= SCALE,
{
    proof {
        lemma_half_wave_bounds(x as int);
    }
    let p: i64 = 16 * x * (HALF_TURN - x);
    ((p as u64) / (SCALE as u64)) as i64
}

/// The parabola `16 * x * (HALF_TURN - x)` stays within `[0, SCALE * SCALE]`
/// on `[0, HALF_TURN]`, so its rescaling stays within `[0, SCALE]`.
proof fn lemma_half_wave_bounds(x: int)
    requires
        0 <= x <= HALF_TURN,
    ensures
        0 <= 16 * x * (HALF_TURN - x) <= (SCALE as int) * (SCALE as int),
        0 <= 16 * x * (HALF_TURN - x) / (SCALE as int) <= SCALE,
{
    assert(0 <= 16 * x * (HALF_TURN - x) <= (SCALE as int) * (SCALE as int))
        by (nonlinear_arith)
        requires
            0 <= x <= HALF_TURN,
            HALF_TURN == 500_000,
            SCALE == 1_000_000,
    ;
    lemma_div_is_ordered(
        16 * x * (HALF_TURN - x),
        (SCALE as int) * (SCALE as int),
        SCALE as int,
    );
    vstd::arithmetic::div_mod::lemma_div_multiples_vanish(SCALE as int, SCALE as int);
    vstd::arithmetic::div_mod::lemma_div_pos_is_pos(16 * x * (HALF_TURN - x), SCALE as int);
}

/// Sine of an angle in turn ticks.
pub fn sin_turns(t: i64) -> (r: i64)
    requires
        t > i64::MIN,
    ensures
        r == sin_turns_spec(t as int),
        -SCALE <= r <= SCALE,
{
    let m: i64 = norm_turn(t);
    if m <= HALF_TURN {
        sin_half_wave(m)
    } else {
        proof {
            lemma_half_wave_bounds((m - HALF_TURN) as int);
            assert(HALF_TURN - (m - HALF_TURN) == TURN - m);
        }
        -sin_half_wave(m - HALF_TURN)
    }
}

/// Cosine of an angle in turn ticks.
pub fn cos_turns(t: i64) -> (r: i64)
    requires
        -FX_LIMIT <= t <= FX_LIMIT,
    ensures
        r == cos_turns_spec(t as int),
        -SCALE <= r <= SCALE,
{
    sin_turns(t + QUARTER_TURN)
}

} // verus!
