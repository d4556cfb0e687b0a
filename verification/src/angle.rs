//! Angles in microradians and a fixed-point sine.
//!
//! An orientation angle is kept normalized into `[0, FULL_TURN_URAD)`. The sine
//! is Bhaskara I's rational approximation, scaled so that its output is in
//! thousandths; it is exact at 0, at a quarter turn (1000), at a half turn (0)
//! and at three quarters of a turn (-1000).

use vstd::prelude::*;

verus! {

/// Half a turn (pi radians) in microradians, rounded to an even number so that
/// the quarter turn below is exactly half of it.
pub const HALF_TURN_URAD: u64 = 3141592;

/// A quarter turn (pi/2 radians) in microradians.
pub const QUARTER_TURN_URAD: u64 = 1570796;

/// A full turn (two pi radians) in microradians.
pub const FULL_TURN_URAD: u64 = 6283184;

/// An angle delta no larger than this can always be normalized without
/// overflowing 64-bit arithmetic.
pub const MAX_ANGLE_DELTA_URAD: i64 = 1000000000000000000;

/// The angle `a` brought into `[0, FULL_TURN_URAD)`.
pub open spec fn norm_angle(a: int) -> int {
    a % (FULL_TURN_URAD as int)
}

/// Bhaskara I's approximation of `sin` on `[0, pi]`, in thousandths:
/// `16 x (pi - x) / (5 pi^2 - 4 x (pi - x))`, with `x` in microradians.
pub open spec fn sine_half_milli(x: int) -> int {
    let n = x * (HALF_TURN_URAD - x);
    16000 * n / (5 * (HALF_TURN_URAD as int) * (HALF_TURN_URAD as int) - 4 * n)
}

/// Sine of an angle in `[0, FULL_TURN_URAD)`, in thousandths.
pub open spec fn sine_milli(x: int) -> int {
    if x < HALF_TURN_URAD {
        sine_half_milli(x)
    } else {
        -sine_half_milli(x - HALF_TURN_URAD)
    }
}

/// Cosine of an angle in `[0, FULL_TURN_URAD)`, in thousandths.
pub open spec fn cosine_milli(x: int) -> int {
    sine_milli(norm_angle(x + QUARTER_TURN_URAD))
}

/// On `[0, pi]` the half-wave sine stays within `[0, 1000]`.
pub proof fn lemma_sine_half_bounds(x: int)
    requires
        0 <= x <= HALF_TURN_URAD,
    ensures
        0 <= sine_half_milli(x) <= 1000,
{
    let h = HALF_TURN_URAD as int;
    let n = x * (h - x);
    let den = 5 * h * h - 4 * n;
    assert(0 <= n && 4 * n <= h * h) by (nonlinear_arith)
        requires
            0 <= x <= h,
            n == x * (h - x),
    ;
    assert(den >= 4 * h * h);
    vstd::arithmetic::div_mod::lemma_div_pos_is_pos(16000 * n, den);
    assert(16000 * n <= 1000 * den);
    vstd::arithmetic::div_mod::lemma_div_is_ordered(16000 * n, 1000 * den, den);
    vstd::arithmetic::div_mod::lemma_div_multiples_vanish(1000, den);
    assert((den * 1000) / den == 1000);
    assert(1000 * den == den * 1000);
}

/// At a quarter turn the half-wave sine is exactly 1000.
pub proof fn lemma_sine_half_peak()
    ensures
        sine_half_milli(QUARTER_TURN_URAD as int) == 1000,
{
    let h = HALF_TURN_URAD as int;
    let q = QUARTER_TURN_URAD as int;
    let n = q * (h - q);
    let den = 5 * h * h - 4 * n;
    assert(h - q == q);
    assert(h * h == 4 * (q * q)) by (nonlinear_arith)
        requires
            h == 2 * q,
    ;
    assert(den == 16 * (q * q));
    assert(16000 * n == den * 1000);
    vstd::arithmetic::div_mod::lemma_div_multiples_vanish(1000, den);
}

fn sine_half_milli_exec(x: u64) -> (s: u64)
    requires
        x <= HALF_TURN_URAD,
    ensures
        s == sine_half_milli(x as int),
        s <= 1000,
{
    proof {
        let h = HALF_TURN_URAD as int;
        assert(x * (h - x) <= h * h) by (nonlinear_arith)
            requires
                0 <= x <= h,
        ;
        lemma_sine_half_bounds(x as int);
    }
    let n: u64 = x * (HALF_TURN_URAD - x);
    let den: u64 = 5 * HALF_TURN_URAD * HALF_TURN_URAD - 4 * n;
    (16000 * n) / den
}

/// Sine of a normalized angle, in thousandths; always within `[-1000, 1000]`.
pub fn sine_milli_exec(x: u64) -> (s: i64)
    requires
        x < FULL_TURN_URAD,
    ensures
        s == sine_milli(x as int),
        -1000 <= s <= 1000,
{
    if x < HALF_TURN_URAD {
        let q = sine_half_milli_exec(x);
        proof {
            lemma_sine_half_bounds(x as int);
        }
        q as i64
    } else {
        let q = sine_half_milli_exec(x - HALF_TURN_URAD);
        proof {
            lemma_sine_half_bounds(x - HALF_TURN_URAD);
        }
        -(q as i64)
    }
}

/// Cosine of a normalized angle, in thousandths; exactly 1000 at angle 0.
pub fn cosine_milli_exec(x: u64) -> (c: i64)
    requires
        x < FULL_TURN_URAD,
    ensures
        c == cosine_milli(x as int),
        -1000 <= c <= 1000,
        x == 0 ==> c == 1000,
{
    let shifted: u64 = x + QUARTER_TURN_URAD;
    let reduced: u64 = if shifted >= FULL_TURN_URAD {
        shifted - FULL_TURN_URAD
    } else {
        shifted
    };
    proof {
        let f = FULL_TURN_URAD as int;
        if shifted >= FULL_TURN_URAD {
            vstd::arithmetic::div_mod::lemma_mod_multiples_vanish(1, reduced as int, f);
            vstd::arithmetic::div_mod::lemma_small_mod(reduced as nat, FULL_TURN_URAD as nat);
        } else {
            vstd::arithmetic::div_mod::lemma_small_mod(shifted as nat, FULL_TURN_URAD as nat);
        }
        assert(reduced as int == norm_angle(x + QUARTER_TURN_URAD));
        if x == 0 {
            lemma_sine_half_peak();
        }
    }
    sine_milli_exec(reduced)
}

/// Turning twice adds the turn angles: a look update over one tick's
/// accumulated mouse delta lands exactly where the same delta split over two
/// ticks (at the same frame time) would, so the rotation stays proportional to
/// the accumulated delta.
pub proof fn lemma_turns_compose(a: int, d1: int, d2: int)
    ensures
        norm_angle(norm_angle(a + d1) + d2) == norm_angle(a + d1 + d2),
{
    let f = FULL_TURN_URAD as int;
    let r = (a + d1) % f;
    vstd::arithmetic::div_mod::lemma_fundamental_div_mod(a + d1, f);
    vstd::arithmetic::div_mod::lemma_mod_multiples_vanish((a + d1) / f, r + d2, f);
    assert(f * ((a + d1) / f) + (r + d2) == a + d1 + d2);
}

/// Turns `a` by `delta` microradians and renormalizes into `[0, FULL_TURN_URAD)`.
pub fn rotate_angle(a: u64, delta: i64) -> (r: u64)
    requires
        a < FULL_TURN_URAD,
        -MAX_ANGLE_DELTA_URAD <= delta <= MAX_ANGLE_DELTA_URAD,
    ensures
        r == norm_angle(a + delta),
        r < FULL_TURN_URAD,
{
    let ghost f_int: int = FULL_TURN_URAD as int;
    if delta >= 0 {
        let d: u64 = (delta as u64) % FULL_TURN_URAD;
        let s: u64 = a + d;
        proof {
            vstd::arithmetic::div_mod::lemma_fundamental_div_mod(delta as int, f_int);
            vstd::arithmetic::div_mod::lemma_mod_multiples_vanish(
                (delta as int) / f_int,
                a + d,
                f_int,
            );
            assert(a + delta == f_int * ((delta as int) / f_int) + (a + d));
            if s >= FULL_TURN_URAD {
                vstd::arithmetic::div_mod::lemma_mod_multiples_vanish(1, s - f_int, f_int);
                vstd::arithmetic::div_mod::lemma_small_mod((s - FULL_TURN_URAD) as nat, FULL_TURN_URAD as nat);
            } else {
                vstd::arithmetic::div_mod::lemma_small_mod(s as nat, FULL_TURN_URAD as nat);
            }
        }
        if s >= FULL_TURN_URAD {
            s - FULL_TURN_URAD
        } else {
            s
        }
    } else {
        let m: u64 = ((-delta) as u64) % FULL_TURN_URAD;
        let s: u64 = a + FULL_TURN_URAD - m;
        proof {
            let nd = (-delta) as int;
            vstd::arithmetic::div_mod::lemma_fundamental_div_mod(nd, f_int);
            assert(a + delta == f_int * (-(nd / f_int) - 1) + (a + f_int - m));
            vstd::arithmetic::div_mod::lemma_mod_multiples_vanish(-(nd / f_int) - 1, s as int, f_int);
            if s >= FULL_TURN_URAD {
                vstd::arithmetic::div_mod::lemma_mod_multiples_vanish(1, s - f_int, f_int);
                vstd::arithmetic::div_mod::lemma_small_mod((s - FULL_TURN_URAD) as nat, FULL_TURN_URAD as nat);
            } else {
                vstd::arithmetic::div_mod::lemma_small_mod(s as nat, FULL_TURN_URAD as nat);
            }
        }
        if s >= FULL_TURN_URAD {
            s - FULL_TURN_URAD
        } else {
            s
        }
    }
}

} // verus!
