//! Fixed-point angles and trigonometry.
//!
//! Angles are in thousandths of a degree; a full turn is 360_000. Sine and
//! cosine are computed by an integer rational approximation (a classical
//! half-turn formula) scaled by [`TRIG_ONE`]; it is exact at every multiple
//! of a quarter turn and within about two parts in a thousand elsewhere.

use vstd::prelude::*;

verus! {

/// Thousandths of a degree in a full turn.
pub const FULL_TURN: i64 = 360_000;

/// Thousandths of a degree in a half turn.
pub const HALF_TURN: i64 = 180_000;

/// Thousandths of a degree in a quarter turn.
pub const QUARTER_TURN: i64 = 90_000;

/// Scale of trigonometric values: this value stands for 1.0.
pub const TRIG_ONE: i64 = 1000;

/// An angle reduced to `[0, FULL_TURN)`.
pub open spec fn norm_spec(a: int) -> int {
    a % (FULL_TURN as int)
}

/// The product `a * (HALF_TURN - a)`, the kernel of the sine approximation.
pub open spec fn sine_kernel(a: int) -> int {
    a * (HALF_TURN - a)
}

/// Sine over the first half turn, scaled by `TRIG_ONE`:
/// `4 k / (40500e6 - k)` with `k = a (HALF_TURN - a)`, itself scaled.
pub open spec fn sin_half_spec(a: int) -> int {
    4000 * sine_kernel(a) / (40_500_000_000 - sine_kernel(a))
}

/// Sine of a normalized angle, scaled by `TRIG_ONE`.
pub open spec fn sin_spec(a: int) -> int {
    if a < HALF_TURN {
        sin_half_spec(a)
    } else {
        -sin_half_spec(a - HALF_TURN)
    }
}

/// Cosine of a normalized angle, scaled by `TRIG_ONE`.
pub open spec fn cos_spec(a: int) -> int {
    sin_spec(norm_spec(a + QUARTER_TURN))
}

/// Reduces an angle no more than one turn out of range to `[0, FULL_TURN)`.
pub fn norm_angle(a: i64) -> (r: i64)
    requires
        -FULL_TURN <= a < 2 * FULL_TURN,
    ensures
        r == norm_spec(a as int),
        0 <= r < FULL_TURN,
{
    proof {
        let f = FULL_TURN as int;
        if a < 0 {
            vstd::arithmetic::div_mod::lemma_fundamental_div_mod_converse(
                a as int, f, -1, a + f,
            );
        } else if a >= FULL_TURN {
            vstd::arithmetic::div_mod::lemma_fundamental_div_mod_converse(
                a as int, f, 1, a - f,
            );
        } else {
            vstd::arithmetic::div_mod::lemma_small_mod(a as nat, f as nat);
        }
    }
    if a < 0 {
        a + FULL_TURN
    } else if a >= FULL_TURN {
        a - FULL_TURN
    } else {
        a
    }
}

/// Sine over `[0, HALF_TURN]`, exact at 0, 30, 90, 150 and 180 degrees.
fn sin_half(a: i64) -> (r: i64)
    requires
        0 <= a <= HALF_TURN,
    ensures
        r == sin_half_spec(a as int),
        0 <= r <= TRIG_ONE,
{
    proof {
        assert(0 <= a * (HALF_TURN - a) <= 8_100_000_000int) by (nonlinear_arith)
            requires
                0 <= a <= HALF_TURN == 180_000int,
        ;
    }
    let k = a * (HALF_TURN - a);
    let num = 4000 * k;
    let den = 40_500_000_000 - k;
    let r = num / den;
    proof {
        vstd::arithmetic::div_mod::lemma_div_is_ordered(
            num as int,
            1000 * den as int,
            den as int,
        );
        vstd::arithmetic::div_mod::lemma_div_multiples_vanish(1000, den as int);
        vstd::arithmetic::div_mod::lemma_div_pos_is_pos(num as int, den as int);
    }
    r
}

/// Sine of a normalized fixed-point angle, scaled by `TRIG_ONE`.
pub fn sin_fp(a: i64) -> (r: i64)
    requires
        0 <= a < FULL_TURN,
    ensures
        r == sin_spec(a as int),
        -TRIG_ONE <= r <= TRIG_ONE,
{
    if a < HALF_TURN {
        sin_half(a)
    } else {
        -sin_half(a - HALF_TURN)
    }
}

/// Cosine of a normalized fixed-point angle, scaled by `TRIG_ONE`.
pub fn cos_fp(a: i64) -> (r: i64)
    requires
        0 <= a < FULL_TURN,
    ensures
        r == cos_spec(a as int),
        -TRIG_ONE <= r <= TRIG_ONE,
{
    let b = norm_angle(a + QUARTER_TURN);
    sin_fp(b)
}

/// The half-turn sine stays within its scale.
pub proof fn lemma_sin_half_bounds(a: int)
    requires
        0 <= a <= HALF_TURN,
    ensures
        0 <= sin_half_spec(a) <= TRIG_ONE,
{
    let k = sine_kernel(a);
    assert(0 <= a * (180_000 - a) <= 8_100_000_000int) by (nonlinear_arith)
        requires
            0 <= a <= 180_000int,
    ;
    assert(k == a * (180_000 - a));
    let num = 4000 * k;
    let den = 40_500_000_000 - k;
    vstd::arithmetic::div_mod::lemma_div_pos_is_pos(num, den);
    vstd::arithmetic::div_mod::lemma_div_is_ordered(num, 1000 * den, den);
    vstd::arithmetic::div_mod::lemma_div_multiples_vanish(1000, den);
}

/// Sine and cosine of any normalized angle stay within their scale.
pub proof fn lemma_trig_bounds(a: int)
    requires
        0 <= a < FULL_TURN,
    ensures
        -TRIG_ONE <= sin_spec(a) <= TRIG_ONE,
        -TRIG_ONE <= cos_spec(a) <= TRIG_ONE,
{
    if a < HALF_TURN {
        lemma_sin_half_bounds(a);
    } else {
        lemma_sin_half_bounds(a - HALF_TURN);
    }
    let b = norm_spec(a + QUARTER_TURN);
    vstd::arithmetic::div_mod::lemma_mod_bound(a + QUARTER_TURN, FULL_TURN as int);
    if b < HALF_TURN {
        lemma_sin_half_bounds(b);
    } else {
        lemma_sin_half_bounds(b - HALF_TURN);
    }
}

/// In the middle of the half turn the approximation stays at least half:
/// from 30 to 150 degrees the sine is at least 500.
pub proof fn lemma_sin_half_big(a: int)
    requires
        30_000 <= a <= 150_000,
    ensures
        sin_half_spec(a) >= 500,
{
    let k = sine_kernel(a);
    assert(4_500_000_000int <= a * (180_000 - a) <= 8_100_000_000int) by (nonlinear_arith)
        requires
            30_000 <= a <= 150_000,
    ;
    assert(k == a * (180_000 - a));
    let num = 4000 * k;
    let den = 40_500_000_000 - k;
    assert(num >= 500 * den);
    vstd::arithmetic::div_mod::lemma_div_is_ordered(500 * den, num, den);
    vstd::arithmetic::div_mod::lemma_div_multiples_vanish(500, den);
}

/// At every angle at least one of sine and cosine has magnitude at least
/// half: the direction vector never degenerates.
pub proof fn lemma_trig_dominant(a: int)
    requires
        0 <= a < FULL_TURN,
    ensures
        sin_spec(a) >= 500 || sin_spec(a) <= -500 || cos_spec(a) >= 500 || cos_spec(a) <= -500,
{
    let f = FULL_TURN as int;
    if 30_000 <= a <= 150_000 {
        lemma_sin_half_big(a);
    } else if 210_000 <= a <= 330_000 {
        lemma_sin_half_big(a - HALF_TURN);
    } else if a <= 60_000 {
        vstd::arithmetic::div_mod::lemma_small_mod((a + QUARTER_TURN) as nat, f as nat);
        lemma_sin_half_big(a + QUARTER_TURN);
    } else if 120_000 <= a <= 240_000 {
        vstd::arithmetic::div_mod::lemma_small_mod((a + QUARTER_TURN) as nat, f as nat);
        lemma_sin_half_big(a + QUARTER_TURN - HALF_TURN);
    } else {
        assert(300_000 <= a < 360_000);
        vstd::arithmetic::div_mod::lemma_fundamental_div_mod_converse(
            a + QUARTER_TURN,
            f,
            1,
            a + QUARTER_TURN - f,
        );
        lemma_sin_half_big(a + QUARTER_TURN - f);
    }
}

/// The approximation is exact at the four cardinal directions.
pub proof fn lemma_cardinal_values()
    ensures
        sin_spec(0) == 0,
        sin_spec(QUARTER_TURN as int) == TRIG_ONE,
        sin_spec(HALF_TURN as int) == 0,
        sin_spec(270_000) == -TRIG_ONE,
        cos_spec(0) == TRIG_ONE,
        cos_spec(QUARTER_TURN as int) == 0,
        cos_spec(HALF_TURN as int) == -TRIG_ONE,
        cos_spec(270_000) == 0,
{
    let f = FULL_TURN as int;
    vstd::arithmetic::div_mod::lemma_small_mod(90_000nat, f as nat);
    vstd::arithmetic::div_mod::lemma_small_mod(180_000nat, f as nat);
    vstd::arithmetic::div_mod::lemma_small_mod(270_000nat, f as nat);
    vstd::arithmetic::div_mod::lemma_fundamental_div_mod_converse(360_000, f, 1, 0);
    assert(sine_kernel(0) == 0);
    assert(sine_kernel(90_000) == 8_100_000_000int);
    assert(sine_kernel(180_000) == 0);
    assert(sin_half_spec(0) == 0);
    assert(sin_half_spec(90_000) == 32_400_000_000_000int / 32_400_000_000int);
    assert(32_400_000_000_000int / 32_400_000_000int == 1000) by {
        vstd::arithmetic::div_mod::lemma_div_multiples_vanish(1000, 32_400_000_000int);
    }
}

} // verus!
