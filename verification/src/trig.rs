//! Fixed-point angles and trigonometry.
//!
//! Angles are measured in turn units: `QUARTER_TURN` units per quarter
//! turn, `FULL_TURN` units per revolution.  Sine and cosine are computed
//! over these units and scaled by `SCALE`, using the classical rational
//! approximation of the sine (Bhaskara I): for an arc `x` of at most a
//! half turn, with `t` the fraction of the half turn,
//!
//! ```text
//! sin(pi * t) ~ 16 t (1 - t) / (5 - 4 t (1 - t))
//! ```
//!
//! The approximation is exact at every multiple of the quarter turn and
//! within about `0.2%` of the true sine elsewhere.  Expressed in turn
//! units (`h` out of `HALF_TURN`, with `p = h * (HALF_TURN - h)`) the
//! scaled value becomes `4 * p * SCALE / (5 * QUARTER_TURN^2 - p)`, which
//! is what `sin_arc` states and `sin_arc_fixed` computes.

use vstd::prelude::*;
use vstd::arithmetic::div_mod::lemma_div_pos_is_pos;
use vstd::arithmetic::div_mod::lemma_multiply_divide_le;

verus! {

/// Turn units in a quarter turn.
pub const QUARTER_TURN: i64 = 1_000_000;

/// Turn units in a half turn.
pub const HALF_TURN: i64 = 2_000_000;

/// Turn units in a full revolution; the upper bound of every joint angle.
pub const FULL_TURN: i64 = 4_000_000;

/// Scale of trigonometric values: `sin` and `cos` range over `[-SCALE, SCALE]`.
pub const SCALE: i64 = 1_000_000;

/// Largest admissible link length or origin coordinate, in micro-units.
pub const MAX_LEN: i64 = 1_000_000_000_000;

/// Scaled sine of an arc `h` of at most a half turn, by the rational
/// approximation described in the module documentation.
pub open spec fn sin_arc(h: int) -> int {
    let p = h * (HALF_TURN - h);
    (4 * p * SCALE) / (5 * QUARTER_TURN * QUARTER_TURN - p)
}

/// Scaled sine of an angle `a` in `[0, FULL_TURN]`: the arc approximation
/// on the first half turn, mirrored and negated on the second.
pub open spec fn sin_units(a: int) -> int {
    if a <= HALF_TURN {
        sin_arc(a)
    } else {
        -sin_arc(a - HALF_TURN)
    }
}

/// Scaled cosine of an angle `a` in `[0, FULL_TURN]`: the sine shifted by
/// a quarter turn, wrapped back into range.
pub open spec fn cos_units(a: int) -> int {
    if a + QUARTER_TURN <= FULL_TURN {
        sin_units(a + QUARTER_TURN)
    } else {
        sin_units(a + QUARTER_TURN - FULL_TURN)
    }
}

/// The saturating angle update: `t + d` held within `[0, FULL_TURN]`.
pub open spec fn clamp_angle(t: int, d: int) -> int {
    if t + d < 0 {
        0
    } else if t + d > FULL_TURN {
        FULL_TURN as int
    } else {
        t + d
    }
}

/// A length scaled by a trigonometric value: `len * c` brought back to
/// micro-units, rounded toward zero.
pub open spec fn scale_len(len: int, c: int) -> int {
    if c >= 0 {
        (len * c) / (SCALE as int)
    } else {
        -((len * (-c)) / (SCALE as int))
    }
}

/// The arc approximation stays within the trigonometric scale.
pub proof fn lemma_sin_arc_bounds(h: int)
    requires
        0 <= h <= HALF_TURN,
    ensures
        0 <= sin_arc(h) <= SCALE,
{
    let p = h * (HALF_TURN - h);
    assert(0 <= h * (2_000_000 - h) <= 1_000_000_000_000int) by (nonlinear_arith)
        requires
            0 <= h <= 2_000_000,
    ;
    lemma_div_pos_is_pos(4 * p * SCALE, 5 * QUARTER_TURN * QUARTER_TURN - p);
    lemma_multiply_divide_le(4 * p * SCALE, 5 * QUARTER_TURN * QUARTER_TURN - p, SCALE as int);
}

/// The scaled sine stays within the trigonometric scale.
pub proof fn lemma_sin_units_bounds(a: int)
    requires
        0 <= a <= FULL_TURN,
    ensures
        -SCALE <= sin_units(a) <= SCALE,
{
    if a <= HALF_TURN {
        lemma_sin_arc_bounds(a);
    } else {
        lemma_sin_arc_bounds(a - HALF_TURN);
    }
}

/// The scaled cosine stays within the trigonometric scale.
pub proof fn lemma_cos_units_bounds(a: int)
    requires
        0 <= a <= FULL_TURN,
    ensures
        -SCALE <= cos_units(a) <= SCALE,
{
    if a + QUARTER_TURN <= FULL_TURN {
        lemma_sin_units_bounds(a + QUARTER_TURN);
    } else {
        lemma_sin_units_bounds(a + QUARTER_TURN - FULL_TURN);
    }
}

/// A scaled length never exceeds the length itself in magnitude.
pub proof fn lemma_scale_len_bounds(len: int, c: int)
    requires
        0 <= len,
        -SCALE <= c <= SCALE,
    ensures
        -len <= scale_len(len, c) <= len,
{
    if c >= 0 {
        assert(0 <= len * c <= 1_000_000 * len) by (nonlinear_arith)
            requires
                0 <= len,
                0 <= c <= 1_000_000,
        ;
        lemma_div_pos_is_pos(len * c, SCALE as int);
        lemma_multiply_divide_le(len * c, SCALE as int, len);
    } else {
        assert(0 <= len * (-c) <= 1_000_000 * len) by (nonlinear_arith)
            requires
                0 <= len,
                0 <= -c <= 1_000_000,
        ;
        lemma_div_pos_is_pos(len * (-c), SCALE as int);
        lemma_multiply_divide_le(len * (-c), SCALE as int, len);
    }
}

/// Scaled sine over the first half turn.
fn sin_arc_fixed(h: i64) -> (r: i64)
    requires
        0 <= h <= HALF_TURN,
    ensures
        r == sin_arc(h as int),
        0 <= r <= SCALE,
{
    let hu: u64 = h as u64;
    let half: u64 = HALF_TURN as u64;
    proof {
        let hi: int = h as int;
        assert(0 <= hi * (2_000_000 - hi) <= 1_000_000_000_000int) by (nonlinear_arith)
            requires
                0 <= hi <= 2_000_000,
        ;
    }
    let p: u64 = hu * (half - hu);
    let num: u64 = p * 4_000_000;
    let den: u64 = 5_000_000_000_000 - p;
    let r: u64 = num / den;
    proof {
        lemma_div_pos_is_pos(num as int, den as int);
        lemma_multiply_divide_le(num as int, den as int, SCALE as int);
    }
    r as i64
}

/// Scaled sine of an angle in `[0, FULL_TURN]` turn units.
pub fn sin_fixed(a: i64) -> (r: i64)
    requires
        0 <= a <= FULL_TURN,
    ensures
        r == sin_units(a as int),
        -SCALE <= r <= SCALE,
{
    if a <= HALF_TURN {
        sin_arc_fixed(a)
    } else {
        let m = sin_arc_fixed(a - HALF_TURN);
        -m
    }
}

/// Scaled cosine of an angle in `[0, FULL_TURN]` turn units.
pub fn cos_fixed(a: i64) -> (r: i64)
    requires
        0 <= a <= FULL_TURN,
    ensures
        r == cos_units(a as int),
        -SCALE <= r <= SCALE,
{
    let shifted: i64 = if a + QUARTER_TURN <= FULL_TURN {
        a + QUARTER_TURN
    } else {
        a + QUARTER_TURN - FULL_TURN
    };
    sin_fixed(shifted)
}

/// A length in micro-units scaled by a trigonometric value; the result
/// never exceeds the length in magnitude.
pub fn scaled_component(len: i64, c: i64) -> (r: i64)
    requires
        0 <= len <= MAX_LEN,
        -SCALE <= c <= SCALE,
    ensures
        r == scale_len(len as int, c as int),
        -len <= r <= len,
{
    if c >= 0 {
        proof {
            let li: int = len as int;
            let ci: int = c as int;
            assert(0 <= li * ci <= 1_000_000 * li) by (nonlinear_arith)
                requires
                    0 <= li,
                    0 <= ci <= 1_000_000,
            ;
            lemma_div_pos_is_pos(li * ci, SCALE as int);
            lemma_multiply_divide_le(li * ci, SCALE as int, li);
        }
        let q: u64 = (len as u64) * (c as u64) / (SCALE as u64);
        q as i64
    } else {
        let m: i64 = -c;
        proof {
            let li: int = len as int;
            let mi: int = m as int;
            assert(0 <= li * mi <= 1_000_000 * li) by (nonlinear_arith)
                requires
                    0 <= li,
                    0 <= mi <= 1_000_000,
            ;
            lemma_div_pos_is_pos(li * mi, SCALE as int);
            lemma_multiply_divide_le(li * mi, SCALE as int, li);
        }
        let q: u64 = (len as u64) * (m as u64) / (SCALE as u64);
        -(q as i64)
    }
}

} // verus!

