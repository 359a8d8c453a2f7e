//! Fixed-point arithmetic for the simulation.
//!
//! Every length, speed and duration in the game is an `i64` counted in
//! milli-units: one world unit (a pixel, a second) is `MILLI` subunits.
//! Multiplying two fixed-point quantities therefore needs a rescale by
//! `MILLI`, done with truncation toward zero, the way binary floating
//! point rounds small magnitudes toward zero.

use vstd::arithmetic::div_mod::{lemma_div_is_ordered_by_denominator, lemma_div_pos_is_pos};
use vstd::prelude::*;

verus! {

/// Number of fixed-point subunits in one world unit.
pub const MILLI: i64 = 1000;

/// Largest magnitude accepted for a tuning value, an entity size or a
/// screen dimension (50 000 world units).
pub const TUNING_MAX: i64 = 50_000_000;

/// Longest tick duration accepted, in subunits of a second (100 seconds).
pub const DT_MAX: i64 = 100_000;

/// The ship's speed saturates at this magnitude.
pub const SHIP_SPEED_MAX: i64 = 1_000_000_000_000;

/// Largest coordinate magnitude the entity store accepts.
pub const COORD_MAX: i64 = 100_000_000_000_000_000;

/// Quotient of `a` by `b`, truncated toward zero: the rounding of Rust's
/// `/` on signed integers (`b` is meant to be positive).
pub open spec fn fx_div(a: int, b: int) -> int {
    if a >= 0 {
        a / b
    } else {
        -((-a) / b)
    }
}

/// Product of two fixed-point quantities, rescaled into fixed point.
pub open spec fn fx_mul(a: int, b: int) -> int {
    fx_div(a * b, MILLI as int)
}

/// Truncating division shrinks magnitudes and keeps signs.
pub proof fn lemma_fx_div_bounds(a: int, b: int)
    requires
        b >= 1,
    ensures
        a >= 0 ==> 0 <= fx_div(a, b) <= a,
        a < 0 ==> a <= fx_div(a, b) <= 0,
{
    if a >= 0 {
        lemma_div_pos_is_pos(a, b);
        lemma_div_is_ordered_by_denominator(a, 1, b);
    } else {
        lemma_div_pos_is_pos(-a, b);
        lemma_div_is_ordered_by_denominator(-a, 1, b);
    }
}

/// Fixed-point product `a * b / MILLI`, truncated toward zero.
pub fn mul_milli(a: i64, b: i64) -> (r: i64)
    requires
        i64::MIN <= a * b <= i64::MAX,
    ensures
        r == fx_mul(a as int, b as int),
        i64::MIN <= fx_mul(a as int, b as int) <= i64::MAX,
{
    proof {
        lemma_fx_div_bounds(a * b, MILLI as int);
    }
    (a * b) / MILLI
}

/// Where the ship's speed saturates: values past the bound stop there.
pub open spec fn spec_clamp_speed(v: int) -> int {
    if v > SHIP_SPEED_MAX {
        SHIP_SPEED_MAX as int
    } else if v < -SHIP_SPEED_MAX {
        -SHIP_SPEED_MAX as int
    } else {
        v
    }
}

} // verus!
