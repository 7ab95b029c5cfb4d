//! Randomized trial inputs.
//!
//! The estimator's only nondeterminism enters here: a bucketed-uniform
//! draw picks one sub-interval of an ordered list of thresholds
//! uniformly, then a value uniformly inside that sub-interval.  The
//! thresholds are carried in fixed-point: body-size factors in
//! thousandths (so `1000` stands for a factor of one), strength in its
//! natural units.  Nothing is promised of a draw beyond its range: two
//! draws on equal inputs may differ.

use rand::Rng;
use vstd::prelude::*;

verus! {

#[verifier::external_type_specification]
#[verifier::external_body]
pub struct ExThreadRng(rand::rngs::ThreadRng);

/// Relies on rand::thread_rng: it hands out a handle to the lazily
/// initialized thread-local generator.
#[verifier::external_body]
pub(crate) fn fresh_rng() -> rand::rngs::ThreadRng {
    rand::thread_rng()
}

/// Relies on rand::Rng::gen_range over a half-open u64 range: the result
/// lies in `lo..hi`.  The call panics only on an empty range, which the
/// precondition rules out.
#[verifier::external_body]
pub(crate) fn gen_range_u64(rng: &mut rand::rngs::ThreadRng, lo: u64, hi: u64) -> (r: u64)
    requires
        lo < hi,
    ensures
        lo <= r < hi,
{
    rng.gen_range(lo..hi)
}

/// The ordered thresholds of the body-size factor, in thousandths:
/// 0.9, 0.95, 0.98, 1.0, 1.02, 1.05, 1.10.
pub open spec fn body_threshold(i: int) -> int {
    if i <= 0 {
        900
    } else if i == 1 {
        950
    } else if i == 2 {
        980
    } else if i == 3 {
        1000
    } else if i == 4 {
        1020
    } else if i == 5 {
        1050
    } else {
        1100
    }
}

fn body_threshold_at(i: u64) -> (r: u64)
    requires
        i <= 6,
    ensures
        r == body_threshold(i as int),
{
    if i == 0 {
        900
    } else if i == 1 {
        950
    } else if i == 2 {
        980
    } else if i == 3 {
        1000
    } else if i == 4 {
        1020
    } else if i == 5 {
        1050
    } else {
        1100
    }
}

/// The ordered strength thresholds.
pub open spec fn strength_threshold(i: int) -> int {
    if i <= 0 {
        450
    } else if i == 1 {
        950
    } else if i == 2 {
        1150
    } else if i == 3 {
        1250
    } else if i == 4 {
        1350
    } else if i == 5 {
        1550
    } else {
        2250
    }
}

fn strength_threshold_at(i: u64) -> (r: u64)
    requires
        i <= 6,
    ensures
        r == strength_threshold(i as int),
{
    if i == 0 {
        450
    } else if i == 1 {
        950
    } else if i == 2 {
        1150
    } else if i == 3 {
        1250
    } else if i == 4 {
        1350
    } else if i == 5 {
        1550
    } else {
        2250
    }
}

/// `r` fell in the body sub-interval `b`.
pub open spec fn in_body_bucket(b: int, r: int) -> bool {
    0 <= b < 6 && body_threshold(b) <= r && r < body_threshold(b + 1)
}

/// `r` fell in the strength sub-interval `b`.
pub open spec fn in_strength_bucket(b: int, r: int) -> bool {
    0 <= b < 6 && strength_threshold(b) <= r && r < strength_threshold(b + 1)
}

/// One bucketed-uniform body-size factor, in thousandths.
pub fn draw_body_factor(rng: &mut rand::rngs::ThreadRng) -> (r: u64)
    ensures
        900 <= r < 1100,
        exists|b: int| #[trigger] in_body_bucket(b, r as int),
{
    let b = gen_range_u64(rng, 0, 6);
    let lo = body_threshold_at(b);
    let hi = body_threshold_at(b + 1);
    let r = gen_range_u64(rng, lo, hi);
    proof {
        assert(in_body_bucket(b as int, r as int));
    }
    r
}

/// One bucketed-uniform strength draw.
pub fn draw_strength(rng: &mut rand::rngs::ThreadRng) -> (r: u64)
    ensures
        450 <= r < 2250,
        exists|b: int| #[trigger] in_strength_bucket(b, r as int),
{
    let b = gen_range_u64(rng, 0, 6);
    let lo = strength_threshold_at(b);
    let hi = strength_threshold_at(b + 1);
    let r = gen_range_u64(rng, lo, hi);
    proof {
        assert(in_strength_bucket(b as int, r as int));
    }
    r
}

/// Smallest value `draw_body_size` can return: 60000 * 900^3.
pub const BODY_SIZE_MIN: u64 = 43_740_000_000_000;

/// Exclusive ceiling of `draw_body_size`: 60000 * 1100^3.
pub const BODY_SIZE_CEIL: u64 = 79_860_000_000_000;

/// `r` is the nominal 60000 compounded by the three bucketed
/// linear-dimension factors `f1`, `f2`, `f3` (each in thousandths).
pub open spec fn compounded_body_size(f1: int, f2: int, f3: int, r: int) -> bool {
    &&& exists|b: int| #[trigger] in_body_bucket(b, f1)
    &&& exists|b: int| #[trigger] in_body_bucket(b, f2)
    &&& exists|b: int| #[trigger] in_body_bucket(b, f3)
    &&& r == 60000 * (f1 * f2 * f3)
}

/// A randomized body size: the nominal 60000 compounded by three
/// independent bucketed-uniform linear-dimension factors.  The result is
/// scaled by 10^9 (three factors in thousandths).
pub fn draw_body_size(rng: &mut rand::rngs::ThreadRng) -> (r: u64)
    ensures
        BODY_SIZE_MIN <= r < BODY_SIZE_CEIL,
        exists|f1: int, f2: int, f3: int| #[trigger] compounded_body_size(f1, f2, f3, r as int),
{
    let d1 = draw_body_factor(rng);
    let d2 = draw_body_factor(rng);
    let d3 = draw_body_factor(rng);
    proof {
        assert((d1 as int) * (d2 as int) >= 900 * 900 && (d1 as int) * (d2 as int) < 1100 * 1100)
            by (nonlinear_arith)
            requires
                900 <= (d1 as int) && (d1 as int) < 1100,
                900 <= (d2 as int) && (d2 as int) < 1100,
        ;
    }
    let p2: u64 = d1 * d2;
    proof {
        assert((p2 as int) * (d3 as int) >= 900 * 900 * 900 && (p2 as int) * (d3 as int) < 1100
            * 1100 * 1100) by (nonlinear_arith)
            requires
                900 * 900 <= (p2 as int) && (p2 as int) < 1100 * 1100,
                900 <= (d3 as int) && (d3 as int) < 1100,
        ;
    }
    let p3: u64 = p2 * d3;
    let r: u64 = 60000 * p3;
    proof {
        assert(compounded_body_size(d1 as int, d2 as int, d3 as int, r as int));
    }
    r
}

} // verus!
