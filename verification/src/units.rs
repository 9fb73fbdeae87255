//! Fixed-point units and the rounding rules shared by the rest of the crate.
//!
//! Every length, in world space and in the logical space of the user interface,
//! is counted in thousandths of a unit. A device pixel ratio is counted in
//! thousandths too, so a ratio of 2 is written 2000.

use vstd::prelude::*;
use vstd::arithmetic::mul::lemma_mul_inequality;

verus! {

/// Fixed-point steps in one whole unit.
pub const STEPS_PER_UNIT: u32 = 1000;

/// Largest magnitude of a logical coordinate that `scale_to_pixel` accepts.
/// Every edge of a rectangle with an `i32` origin and a `u32` extent lies inside it.
pub const EDGE_LIMIT: i64 = 0x2_0000_0000;

/// The pixel boundary that a logical coordinate lands on: `coord` thousandths of a
/// logical unit times `ratio` thousandths, rounded to the nearest whole pixel, a
/// tie going to the larger one.
pub open spec fn pixel_edge(coord: int, ratio: int) -> int {
    (2 * (coord * ratio) + 1_000_000) / 2_000_000
}

/// The point halfway between `a` and `b`, rounded down to the fixed-point grid.
pub open spec fn midpoint(a: int, b: int) -> int {
    (a + b) / 2
}

/// The pixel edge is the whole pixel nearest to the exact product
/// `coord * ratio / 1_000_000`: it lies at most half a pixel below it and less
/// than half a pixel above it.
pub proof fn lemma_pixel_edge_is_nearest(coord: int, ratio: int)
    ensures
        2_000_000 * pixel_edge(coord, ratio) - 1_000_000 <= 2 * (coord * ratio),
        2 * (coord * ratio) < 2_000_000 * pixel_edge(coord, ratio) + 1_000_000,
{
}

/// With a ratio that is not negative, a coordinate further along an axis never
/// lands on an earlier pixel edge.
pub proof fn lemma_pixel_edge_monotone(a: int, b: int, ratio: int)
    requires
        a <= b,
        ratio >= 0,
    ensures
        pixel_edge(a, ratio) <= pixel_edge(b, ratio),
{
    lemma_mul_inequality(a, b, ratio);
}

/// At a ratio of exactly one, a whole number of logical units lands on the pixel
/// edge of the same number.
pub proof fn lemma_pixel_edge_at_unit_ratio(units: int)
    ensures
        pixel_edge(units * 1000, 1000) == units,
{
    assert((units * 1000) * 1000 == units * 1_000_000) by (nonlinear_arith);
}

/// A bound on the pixel edge of a coordinate inside `EDGE_LIMIT`.
pub proof fn lemma_pixel_edge_bound(coord: int, ratio: int)
    requires
        -EDGE_LIMIT <= coord <= EDGE_LIMIT,
        0 <= ratio <= u32::MAX,
    ensures
        -0x1_0000_0000_0000 <= pixel_edge(coord, ratio) <= 0x1_0000_0000_0000,
{
    let p = coord * ratio;
    assert(-0x2_0000_0000_0000_0000 <= p <= 0x2_0000_0000_0000_0000)
        by (nonlinear_arith)
        requires
            p == coord * ratio,
            -0x2_0000_0000 <= coord <= 0x2_0000_0000,
            0 <= ratio <= 0xffff_ffff,
    ;
}

/// Computes the pixel edge of a logical coordinate.
pub fn scale_to_pixel(coord: i64, ratio: u32) -> (px: i64)
    requires
        -EDGE_LIMIT <= coord <= EDGE_LIMIT,
    ensures
        px == pixel_edge(coord as int, ratio as int),
{
    let c: i128 = coord as i128;
    let r: i128 = ratio as i128;
    proof {
        lemma_pixel_edge_bound(coord as int, ratio as int);
        assert(-0x2_0000_0000_0000_0000 <= c * r <= 0x2_0000_0000_0000_0000)
            by (nonlinear_arith)
            requires
                -0x2_0000_0000 <= c <= 0x2_0000_0000,
                0 <= r <= 0xffff_ffff,
        ;
    }
    let twice: i128 = 2 * (c * r) + 1_000_000;
    let quotient: i128 = twice / 2_000_000;
    let remainder: i128 = twice % 2_000_000;
    let floor: i128 = if remainder < 0 {
        quotient - 1
    } else {
        quotient
    };
    assert(floor == (twice as int) / 2_000_000);
    floor as i64
}

/// Computes the midpoint of two fixed-point values.
pub fn midpoint_of(a: i64, b: i64) -> (m: i64)
    ensures
        m == midpoint(a as int, b as int),
{
    let sum: i128 = a as i128 + b as i128;
    let quotient: i128 = sum / 2;
    let remainder: i128 = sum % 2;
    let floor: i128 = if remainder < 0 {
        quotient - 1
    } else {
        quotient
    };
    floor as i64
}

} // verus!
