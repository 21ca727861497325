//! Smoothing kernels: pure weight functions of (interaction radius, distance)
//! that underlie every density and force computation.
//!
//! The kernels are integer polynomials in `radius - distance`, cut off to
//! exactly zero beyond the radius. Normalization constants of the continuous
//! formulation are folded into the pressure and viscosity scalars of the
//! parameter set, which keeps every kernel value exact; only the viscosity
//! kernel divides, by `radius^4`, so that its values stay within the range of
//! the force accumulation.

use vstd::prelude::*;
use vstd::arithmetic::div_mod::{lemma_div_is_ordered, lemma_div_pos_is_pos, lemma_div_by_multiple};
use crate::math::RADIUS_LIMIT;

verus! {

/// Floor added to every accumulated density so that dividing by a density is
/// always sound.
pub const DENSITY_PADDING: i64 = 1;

/// Density kernel: `(radius - distance)^2` within the radius, zero beyond.
pub open spec fn smoothing_kernel_spec(radius: int, distance: int) -> int {
    if distance > radius {
        0
    } else {
        (radius - distance) * (radius - distance)
    }
}

/// Slope of the density kernel: `2 * (distance - radius)` within the radius,
/// zero beyond. Never positive, so the pressure force of a compressed region
/// pushes particles apart.
pub open spec fn smoothing_kernel_derivative_spec(radius: int, distance: int) -> int {
    if distance > radius {
        0
    } else {
        2 * (distance - radius)
    }
}

/// Near-density kernel: `(radius - distance)^3`, a steeper falloff used for
/// the short-range anti-clumping pressure.
pub open spec fn smoothing_kernel_near_spec(radius: int, distance: int) -> int {
    if distance > radius {
        0
    } else {
        (radius - distance) * (radius - distance) * (radius - distance)
    }
}

/// Slope of the near-density kernel: `-3 * (radius - distance)^2` within the
/// radius, zero beyond. Never positive, so the near-pressure term is purely
/// repulsive.
pub open spec fn smoothing_kernel_derivative_near_spec(radius: int, distance: int) -> int {
    if distance > radius {
        0
    } else {
        -3 * ((radius - distance) * (radius - distance))
    }
}

/// Viscosity kernel: `(radius^2 - distance^2)^3 / radius^4`, a smooth bump
/// used to blend neighbour velocities. The division truncates; both operands
/// are non-negative within the radius.
pub open spec fn smoothing_kernel_viscosity_spec(radius: int, distance: int) -> int {
    if distance > radius {
        0
    } else {
        let v: int = radius * radius - distance * distance;
        (v * v * v) / (radius * radius * radius * radius)
    }
}

/// Every kernel and every kernel slope is exactly zero beyond the radius.
pub proof fn lemma_kernels_vanish_beyond_radius(radius: int, distance: int)
    requires
        distance > radius,
    ensures
        smoothing_kernel_spec(radius, distance) == 0,
        smoothing_kernel_derivative_spec(radius, distance) == 0,
        smoothing_kernel_near_spec(radius, distance) == 0,
        smoothing_kernel_derivative_near_spec(radius, distance) == 0,
        smoothing_kernel_viscosity_spec(radius, distance) == 0,
{
}

/// The density kernel is positive at distance zero.
pub proof fn lemma_smoothing_kernel_positive_at_zero(radius: int)
    requires
        radius > 0,
    ensures
        smoothing_kernel_spec(radius, 0) > 0,
{
    assert(radius * radius > 0) by (nonlinear_arith)
        requires
            radius > 0,
    ;
}

/// The density kernel is strictly decreasing in distance on `[0, radius]`.
pub proof fn lemma_smoothing_kernel_strictly_decreasing(radius: int, d1: int, d2: int)
    requires
        0 <= d1 < d2 <= radius,
    ensures
        smoothing_kernel_spec(radius, d1) > smoothing_kernel_spec(radius, d2),
{
    assert((radius - d1) * (radius - d1) > (radius - d2) * (radius - d2)) by (nonlinear_arith)
        requires
            0 <= d1 < d2 <= radius,
    ;
}

/// Ranges of every kernel for a radius within the model's limit: values are
/// non-negative, slopes are non-positive, and all are bounded by small powers
/// of the radius.
pub proof fn lemma_kernel_ranges(radius: int, distance: int)
    requires
        0 < radius <= RADIUS_LIMIT,
        0 <= distance,
    ensures
        0 <= smoothing_kernel_spec(radius, distance) <= radius * radius,
        0 <= smoothing_kernel_near_spec(radius, distance) <= radius * radius * radius,
        -2 * radius <= smoothing_kernel_derivative_spec(radius, distance) <= 0,
        -3 * (radius * radius) <= smoothing_kernel_derivative_near_spec(radius, distance) <= 0,
        0 <= smoothing_kernel_viscosity_spec(radius, distance) <= radius * radius,
        radius * radius <= 1048576,
        radius * radius * radius <= 1073741824,
{
    assert(0 < radius * radius <= 1048576 && 0 < radius * radius * radius <= 1073741824)
        by (nonlinear_arith)
        requires
            0 < radius <= RADIUS_LIMIT,
            RADIUS_LIMIT == 1024,
    ;
    if distance <= radius {
        let w: int = radius - distance;
        assert(0 <= w * w <= radius * radius && 0 <= w * w * w <= radius * radius * radius
            && 0 <= 3 * (w * w) <= 3 * (radius * radius)) by (nonlinear_arith)
            requires
                0 <= w <= radius,
        ;
        let v: int = radius * radius - distance * distance;
        let den: int = radius * radius * radius * radius;
        assert(0 <= v <= radius * radius && 0 < den && den == (radius * radius) * (radius
            * radius)) by (nonlinear_arith)
            requires
                0 < radius,
                0 <= distance <= radius,
                v == radius * radius - distance * distance,
                den == radius * radius * radius * radius,
        ;
        assert(0 <= v * v * v <= (radius * radius) * den) by (nonlinear_arith)
            requires
                0 <= v <= radius * radius,
                den == (radius * radius) * (radius * radius),
        ;
        lemma_div_pos_is_pos(v * v * v, den);
        lemma_div_is_ordered(v * v * v, (radius * radius) * den, den);
        lemma_div_by_multiple(radius * radius, den);
    }
}

/// Density kernel.
pub fn smoothing_kernel(radius: i64, distance: i64) -> (w: i64)
    requires
        0 < radius <= RADIUS_LIMIT,
        0 <= distance,
    ensures
        w == smoothing_kernel_spec(radius as int, distance as int),
        0 <= w <= radius * radius,
{
    proof {
        lemma_kernel_ranges(radius as int, distance as int);
    }
    if distance > radius {
        return 0;
    }
    let v: i64 = radius - distance;
    v * v
}

/// Slope of the density kernel.
pub fn smoothing_kernel_derivative(radius: i64, distance: i64) -> (w: i64)
    requires
        0 < radius <= RADIUS_LIMIT,
        0 <= distance,
    ensures
        w == smoothing_kernel_derivative_spec(radius as int, distance as int),
        -2 * radius <= w <= 0,
{
    proof {
        lemma_kernel_ranges(radius as int, distance as int);
    }
    if distance > radius {
        return 0;
    }
    2 * (distance - radius)
}

/// Near-density kernel.
pub fn smoothing_kernel_near(radius: i64, distance: i64) -> (w: i64)
    requires
        0 < radius <= RADIUS_LIMIT,
        0 <= distance,
    ensures
        w == smoothing_kernel_near_spec(radius as int, distance as int),
        0 <= w <= radius * radius * radius,
{
    proof {
        lemma_kernel_ranges(radius as int, distance as int);
    }
    if distance > radius {
        return 0;
    }
    let v: i64 = radius - distance;
    v * v * v
}

/// Slope of the near-density kernel.
pub fn smoothing_kernel_derivative_near(radius: i64, distance: i64) -> (w: i64)
    requires
        0 < radius <= RADIUS_LIMIT,
        0 <= distance,
    ensures
        w == smoothing_kernel_derivative_near_spec(radius as int, distance as int),
        -3 * (radius * radius) <= w <= 0,
{
    proof {
        lemma_kernel_ranges(radius as int, distance as int);
    }
    if distance > radius {
        return 0;
    }
    let v: i64 = radius - distance;
    -3 * (v * v)
}

/// Viscosity kernel.
pub fn smoothing_kernel_viscosity(radius: i64, distance: i64) -> (w: i64)
    requires
        0 < radius <= RADIUS_LIMIT,
        0 <= distance,
    ensures
        w == smoothing_kernel_viscosity_spec(radius as int, distance as int),
        0 <= w <= radius * radius,
{
    proof {
        lemma_kernel_ranges(radius as int, distance as int);
    }
    if distance > radius {
        return 0;
    }
    proof {
        assert(0 <= distance * distance <= radius * radius) by (nonlinear_arith)
            requires
                0 <= distance <= radius,
        ;
    }
    let v: i64 = radius * radius - distance * distance;
    proof {
        assert(0 <= v * v <= 0x10000000000 && 0 <= v * v * v <= 0x1000000000000000 && 0 < radius
            * radius <= 0x100000 && 0 < radius * radius * radius <= 0x40000000 && 0 < radius
            * radius * radius * radius <= 0x10000000000) by (nonlinear_arith)
            requires
                0 <= v <= radius * radius,
                0 < radius <= RADIUS_LIMIT,
                RADIUS_LIMIT == 1024,
        ;
    }
    let num: i64 = v * v * v;
    let den: i64 = radius * radius * radius * radius;
    ((num as u64) / (den as u64)) as i64
}

} // verus!
