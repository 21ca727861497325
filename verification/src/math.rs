//! Integer vector type, range limits of the model, and the arithmetic
//! helpers (integer square root, truncating and flooring division, clamp)
//! that the solver builds on.

use vstd::prelude::*;
use vstd::arithmetic::div_mod::{
    lemma_fundamental_div_mod, lemma_fundamental_div_mod_converse, lemma_div_is_ordered,
    lemma_div_pos_is_pos, lemma_div_by_multiple, lemma_mod_bound,
};

verus! {

/// Bound on particle positions: collision resolution keeps every coordinate
/// inside a container whose extents must lie within this range. (2^20)
pub const COORD_LIMIT: i64 = 1048576;

/// Bound on velocity components; the integrator saturates at this value. (2^20)
pub const VEL_LIMIT: i64 = 1048576;

/// Bound on the smoothing radius and the particle radius. (2^10)
pub const RADIUS_LIMIT: i64 = 1024;

/// Bound on the particle mass. (2^8)
pub const MASS_LIMIT: i64 = 256;

/// Bound on the magnitude of the pressure, near-pressure and viscosity
/// scalars. (2^8)
pub const SCALAR_LIMIT: i64 = 256;

/// Bound on the timestep. (2^10)
pub const DT_LIMIT: i64 = 1024;

/// Fixed-point denominator of the collision damping factor: a damping value
/// of `DAMPING_SCALE` is perfectly elastic, smaller values dissipate. (2^10)
pub const DAMPING_SCALE: i64 = 1024;

/// Bound on acceleration components; the force solver saturates at this
/// value. (2^40)
pub const ACC_LIMIT: i64 = 1099511627776;

/// Bound on predicted positions: a position within `COORD_LIMIT` moved by at
/// most `VEL_LIMIT * DT_LIMIT`. (2^30 + 2^20)
pub const PRED_LIMIT: i64 = 1074790400;

/// Bound on the number of particles one solver pass accepts. (2^12)
pub const N_LIMIT: usize = 4096;

/// Bound on gravity components and on the cursor force magnitude. (2^20)
pub const FORCE_LIMIT: i64 = 1048576;

/// Bound on the target density. (2^40)
pub const TARGET_DENSITY_LIMIT: i64 = 1099511627776;

/// Bound on an accumulated density: the padding floor plus at most `N_LIMIT`
/// neighbours, each contributing at most `MASS_LIMIT * RADIUS_LIMIT^2`.
/// (2^40 + 1)
pub const DENSITY_LIMIT: i64 = 1099511627777;

/// Bound on an accumulated near-density, with the steeper kernel bounded by
/// `RADIUS_LIMIT^3`. (2^50 + 1)
pub const NEAR_DENSITY_LIMIT: i64 = 1125899906842625;

/// Bound on the pressure magnitude: `SCALAR_LIMIT` times the largest
/// density-to-target gap. (2^50)
pub const PRESSURE_LIMIT: i64 = 1125899906842624;

/// Bound on the near-pressure: `SCALAR_LIMIT * NEAR_DENSITY_LIMIT` fits
/// well under this. (2^59)
pub const NEAR_PRESSURE_LIMIT: i64 = 576460752303423488;

/// Plain two-component integer vector: positions, velocities and forces of
/// the model.
#[derive(Clone, Copy, PartialEq, Eq, Structural, Debug)]
pub struct IVec2 {
    pub x: i64,
    pub y: i64,
}

impl IVec2 {
    /// The zero vector.
    pub fn zero() -> (v: IVec2)
        ensures
            v.x == 0,
            v.y == 0,
    {
        IVec2 { x: 0, y: 0 }
    }

    /// Build a vector from its components.
    pub fn new(x: i64, y: i64) -> (v: IVec2)
        ensures
            v.x == x,
            v.y == y,
    {
        IVec2 { x, y }
    }
}

/// The largest `r` with `r * r <= s`.
pub open spec fn sqrt_floor(s: nat) -> nat
    decreases s,
{
    if s == 0 {
        0
    } else {
        let p: nat = sqrt_floor((s - 1) as nat);
        if (p + 1) * (p + 1) <= s {
            p + 1
        } else {
            p
        }
    }
}

/// `sqrt_floor(s)` squares to at most `s`, and is the largest such value.
pub proof fn lemma_sqrt_floor_bounds(s: nat)
    ensures
        sqrt_floor(s) * sqrt_floor(s) <= s,
        s < (sqrt_floor(s) + 1) * (sqrt_floor(s) + 1),
    decreases s,
{
    let f: nat = sqrt_floor(s);
    if s == 0 {
        assert(f == 0);
        assert(f * f <= s && s < (f + 1) * (f + 1)) by (nonlinear_arith)
            requires
                f == 0,
                s == 0,
        ;
    } else {
        lemma_sqrt_floor_bounds((s - 1) as nat);
        let p: nat = sqrt_floor((s - 1) as nat);
        if (p + 1) * (p + 1) <= s {
            assert(f == p + 1);
            assert(f * f <= s && s < (f + 1) * (f + 1)) by (nonlinear_arith)
                requires
                    f == p + 1,
                    (p + 1) * (p + 1) <= s,
                    s - 1 < (p + 1) * (p + 1),
            ;
        } else {
            assert(f == p);
            assert(f * f <= s && s < (f + 1) * (f + 1)) by (nonlinear_arith)
                requires
                    f == p,
                    p * p <= s - 1,
                    s >= 1,
                    !((p + 1) * (p + 1) <= s),
            ;
        }
    }
}

/// Any `r` with `r * r <= s < (r + 1) * (r + 1)` is `sqrt_floor(s)`.
pub proof fn lemma_sqrt_floor_unique(s: nat, r: nat)
    requires
        r * r <= s,
        s < (r + 1) * (r + 1),
    ensures
        r == sqrt_floor(s),
{
    lemma_sqrt_floor_bounds(s);
    let f: nat = sqrt_floor(s);
    if r < f {
        assert(false) by (nonlinear_arith)
            requires
                r < f,
                f * f <= s,
                s < (r + 1) * (r + 1),
        ;
    }
    if f < r {
        assert(false) by (nonlinear_arith)
            requires
                f < r,
                r * r <= s,
                s < (f + 1) * (f + 1),
        ;
    }
}

/// Integer square root by binary search.
pub fn isqrt(s: u64) -> (r: u64)
    ensures
        r == sqrt_floor(s as nat),
        r <= 4294967295,
{
    let mut lo: u64 = 0;
    let mut hi: u64 = 4294967296;
    proof {
        assert(s < hi * hi) by (nonlinear_arith)
            requires
                s <= u64::MAX,
                hi == 4294967296,
        ;
    }
    while lo + 1 < hi
        invariant
            lo < hi <= 4294967296,
            lo * lo <= s,
            s < hi * hi,
        decreases hi - lo,
    {
        let mid: u64 = lo + (hi - lo) / 2;
        proof {
            assert((mid as int) * (mid as int) <= 0x10000000000000000) by (nonlinear_arith)
                requires
                    mid <= 4294967296,
            ;
        }
        if (mid as u128) * (mid as u128) <= s as u128 {
            lo = mid;
        } else {
            hi = mid;
        }
    }
    proof {
        lemma_sqrt_floor_unique(s as nat, lo as nat);
    }
    lo
}

/// Division that truncates toward zero, the convention of every division in
/// the solver's formulas.
pub open spec fn trunc_div(a: int, b: int) -> int {
    if a >= 0 {
        a / b
    } else {
        -((-a) / b)
    }
}

/// Truncating toward zero is symmetric in the dividend's sign.
pub proof fn lemma_trunc_div_antisymmetric(a: int, b: int)
    requires
        0 < b,
    ensures
        trunc_div(-a, b) == -trunc_div(a, b),
{
    if a == 0 {
        assert(0int / b == 0) by {
            lemma_div_pos_is_pos(0, b);
            lemma_div_is_ordered(0, 0, b);
            lemma_div_by_multiple(0, b);
        }
    }
}

/// The quotient's magnitude never exceeds the dividend's.
pub proof fn lemma_trunc_div_bound(a: int, b: int, m: int)
    requires
        0 < b,
        -m <= a <= m,
        0 <= m,
    ensures
        -m <= trunc_div(a, b) <= m,
{
    if a >= 0 {
        lemma_div_pos_is_pos(a, b);
        lemma_div_is_ordered(a, m, b);
        assert(m / b <= m) by (nonlinear_arith)
            requires
                0 < b,
                0 <= m,
        ;
    } else {
        lemma_div_pos_is_pos(-a, b);
        lemma_div_is_ordered(-a, m, b);
        assert(m / b <= m) by (nonlinear_arith)
            requires
                0 < b,
                0 <= m,
        ;
    }
}

/// Scaling a bounded value by `c / den` with `|c| <= den` cannot grow it.
pub proof fn lemma_trunc_div_scale_bound(a: int, c: int, den: int, m: int)
    requires
        0 < den,
        -den <= c <= den,
        -m <= a <= m,
        0 <= m,
    ensures
        -m <= trunc_div(a * c, den) <= m,
{
    assert(-(m * den) <= a * c <= m * den) by (nonlinear_arith)
        requires
            -den <= c <= den,
            -m <= a <= m,
            0 <= m,
            0 < den,
    ;
    let p: int = a * c;
    lemma_div_by_multiple(m, den);
    if p >= 0 {
        lemma_div_pos_is_pos(p, den);
        lemma_div_is_ordered(p, m * den, den);
    } else {
        lemma_div_pos_is_pos(-p, den);
        lemma_div_is_ordered(-p, m * den, den);
    }
}

/// Scaling a nonzero value by `c / den` with `0 <= c < den` strictly
/// shrinks its magnitude.
pub proof fn lemma_trunc_div_scale_strict(a: int, c: int, den: int)
    requires
        0 < den,
        0 <= c < den,
        a != 0,
    ensures
        a > 0 ==> -a < trunc_div(a * c, den) < a,
        a < 0 ==> a < trunc_div(a * c, den) < -a,
{
    let m: int = if a > 0 {
        a
    } else {
        -a
    };
    let p: int = a * c;
    let q: int = if p >= 0 {
        p / den
    } else {
        -((-p) / den)
    };
    assert(-(m * den) < p < m * den) by (nonlinear_arith)
        requires
            0 <= c < den,
            -m <= a <= m,
            0 < m,
            0 < den,
            p == a * c,
    ;
    if p >= 0 {
        lemma_div_pos_is_pos(p, den);
        lemma_fundamental_div_mod(p, den);
        lemma_mod_bound(p, den);
        assert(q < m) by (nonlinear_arith)
            requires
                p == den * q + p % den,
                0 <= p % den,
                p < m * den,
                0 < den,
        ;
    } else {
        lemma_div_pos_is_pos(-p, den);
        lemma_fundamental_div_mod(-p, den);
        lemma_mod_bound(-p, den);
        assert((-p) / den < m) by (nonlinear_arith)
            requires
                -p == den * ((-p) / den) + (-p) % den,
                0 <= (-p) % den,
                -p < m * den,
                0 < den,
        ;
    }
}

/// Truncating division of `i128` values, via unsigned magnitudes.
pub fn div_trunc_i128(a: i128, b: i128) -> (q: i128)
    requires
        0 < b,
        -0x40000000000000000000000000000000 < a < 0x40000000000000000000000000000000,
    ensures
        q == trunc_div(a as int, b as int),
        a >= 0 ==> 0 <= q <= a,
        a < 0 ==> a <= q <= 0,
{
    if a >= 0 {
        let q: u128 = (a as u128) / (b as u128);
        proof {
            lemma_div_pos_is_pos(a as int, b as int);
            assert((a as int) / (b as int) <= a) by (nonlinear_arith)
                requires
                    0 < b,
                    0 <= a,
            ;
        }
        q as i128
    } else {
        let q: u128 = ((-a) as u128) / (b as u128);
        proof {
            lemma_div_pos_is_pos(-(a as int), b as int);
            assert((-(a as int)) / (b as int) <= -(a as int)) by (nonlinear_arith)
                requires
                    0 < b,
                    a < 0,
            ;
        }
        -(q as i128)
    }
}

/// Truncating division of `i64` values.
pub fn div_trunc_i64(a: i64, b: i64) -> (q: i64)
    requires
        0 < b,
    ensures
        q == trunc_div(a as int, b as int),
        a >= 0 ==> 0 <= q <= a,
        a < 0 ==> a <= q <= 0,
{
    let q: i128 = div_trunc_i128(a as i128, b as i128);
    q as i64
}

/// Flooring division (the quotient rounds toward negative infinity), used to
/// quantize coordinates into grid cells. Matches the mathematical `/` of
/// specifications for a positive divisor.
pub fn div_floor_i64(a: i64, b: i64) -> (q: i64)
    requires
        0 < b,
        -0x4000000000000000 < a < 0x4000000000000000,
    ensures
        q == (a as int) / (b as int),
        a >= 0 ==> 0 <= q <= a,
        a < 0 ==> a <= q < 0,
{
    if a >= 0 {
        let d: u64 = (a as u64) / (b as u64);
        proof {
            lemma_div_pos_is_pos(a as int, b as int);
            assert((a as int) / (b as int) <= a) by (nonlinear_arith)
                requires
                    0 < b,
                    0 <= a,
            ;
        }
        d as i64
    } else {
        let m: u64 = (-a) as u64;
        let bu: u64 = b as u64;
        let d: u64 = m / bu;
        let r: u64 = m % bu;
        let q: i64 = if r == 0 {
            -(d as i64)
        } else {
            -(d as i64) - 1
        };
        proof {
            lemma_fundamental_div_mod(m as int, bu as int);
            lemma_mod_bound(m as int, bu as int);
            if r == 0 {
                assert(a as int == (-(d as int)) * (b as int) + 0) by (nonlinear_arith)
                    requires
                        m == (bu as int) * (d as int) + r,
                        r == 0,
                        a == -(m as int),
                        bu == b,
                ;
                lemma_fundamental_div_mod_converse(a as int, b as int, -(d as int), 0);
            } else {
                assert(a as int == (-(d as int) - 1) * (b as int) + (b - r)) by (nonlinear_arith)
                    requires
                        m == (bu as int) * (d as int) + r,
                        a == -(m as int),
                        bu == b,
                ;
                lemma_fundamental_div_mod_converse(a as int, b as int, -(d as int) - 1, b - r);
            }
            lemma_fundamental_div_mod(a as int, b as int);
            lemma_mod_bound(a as int, b as int);
            assert(a <= q < 0) by (nonlinear_arith)
                requires
                    a as int == (b as int) * (q as int) + (a as int) % (b as int),
                    0 <= (a as int) % (b as int) < b,
                    a < 0,
                    0 < b,
                    q == (a as int) / (b as int),
            ;
        }
        q
    }
}

/// Clamping to a closed interval.
pub open spec fn clamp_spec(x: int, lo: int, hi: int) -> int {
    if x < lo {
        lo
    } else if x > hi {
        hi
    } else {
        x
    }
}

/// Clamp `x` into `[lo, hi]`.
pub fn clamp_i64(x: i64, lo: i64, hi: i64) -> (r: i64)
    requires
        lo <= hi,
    ensures
        r == clamp_spec(x as int, lo as int, hi as int),
{
    if x < lo {
        lo
    } else if x > hi {
        hi
    } else {
        x
    }
}

/// Clamp a wide intermediate into an `i64` interval.
pub fn clamp_i128_to_i64(x: i128, lo: i64, hi: i64) -> (r: i64)
    requires
        lo <= hi,
    ensures
        r == clamp_spec(x as int, lo as int, hi as int),
{
    if x < lo as i128 {
        lo
    } else if x > hi as i128 {
        hi
    } else {
        x as i64
    }
}

/// Squared Euclidean distance between two points.
pub open spec fn dist_sq(p: IVec2, q: IVec2) -> int {
    (p.x - q.x) * (p.x - q.x) + (p.y - q.y) * (p.y - q.y)
}

/// Euclidean distance, rounded down to an integer.
pub open spec fn dist(p: IVec2, q: IVec2) -> int {
    sqrt_floor(dist_sq(p, q) as nat) as int
}

/// A squared distance is never negative, so `dist_sq as nat` is exact.
pub proof fn lemma_dist_sq_nonneg(p: IVec2, q: IVec2)
    ensures
        dist_sq(p, q) >= 0,
{
    assert((p.x - q.x) * (p.x - q.x) >= 0) by (nonlinear_arith);
    assert((p.y - q.y) * (p.y - q.y) >= 0) by (nonlinear_arith);
}

/// Distance is symmetric.
pub proof fn lemma_dist_symmetric(p: IVec2, q: IVec2)
    ensures
        dist_sq(p, q) == dist_sq(q, p),
        dist(p, q) == dist(q, p),
{
    assert(dist_sq(p, q) == dist_sq(q, p)) by (nonlinear_arith);
}

/// Exact squared distance between two points whose coordinates are within
/// the predicted-position range.
pub fn dist_sq_i128(p: IVec2, q: IVec2) -> (s: i128)
    requires
        -PRED_LIMIT <= p.x <= PRED_LIMIT,
        -PRED_LIMIT <= p.y <= PRED_LIMIT,
        -PRED_LIMIT <= q.x <= PRED_LIMIT,
        -PRED_LIMIT <= q.y <= PRED_LIMIT,
    ensures
        s == dist_sq(p, q),
        0 <= s,
{
    let dx: i64 = p.x - q.x;
    let dy: i64 = p.y - q.y;
    proof {
        assert(0 <= (dx as int) * (dx as int) <= 4620697615728640000 && 0 <= (dy as int) * (
        dy as int) <= 4620697615728640000) by (nonlinear_arith)
            requires
                -2149580800 <= dx <= 2149580800,
                -2149580800 <= dy <= 2149580800,
        ;
    }
    (dx as i128) * (dx as i128) + (dy as i128) * (dy as i128)
}

/// Points within `r` of each other on the plane land in the same grid cell
/// of width `r` or in an adjacent one, per axis.
pub proof fn lemma_cell_adjacent(px: int, qx: int, r: int)
    requires
        0 < r,
        -r <= qx - px <= r,
    ensures
        px / r - 1 <= qx / r <= px / r + 1,
{
    lemma_div_is_ordered(px - r, qx, r);
    lemma_div_is_ordered(qx, px + r, r);
    vstd::arithmetic::div_mod::lemma_div_plus_one(px, r);
    vstd::arithmetic::div_mod::lemma_div_minus_one(px, r);
    assert(px + r == r + px);
    assert(px - r == -r + px);
}

/// No axis separation exceeds the rounded distance: the distance dominates
/// each coordinate difference.
pub proof fn lemma_axis_leq_dist(p: IVec2, q: IVec2)
    ensures
        -dist(p, q) <= p.x - q.x <= dist(p, q),
        -dist(p, q) <= p.y - q.y <= dist(p, q),
{
    lemma_dist_sq_nonneg(p, q);
    let s: nat = dist_sq(p, q) as nat;
    lemma_sqrt_floor_bounds(s);
    let d: nat = sqrt_floor(s);
    assert(-(d as int) <= p.x - q.x <= d && -(d as int) <= p.y - q.y <= d) by (nonlinear_arith)
        requires
            (p.x - q.x) * (p.x - q.x) + (p.y - q.y) * (p.y - q.y) == s,
            s < (d + 1) * (d + 1),
    ;
}

/// Distinct points are at least one unit apart.
pub proof fn lemma_dist_positive(p: IVec2, q: IVec2)
    requires
        p != q,
    ensures
        dist_sq(p, q) >= 1,
        dist(p, q) >= 1,
{
    lemma_dist_sq_nonneg(p, q);
    assert(dist_sq(p, q) >= 1) by (nonlinear_arith)
        requires
            p.x != q.x || p.y != q.y,
            dist_sq(p, q) == (p.x - q.x) * (p.x - q.x) + (p.y - q.y) * (p.y - q.y),
            dist_sq(p, q) >= 0,
    ;
    let s: nat = dist_sq(p, q) as nat;
    lemma_sqrt_floor_bounds(s);
    assert(sqrt_floor(s) >= 1) by (nonlinear_arith)
        requires
            s < (sqrt_floor(s) + 1) * (sqrt_floor(s) + 1),
            s >= 1,
    ;
}

/// Exact distance between two points whose coordinates are within the
/// predicted-position range.
pub fn distance(p: IVec2, q: IVec2) -> (d: i64)
    requires
        -PRED_LIMIT <= p.x <= PRED_LIMIT,
        -PRED_LIMIT <= p.y <= PRED_LIMIT,
        -PRED_LIMIT <= q.x <= PRED_LIMIT,
        -PRED_LIMIT <= q.y <= PRED_LIMIT,
    ensures
        d == dist(p, q),
        0 <= d <= 4294967295,
{
    let dx: i64 = p.x - q.x;
    let dy: i64 = p.y - q.y;
    proof {
        assert(0 <= (dx as int) * (dx as int) <= 4620697615728640000 && 0 <= (dy as int) * (
        dy as int) <= 4620697615728640000) by (nonlinear_arith)
            requires
                -2149580800 <= dx <= 2149580800,
                -2149580800 <= dy <= 2149580800,
        ;
    }
    let sx: i128 = (dx as i128) * (dx as i128);
    let sy: i128 = (dy as i128) * (dy as i128);
    let s: u64 = (sx + sy) as u64;
    let r: u64 = isqrt(s);
    r as i64
}

} // verus!
