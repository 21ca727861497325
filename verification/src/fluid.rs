//! The solver passes of one simulation tick: density and pressure from
//! neighbours, pressure and viscosity forces, and time integration with
//! boundary collisions.
//!
//! Each pass is a pure map over the particle buffer: particle `i` of the
//! output is a function of the whole input buffer and of `i`, matching the
//! data-parallel execution model in which no worker writes a value another
//! worker reads within the same pass.

use vstd::prelude::*;
use crate::math::{
    IVec2, dist, trunc_div, clamp_spec, distance, div_trunc_i128, div_trunc_i64, clamp_i64,
    clamp_i128_to_i64,
    lemma_axis_leq_dist, lemma_dist_positive, lemma_dist_symmetric, lemma_trunc_div_bound,
    lemma_trunc_div_scale_bound, lemma_trunc_div_scale_strict, lemma_trunc_div_antisymmetric,
    lemma_sqrt_floor_bounds, sqrt_floor, dist_sq, RADIUS_LIMIT, N_LIMIT, VEL_LIMIT, ACC_LIMIT, PRED_LIMIT,
    COORD_LIMIT, DENSITY_LIMIT, NEAR_DENSITY_LIMIT, PRESSURE_LIMIT, NEAR_PRESSURE_LIMIT,
    FORCE_LIMIT, DAMPING_SCALE,
};
use crate::smoothing::{
    DENSITY_PADDING, smoothing_kernel_spec, smoothing_kernel_near_spec,
    smoothing_kernel_derivative_spec, smoothing_kernel_derivative_near_spec,
    smoothing_kernel_viscosity_spec, smoothing_kernel, smoothing_kernel_near,
    smoothing_kernel_derivative, smoothing_kernel_derivative_near, smoothing_kernel_viscosity,
    lemma_kernel_ranges,
};
use crate::particle::FluidParticle;
use crate::params::FluidStaticProps;
use crate::fluid_container::{FluidContainer, FluidContainerExt};
use crate::gravity::Gravity;
use crate::cursor::WorldCursor;

verus! {

/// Sum of the density kernel over every particle of `ps`, evaluated at the
/// distances from `p` to their predicted positions. A particle's own
/// contribution is included: at distance zero the kernel is positive, so an
/// isolated particle never computes density zero.
pub open spec fn poly6_sum(ps: Seq<FluidParticle>, p: IVec2, r: int) -> int
    decreases ps.len(),
{
    if ps.len() == 0 {
        0
    } else {
        poly6_sum(ps.drop_last(), p, r) + smoothing_kernel_spec(
            r,
            dist(p, ps.last().predicted_position),
        )
    }
}

/// Sum of the near-density kernel over every particle of `ps`.
pub open spec fn near_sum(ps: Seq<FluidParticle>, p: IVec2, r: int) -> int
    decreases ps.len(),
{
    if ps.len() == 0 {
        0
    } else {
        near_sum(ps.drop_last(), p, r) + smoothing_kernel_near_spec(
            r,
            dist(p, ps.last().predicted_position),
        )
    }
}

/// The kernel sums are non-negative and bounded by the particle count times
/// the largest kernel value.
pub proof fn lemma_density_sums_bounds(ps: Seq<FluidParticle>, p: IVec2, r: int)
    requires
        0 < r <= RADIUS_LIMIT,
    ensures
        0 <= poly6_sum(ps, p, r) <= ps.len() * 1048576,
        0 <= near_sum(ps, p, r) <= ps.len() * 1073741824,
    decreases ps.len(),
{
    if ps.len() == 0 {
    } else {
        lemma_density_sums_bounds(ps.drop_last(), p, r);
        let d: int = dist(p, ps.last().predicted_position);
        lemma_sqrt_floor_bounds(dist_sq(p, ps.last().predicted_position) as nat);
        lemma_kernel_ranges(r, d);
        assert((ps.len() - 1) * 1048576 + 1048576 == ps.len() * 1048576) by (nonlinear_arith);
        assert((ps.len() - 1) * 1073741824 + 1073741824 == ps.len() * 1073741824)
            by (nonlinear_arith);
    }
}

/// Particle `i` after the density pass: densities accumulated over the whole
/// buffer plus the padding floor, pressures derived by the linear equation
/// of state.
pub open spec fn density_updated(ps: Seq<FluidParticle>, props: FluidStaticProps, i: int) -> FluidParticle {
    let d: int = DENSITY_PADDING + props.mass * poly6_sum(
        ps,
        ps[i].predicted_position,
        props.smoothing_radius as int,
    );
    let nd: int = DENSITY_PADDING + props.mass * near_sum(
        ps,
        ps[i].predicted_position,
        props.smoothing_radius as int,
    );
    FluidParticle {
        density: d as i64,
        near_density: nd as i64,
        pressure: (props.pressure_scalar * (d - props.target_density)) as i64,
        near_pressure: (props.near_pressure_scalar * nd) as i64,
        ..ps[i]
    }
}

/// The whole buffer after the density pass.
pub open spec fn density_pass(ps: Seq<FluidParticle>, props: FluidStaticProps) -> Seq<FluidParticle> {
    Seq::new(ps.len(), |i: int| density_updated(ps, props, i))
}

/// Density pass: for every particle, accumulate density and near-density
/// from all particles within the smoothing radius of its predicted position
/// (the kernels vanish beyond it), then derive pressure and near-pressure.
///
/// The density floor holds unconditionally: every output density and
/// near-density is at least `DENSITY_PADDING`.
pub fn update_density_and_pressure(particles: &Vec<FluidParticle>, props: &FluidStaticProps) -> (out: Vec<FluidParticle>)
    requires
        props.wf(),
        particles@.len() <= N_LIMIT,
        forall|i: int| 0 <= i < particles@.len() ==> #[trigger] particles@[i].wf(),
    ensures
        out@ == density_pass(particles@, *props),
        out@.len() == particles@.len(),
        forall|i: int| 0 <= i < out@.len() ==> #[trigger] out@[i].wf(),
        forall|i: int|
            0 <= i < out@.len() ==> #[trigger] out@[i].density >= DENSITY_PADDING && out@[i].near_density
                >= DENSITY_PADDING,
{
    let ghost ps: Seq<FluidParticle> = particles@;
    let n: usize = particles.len();
    let r: i64 = props.smoothing_radius;
    proof {
        assert(0 < r * r <= 1048576 && 0 < r * r * r <= 1073741824) by (nonlinear_arith)
            requires
                0 < r <= RADIUS_LIMIT,
                RADIUS_LIMIT == 1024,
        ;
    }
    let mut out: Vec<FluidParticle> = Vec::new();
    let mut i: usize = 0;
    while i < n
        invariant
            i <= n,
            n == ps.len(),
            n <= N_LIMIT,
            ps == particles@,
            props.wf(),
            r == props.smoothing_radius,
            0 < r * r <= 1048576,
            0 < r * r * r <= 1073741824,
            forall|k: int| 0 <= k < n ==> #[trigger] ps[k].wf(),
            out@.len() == i,
            forall|k: int|
                0 <= k < i ==> #[trigger] out@[k] == density_updated(ps, *props, k),
            forall|k: int| 0 <= k < i ==> #[trigger] out@[k].wf(),
        decreases n - i,
    {
        let pi: FluidParticle = particles[i];
        proof {
            assert(ps[i as int].wf());
        }
        let mut acc_d: i64 = 0;
        let mut acc_n: i64 = 0;
        let mut j: usize = 0;
        while j < n
            invariant
                j <= n,
                n == ps.len(),
                n <= N_LIMIT,
                ps == particles@,
                props.wf(),
                r == props.smoothing_radius,
                0 < r * r <= 1048576,
                0 < r * r * r <= 1073741824,
                forall|k: int| 0 <= k < n ==> #[trigger] ps[k].wf(),
                pi == ps[i as int],
                i < n,
                acc_d == poly6_sum(ps.take(j as int), pi.predicted_position, r as int),
                acc_n == near_sum(ps.take(j as int), pi.predicted_position, r as int),
                0 <= acc_d <= j * 1048576,
                0 <= acc_n <= j * 1073741824,
            decreases n - j,
        {
            let pj: FluidParticle = particles[j];
            proof {
                assert(ps[i as int].wf());
                assert(ps[j as int].wf());
            }
            let d: i64 = distance(pi.predicted_position, pj.predicted_position);
            let wd: i64 = smoothing_kernel(r, d);
            let wn: i64 = smoothing_kernel_near(r, d);
            proof {
                assert(ps.take(j + 1).drop_last() =~= ps.take(j as int));
                assert(ps.take(j + 1).last() == ps[j as int]);
                assert((j + 1) * 1048576 == j * 1048576 + 1048576) by (nonlinear_arith);
                assert((j + 1) * 1073741824 == j * 1073741824 + 1073741824) by (nonlinear_arith);
            }
            acc_d = acc_d + wd;
            acc_n = acc_n + wn;
            j = j + 1;
        }
        proof {
            assert(ps.take(n as int) =~= ps);
            assert(0 <= props.mass * acc_d <= 1099511627776 && 0 <= props.mass * acc_n
                <= 1125899906842624) by (nonlinear_arith)
                requires
                    0 < props.mass <= 256,
                    0 <= acc_d <= 4294967296,
                    0 <= acc_n <= 4398046511104,
            ;
        }
        let density: i64 = DENSITY_PADDING + props.mass * acc_d;
        let near_density: i64 = DENSITY_PADDING + props.mass * acc_n;
        let diff: i64 = density - props.target_density;
        proof {
            assert(-PRESSURE_LIMIT <= props.pressure_scalar * diff <= PRESSURE_LIMIT && 0
                <= props.near_pressure_scalar * near_density <= NEAR_PRESSURE_LIMIT)
                by (nonlinear_arith)
                requires
                    -256 <= props.pressure_scalar <= 256,
                    0 <= props.near_pressure_scalar <= 256,
                    -2199023255553 <= diff <= 2199023255553,
                    0 < near_density <= NEAR_DENSITY_LIMIT,
                    NEAR_DENSITY_LIMIT == 1125899906842625,
                    PRESSURE_LIMIT == 1125899906842624,
                    NEAR_PRESSURE_LIMIT == 576460752303423488,
            ;
        }
        let pressure: i64 = props.pressure_scalar * diff;
        let near_pressure: i64 = props.near_pressure_scalar * near_density;
        out.push(
            FluidParticle {
                density,
                near_density,
                pressure,
                near_pressure,
                ..pi
            },
        );
        i = i + 1;
    }
    proof {
        assert(out@ =~= density_pass(ps, *props));
        assert forall|k: int|
            0 <= k < out@.len() implies #[trigger] out@[k].density >= DENSITY_PADDING
            && out@[k].near_density >= DENSITY_PADDING by {
            assert(out@[k].wf());
        }
    }
    out
}

/// Bound on one pairwise pressure-force contribution per axis. (2^101)
pub const PRESSURE_TERM_LIMIT: i128 = 2535301200456458802993406410752;

/// Bound on one pairwise viscosity contribution per axis. (2^41)
pub const VISCOSITY_TERM_LIMIT: i128 = 2199023255552;

/// The pressure-force contribution of neighbour `pj` to particle `pi`, per
/// axis. The force acts along the direction from `pi` to `pj`, scaled by the
/// averaged (shared) pressures of the pair, the kernel slopes, and the mass,
/// and divided by the neighbour's density — the standard symmetrization that
/// makes pairwise forces equal and opposite when densities agree. Coincident
/// particles fall back to the `+y` unit direction.
pub open spec fn pressure_pair_term(pi: FluidParticle, pj: FluidParticle, props: FluidStaticProps) -> (int, int) {
    let d: int = dist(pi.predicted_position, pj.predicted_position);
    if d > props.smoothing_radius {
        (0, 0)
    } else {
        let slope: int = smoothing_kernel_derivative_spec(props.smoothing_radius as int, d);
        let slope_near: int = smoothing_kernel_derivative_near_spec(
            props.smoothing_radius as int,
            d,
        );
        let shared: int = trunc_div(pi.pressure + pj.pressure, 2);
        let shared_near: int = trunc_div(pi.near_pressure + pj.near_pressure, 2);
        if d > 0 {
            let dxv: int = pj.predicted_position.x - pi.predicted_position.x;
            let dyv: int = pj.predicted_position.y - pi.predicted_position.y;
            (
                trunc_div(dxv * props.mass * shared * slope, d * pj.density) + trunc_div(
                    dxv * props.mass * shared_near * slope_near,
                    d * pj.near_density,
                ),
                trunc_div(dyv * props.mass * shared * slope, d * pj.density) + trunc_div(
                    dyv * props.mass * shared_near * slope_near,
                    d * pj.near_density,
                ),
            )
        } else {
            (
                0,
                trunc_div(props.mass * shared * slope, pj.density as int) + trunc_div(
                    props.mass * shared_near * slope_near,
                    pj.near_density as int,
                ),
            )
        }
    }
}

/// The viscosity contribution of neighbour `pj` to particle `pi`: the
/// velocity difference weighted by the viscosity kernel.
pub open spec fn viscosity_pair_term(pi: FluidParticle, pj: FluidParticle, props: FluidStaticProps) -> (int, int) {
    let d: int = dist(pi.predicted_position, pj.predicted_position);
    if d > props.smoothing_radius {
        (0, 0)
    } else {
        let w: int = smoothing_kernel_viscosity_spec(props.smoothing_radius as int, d);
        ((pj.velocity.x - pi.velocity.x) * w, (pj.velocity.y - pi.velocity.y) * w)
    }
}

/// Pressure force on particle `i` accumulated over neighbours `j < k`,
/// excluding the particle itself.
pub open spec fn pressure_force_upto(
    ps: Seq<FluidParticle>,
    props: FluidStaticProps,
    i: int,
    k: int,
) -> (int, int)
    decreases k,
{
    if k <= 0 {
        (0, 0)
    } else {
        let rest: (int, int) = pressure_force_upto(ps, props, i, k - 1);
        if k - 1 == i {
            rest
        } else {
            let t: (int, int) = pressure_pair_term(ps[i], ps[k - 1], props);
            (rest.0 + t.0, rest.1 + t.1)
        }
    }
}

/// Pressure force on particle `i` over the whole buffer.
pub open spec fn pressure_force(ps: Seq<FluidParticle>, props: FluidStaticProps, i: int) -> (int, int) {
    pressure_force_upto(ps, props, i, ps.len() as int)
}

/// Viscosity force on particle `i` accumulated over neighbours `j < k`,
/// excluding the particle itself.
pub open spec fn viscosity_force_upto(
    ps: Seq<FluidParticle>,
    props: FluidStaticProps,
    i: int,
    k: int,
) -> (int, int)
    decreases k,
{
    if k <= 0 {
        (0, 0)
    } else {
        let rest: (int, int) = viscosity_force_upto(ps, props, i, k - 1);
        if k - 1 == i {
            rest
        } else {
            let t: (int, int) = viscosity_pair_term(ps[i], ps[k - 1], props);
            (rest.0 + t.0, rest.1 + t.1)
        }
    }
}

/// Viscosity force on particle `i` over the whole buffer.
pub open spec fn viscosity_force(ps: Seq<FluidParticle>, props: FluidStaticProps, i: int) -> (int, int) {
    viscosity_force_upto(ps, props, i, ps.len() as int)
}

/// Acceleration of particle `i`: pressure force divided by the particle's
/// own density, plus the viscosity force scaled by the viscosity strength,
/// saturated at the model's acceleration range.
pub open spec fn accel_of(ps: Seq<FluidParticle>, props: FluidStaticProps, i: int) -> (int, int) {
    let pf: (int, int) = pressure_force(ps, props, i);
    let vf: (int, int) = viscosity_force(ps, props, i);
    (
        clamp_spec(
            trunc_div(pf.0, ps[i].density as int) + vf.0 * props.viscosity_strength,
            -ACC_LIMIT as int,
            ACC_LIMIT as int,
        ),
        clamp_spec(
            trunc_div(pf.1, ps[i].density as int) + vf.1 * props.viscosity_strength,
            -ACC_LIMIT as int,
            ACC_LIMIT as int,
        ),
    )
}

/// Particle `i` after the force pass: only its acceleration changes.
pub open spec fn force_updated(ps: Seq<FluidParticle>, props: FluidStaticProps, i: int) -> FluidParticle {
    let a: (int, int) = accel_of(ps, props, i);
    FluidParticle { acceleration: IVec2 { x: a.0 as i64, y: a.1 as i64 }, ..ps[i] }
}

/// The whole buffer after the force pass.
pub open spec fn force_pass(ps: Seq<FluidParticle>, props: FluidStaticProps) -> Seq<FluidParticle> {
    Seq::new(ps.len(), |i: int| force_updated(ps, props, i))
}

/// Both pair terms vanish for particles separated by more than the
/// smoothing radius, including the boundary case where the rounded distance
/// equals the radius: every kernel factor is zero there.
pub proof fn lemma_pair_terms_vanish_beyond_cutoff(
    pi: FluidParticle,
    pj: FluidParticle,
    props: FluidStaticProps,
)
    requires
        0 < props.smoothing_radius,
        pj.density >= 1,
        pj.near_density >= 1,
        dist_sq(pi.predicted_position, pj.predicted_position) > props.smoothing_radius
            * props.smoothing_radius,
    ensures
        pressure_pair_term(pi, pj, props) == (0int, 0int),
        viscosity_pair_term(pi, pj, props) == (0int, 0int),
{
    let r: int = props.smoothing_radius as int;
    let s: nat = dist_sq(pi.predicted_position, pj.predicted_position) as nat;
    lemma_sqrt_floor_bounds(s);
    let d: int = dist(pi.predicted_position, pj.predicted_position);
    assert(d >= r) by (nonlinear_arith)
        requires
            s > r * r,
            0 < r,
            d == sqrt_floor(s),
            s < (sqrt_floor(s) + 1) * (sqrt_floor(s) + 1),
    ;
    if d == r {
        let slope: int = smoothing_kernel_derivative_spec(r, d);
        let slope_near: int = smoothing_kernel_derivative_near_spec(r, d);
        let w: int = smoothing_kernel_viscosity_spec(r, d);
        assert(slope == 0);
        assert(slope_near == 0 && w == 0) by (nonlinear_arith)
            requires
                d == r,
                0 < r,
                slope_near == -3 * ((r - d) * (r - d)),
                w == ((r * r - d * d) * (r * r - d * d) * (r * r - d * d)) / (r * r * r * r),
        ;
        let shared: int = trunc_div(pi.pressure + pj.pressure, 2);
        let shared_near: int = trunc_div(pi.near_pressure + pj.near_pressure, 2);
        let dxv: int = pj.predicted_position.x - pi.predicted_position.x;
        let dyv: int = pj.predicted_position.y - pi.predicted_position.y;
        assert(dxv * props.mass * shared * slope == 0 && dyv * props.mass * shared * slope == 0
            && dxv * props.mass * shared_near * slope_near == 0 && dyv * props.mass * shared_near
            * slope_near == 0 && (pj.velocity.x - pi.velocity.x) * w == 0 && (pj.velocity.y
            - pi.velocity.y) * w == 0) by (nonlinear_arith)
            requires
                slope == 0,
                slope_near == 0,
                w == 0,
        ;
        assert(d * pj.density >= 1 && d * pj.near_density >= 1) by (nonlinear_arith)
            requires
                d >= 1,
                pj.density >= 1,
                pj.near_density >= 1,
        ;
        assert(trunc_div(0, d * pj.density) == 0 && trunc_div(0, d * pj.near_density) == 0) by {
            vstd::arithmetic::div_mod::lemma_div_by_multiple(0, d * pj.density);
            vstd::arithmetic::div_mod::lemma_div_by_multiple(0, d * pj.near_density);
            assert(0 * (d * pj.density) == 0 && 0 * (d * pj.near_density) == 0)
                by (nonlinear_arith);
        }
    }
}

/// Both pairwise force contributions of neighbour `pj` to particle `pi`,
/// given their distance `d` within the smoothing radius: the pressure term
/// per axis and the viscosity term per axis.
pub(crate) fn pair_forces(pi: &FluidParticle, pj: &FluidParticle, props: &FluidStaticProps, d: i64) -> (t: (
    i128,
    i128,
    i128,
    i128,
))
    requires
        pi.wf(),
        pj.wf(),
        props.wf(),
        d == dist(pi.predicted_position, pj.predicted_position),
        0 <= d <= props.smoothing_radius,
    ensures
        (t.0 as int, t.1 as int) == pressure_pair_term(*pi, *pj, *props),
        (t.2 as int, t.3 as int) == viscosity_pair_term(*pi, *pj, *props),
        -PRESSURE_TERM_LIMIT <= t.0 <= PRESSURE_TERM_LIMIT,
        -PRESSURE_TERM_LIMIT <= t.1 <= PRESSURE_TERM_LIMIT,
        -VISCOSITY_TERM_LIMIT <= t.2 <= VISCOSITY_TERM_LIMIT,
        -VISCOSITY_TERM_LIMIT <= t.3 <= VISCOSITY_TERM_LIMIT,
{
    let r: i64 = props.smoothing_radius;
    let slope: i64 = smoothing_kernel_derivative(r, d);
    let slope_near: i64 = smoothing_kernel_derivative_near(r, d);
    let w: i64 = smoothing_kernel_viscosity(r, d);
    let shared: i128 = div_trunc_i128((pi.pressure as i128) + (pj.pressure as i128), 2);
    let shared_near: i128 = div_trunc_i128(
        (pi.near_pressure as i128) + (pj.near_pressure as i128),
        2,
    );
    proof {
        lemma_trunc_div_bound(pi.pressure + pj.pressure, 2, 2 * PRESSURE_LIMIT as int);
        lemma_trunc_div_bound(
            pi.near_pressure + pj.near_pressure,
            2,
            2 * NEAR_PRESSURE_LIMIT as int,
        );
        assert(0 < r * r <= 1048576) by (nonlinear_arith)
            requires
                0 < r <= 1024,
        ;
    }
    let dvx: i128 = ((pj.velocity.x as i128) - (pi.velocity.x as i128));
    let dvy: i128 = ((pj.velocity.y as i128) - (pi.velocity.y as i128));
    proof {
        assert(-VISCOSITY_TERM_LIMIT <= dvx * w <= VISCOSITY_TERM_LIMIT && -VISCOSITY_TERM_LIMIT
            <= dvy * w <= VISCOSITY_TERM_LIMIT) by (nonlinear_arith)
            requires
                -2097152 <= dvx <= 2097152,
                -2097152 <= dvy <= 2097152,
                0 <= w <= 1048576,
                VISCOSITY_TERM_LIMIT == 2199023255552,
        ;
    }
    let tvx: i128 = dvx * (w as i128);
    let tvy: i128 = dvy * (w as i128);
    if d > 0 {
        proof {
            lemma_dist_symmetric(pj.predicted_position, pi.predicted_position);
            lemma_axis_leq_dist(pj.predicted_position, pi.predicted_position);
        }
        let dxv: i64 = pj.predicted_position.x - pi.predicted_position.x;
        let dyv: i64 = pj.predicted_position.y - pi.predicted_position.y;
        proof {
            assert(-262144 <= (dxv as int) * (props.mass as int) <= 262144 && -262144 <= (
            dyv as int) * (props.mass as int) <= 262144) by (nonlinear_arith)
                requires
                    -1024 <= dxv <= 1024,
                    -1024 <= dyv <= 1024,
                    0 < props.mass <= 256,
            ;
        }
        let am_x: i128 = (dxv as i128) * (props.mass as i128);
        let am_y: i128 = (dyv as i128) * (props.mass as i128);
        proof {
            assert(-604462909807314587353088 <= am_x * shared <= 604462909807314587353088
                && -604462909807314587353088 <= am_y * shared <= 604462909807314587353088)
                by (nonlinear_arith)
                requires
                    -262144 <= am_x <= 262144,
                    -262144 <= am_y <= 262144,
                    -2305843009213693952 <= shared <= 2305843009213693952,
            ;
            assert(-302231454903657293676544 <= am_x * shared_near
                <= 302231454903657293676544 && -302231454903657293676544 <= am_y * shared_near
                <= 302231454903657293676544) by (nonlinear_arith)
                requires
                    -262144 <= am_x <= 262144,
                    -262144 <= am_y <= 262144,
                    -1152921504606846976 <= shared_near <= 1152921504606846976,
            ;
        }
        let ns_x: i128 = am_x * shared;
        let ns_y: i128 = am_y * shared;
        let nn_x: i128 = am_x * shared_near;
        let nn_y: i128 = am_y * shared_near;
        proof {
            assert(-1238926361552897971011702128640 <= ns_x * slope
                <= 1238926361552897971011702128640 && -1238926361552897971011702128640 <= ns_y
                * slope <= 1238926361552897971011702128640) by (nonlinear_arith)
                requires
                    -604462909807314587353088 <= ns_x <= 604462909807314587353088,
                    -604462909807314587353088 <= ns_y <= 604462909807314587353088,
                    -2048 <= slope <= 0,
            ;
            assert(-950737950171172051122527404032 <= nn_x * slope_near
                <= 950737950171172051122527404032 && -950737950171172051122527404032 <= nn_y
                * slope_near <= 950737950171172051122527404032) by (nonlinear_arith)
                requires
                    -302231454903657293676544 <= nn_x <= 302231454903657293676544,
                    -302231454903657293676544 <= nn_y <= 302231454903657293676544,
                    -3145728 <= slope_near <= 0,
            ;
            assert(0 < (d as int) * (pj.density as int) <= 2251799813685248 && 0 < (d as int) * (
            pj.near_density as int) <= 2305843009213693952) by (nonlinear_arith)
                requires
                    0 < d <= 1024,
                    0 < pj.density <= DENSITY_LIMIT,
                    0 < pj.near_density <= NEAR_DENSITY_LIMIT,
                    DENSITY_LIMIT == 1099511627777,
                    NEAR_DENSITY_LIMIT == 1125899906842625,
            ;
        }
        let num_x: i128 = ns_x * (slope as i128);
        let num_y: i128 = ns_y * (slope as i128);
        let numn_x: i128 = nn_x * (slope_near as i128);
        let numn_y: i128 = nn_y * (slope_near as i128);
        let den: i128 = (d as i128) * (pj.density as i128);
        let den_near: i128 = (d as i128) * (pj.near_density as i128);
        let tx: i128 = div_trunc_i128(num_x, den) + div_trunc_i128(numn_x, den_near);
        let ty: i128 = div_trunc_i128(num_y, den) + div_trunc_i128(numn_y, den_near);
        (tx, ty, tvx, tvy)
    } else {
        proof {
            assert(-590295810358705651712 <= (props.mass as int) * (shared as int)
                <= 590295810358705651712 && -295147905179352825856 <= (props.mass as int) * (
            shared_near as int) <= 295147905179352825856) by (nonlinear_arith)
                requires
                    0 < props.mass <= 256,
                    -2305843009213693952 <= shared <= 2305843009213693952,
                    -1152921504606846976 <= shared_near <= 1152921504606846976,
            ;
        }
        let m_s: i128 = (props.mass as i128) * shared;
        let m_n: i128 = (props.mass as i128) * shared_near;
        proof {
            assert(-1209462790160462078419343441920 <= m_s * slope
                <= 1209462790160462078419343441920 && -928455029464035206544740319232 <= m_n
                * slope_near <= 928455029464035206544740319232) by (nonlinear_arith)
                requires
                    -590295810358705651712 <= m_s <= 590295810358705651712,
                    -295147905179352825856 <= m_n <= 295147905179352825856,
                    -2048 <= slope <= 0,
                    -3145728 <= slope_near <= 0,
            ;
        }
        let num_y: i128 = m_s * (slope as i128);
        let numn_y: i128 = m_n * (slope_near as i128);
        let ty: i128 = div_trunc_i128(num_y, pj.density as i128) + div_trunc_i128(
            numn_y,
            pj.near_density as i128,
        );
        (0, ty, tvx, tvy)
    }
}

/// Force pass: for every particle, accumulate the pressure and viscosity
/// forces from every other particle within the smoothing radius of its
/// predicted position, and derive its acceleration. Only accelerations
/// change.
pub fn update_pressure_force(particles: &Vec<FluidParticle>, props: &FluidStaticProps) -> (out: Vec<FluidParticle>)
    requires
        props.wf(),
        particles@.len() <= N_LIMIT,
        forall|i: int| 0 <= i < particles@.len() ==> #[trigger] particles@[i].wf(),
    ensures
        out@ == force_pass(particles@, *props),
        out@.len() == particles@.len(),
        forall|i: int| 0 <= i < out@.len() ==> #[trigger] out@[i].wf(),
    {
    let ghost ps: Seq<FluidParticle> = particles@;
    let n: usize = particles.len();
    let mut out: Vec<FluidParticle> = Vec::new();
    let mut i: usize = 0;
    while i < n
        invariant
            i <= n,
            n == ps.len(),
            n <= N_LIMIT,
            ps == particles@,
            props.wf(),
            forall|k: int| 0 <= k < n ==> #[trigger] ps[k].wf(),
            out@.len() == i,
            forall|k: int| 0 <= k < i ==> #[trigger] out@[k] == force_updated(ps, *props, k),
            forall|k: int| 0 <= k < i ==> #[trigger] out@[k].wf(),
        decreases n - i,
    {
        let pi: FluidParticle = particles[i];
        proof {
            assert(ps[i as int].wf());
        }
        let mut pf_x: i128 = 0;
        let mut pf_y: i128 = 0;
        let mut vf_x: i128 = 0;
        let mut vf_y: i128 = 0;
        let mut j: usize = 0;
        while j < n
            invariant
                j <= n,
                n == ps.len(),
                n <= N_LIMIT,
                ps == particles@,
                props.wf(),
                forall|k: int| 0 <= k < n ==> #[trigger] ps[k].wf(),
                pi == ps[i as int],
                i < n,
                (pf_x as int, pf_y as int) == pressure_force_upto(ps, *props, i as int, j as int),
                (vf_x as int, vf_y as int) == viscosity_force_upto(ps, *props, i as int, j as int),
                -(j * PRESSURE_TERM_LIMIT) <= pf_x <= j * PRESSURE_TERM_LIMIT,
                -(j * PRESSURE_TERM_LIMIT) <= pf_y <= j * PRESSURE_TERM_LIMIT,
                -(j * VISCOSITY_TERM_LIMIT) <= vf_x <= j * VISCOSITY_TERM_LIMIT,
                -(j * VISCOSITY_TERM_LIMIT) <= vf_y <= j * VISCOSITY_TERM_LIMIT,
            decreases n - j,
        {
            proof {
                assert(ps[i as int].wf());
                assert(ps[j as int].wf());
                assert((j + 1) * PRESSURE_TERM_LIMIT == j * PRESSURE_TERM_LIMIT
                    + PRESSURE_TERM_LIMIT) by (nonlinear_arith);
                assert((j + 1) * VISCOSITY_TERM_LIMIT == j * VISCOSITY_TERM_LIMIT
                    + VISCOSITY_TERM_LIMIT) by (nonlinear_arith);
            }
            if j != i {
                let pj: FluidParticle = particles[j];
                let d: i64 = distance(pi.predicted_position, pj.predicted_position);
                if d <= props.smoothing_radius {
                    let t: (i128, i128, i128, i128) = pair_forces(&pi, &pj, props, d);
                    pf_x = pf_x + t.0;
                    pf_y = pf_y + t.1;
                    vf_x = vf_x + t.2;
                    vf_y = vf_y + t.3;
                } else {
                    proof {
                        assert(pressure_pair_term(ps[i as int], ps[j as int], *props) == (
                        0int,
                        0int,
                        ));
                        assert(viscosity_pair_term(ps[i as int], ps[j as int], *props) == (
                        0int,
                        0int,
                        ));
                    }
                }
            }
            j = j + 1;
        }
        proof {
            assert(-(4096 * PRESSURE_TERM_LIMIT) <= pf_x <= 4096 * PRESSURE_TERM_LIMIT);
            assert(-(4096 * PRESSURE_TERM_LIMIT) <= pf_y <= 4096 * PRESSURE_TERM_LIMIT);
            assert(-(4096 * VISCOSITY_TERM_LIMIT) <= vf_x <= 4096 * VISCOSITY_TERM_LIMIT);
            assert(-(4096 * VISCOSITY_TERM_LIMIT) <= vf_y <= 4096 * VISCOSITY_TERM_LIMIT);
        }
        let dpx: i128 = div_trunc_i128(pf_x, pi.density as i128);
        let dpy: i128 = div_trunc_i128(pf_y, pi.density as i128);
        proof {
            assert(-2305843009213693952 <= vf_x * props.viscosity_strength
                <= 2305843009213693952 && -2305843009213693952 <= vf_y
                * props.viscosity_strength <= 2305843009213693952) by (nonlinear_arith)
                requires
                    -9007199254740992 <= vf_x <= 9007199254740992,
                    -9007199254740992 <= vf_y <= 9007199254740992,
                    0 <= props.viscosity_strength <= 256,
            ;
        }
        let ax_raw: i128 = dpx + vf_x * (props.viscosity_strength as i128);
        let ay_raw: i128 = dpy + vf_y * (props.viscosity_strength as i128);
        let ax: i64 = clamp_i128_to_i64(ax_raw, -ACC_LIMIT, ACC_LIMIT);
        let ay: i64 = clamp_i128_to_i64(ay_raw, -ACC_LIMIT, ACC_LIMIT);
        out.push(FluidParticle { acceleration: IVec2 { x: ax, y: ay }, ..pi });
        i = i + 1;
    }
    proof {
        assert(out@ =~= force_pass(ps, *props));
    }
    out
}

/// The extra acceleration the cursor applies to a particle at `p`: a flat
/// pull toward the cursor for a positive force, a push away for a negative
/// one, only within the cursor's radius. A particle exactly at the cursor
/// has no direction and receives nothing.
pub open spec fn cursor_accel(p: IVec2, cursor: WorldCursor) -> (int, int) {
    let d: int = dist(p, cursor.position);
    if d > 0 && d <= cursor.radius {
        (
            trunc_div((cursor.position.x - p.x) * cursor.force, d),
            trunc_div((cursor.position.y - p.y) * cursor.force, d),
        )
    } else {
        (0, 0)
    }
}

/// Velocity after a wall reflection: reversed and scaled by
/// `damping / DAMPING_SCALE`.
pub open spec fn damped_velocity(v: int, damping: int) -> int {
    -trunc_div(v * damping, DAMPING_SCALE as int)
}

/// One axis of boundary collision response: a position beyond a wall is
/// clamped onto it and the velocity on that axis is reflected with damping;
/// a position within the walls is untouched.
pub open spec fn collide_axis(pos: int, vel: int, lo: int, hi: int, damping: int) -> (int, int) {
    if pos < lo {
        (lo, damped_velocity(vel, damping))
    } else if pos > hi {
        (hi, damped_velocity(vel, damping))
    } else {
        (pos, vel)
    }
}

/// One particle after time integration: external forces (gravity, cursor,
/// accumulated acceleration) change the velocity, the velocity moves the
/// position, each axis is collided with the padded container walls, and the
/// predicted position looks one timestep ahead from the final state.
pub open spec fn integrate_particle(
    p: FluidParticle,
    props: FluidStaticProps,
    gravity: Gravity,
    cursor: WorldCursor,
    ext: FluidContainerExt,
) -> FluidParticle {
    let ca: (int, int) = cursor_accel(p.position, cursor);
    let vx1: int = clamp_spec(
        p.velocity.x + trunc_div(
            (gravity.value.x + ca.0 + p.acceleration.x) * props.delta_time,
            props.mass as int,
        ),
        -VEL_LIMIT as int,
        VEL_LIMIT as int,
    );
    let vy1: int = clamp_spec(
        p.velocity.y + trunc_div(
            (gravity.value.y + ca.1 + p.acceleration.y) * props.delta_time,
            props.mass as int,
        ),
        -VEL_LIMIT as int,
        VEL_LIMIT as int,
    );
    let px1: int = p.position.x + vx1 * props.delta_time;
    let py1: int = p.position.y + vy1 * props.delta_time;
    let cx: (int, int) = collide_axis(
        px1,
        vx1,
        ext.ext_min.x as int,
        ext.ext_max.x as int,
        props.collision_damping as int,
    );
    let cy: (int, int) = collide_axis(
        py1,
        vy1,
        ext.ext_min.y as int,
        ext.ext_max.y as int,
        props.collision_damping as int,
    );
    FluidParticle {
        position: IVec2 { x: cx.0 as i64, y: cy.0 as i64 },
        velocity: IVec2 { x: cx.1 as i64, y: cy.1 as i64 },
        predicted_position: IVec2 {
            x: (cx.0 + cx.1 * props.delta_time) as i64,
            y: (cy.0 + cy.1 * props.delta_time) as i64,
        },
        ..p
    }
}

/// The whole buffer after time integration.
pub open spec fn integrate_pass(
    ps: Seq<FluidParticle>,
    props: FluidStaticProps,
    gravity: Gravity,
    cursor: WorldCursor,
    ext: FluidContainerExt,
) -> Seq<FluidParticle> {
    Seq::new(ps.len(), |i: int| integrate_particle(ps[i], props, gravity, cursor, ext))
}

/// Velocity after a damped wall reflection.
fn damp_velocity(v: i64, damping: i64) -> (r: i64)
    requires
        -VEL_LIMIT <= v <= VEL_LIMIT,
        0 <= damping <= DAMPING_SCALE,
    ensures
        r == damped_velocity(v as int, damping as int),
        -VEL_LIMIT <= r <= VEL_LIMIT,
{
    proof {
        assert(-1073741824 <= (v as int) * (damping as int) <= 1073741824) by (nonlinear_arith)
            requires
                -1048576 <= v <= 1048576,
                0 <= damping <= 1024,
        ;
        lemma_trunc_div_scale_bound(v as int, damping as int, DAMPING_SCALE as int, VEL_LIMIT as int);
    }
    -div_trunc_i64(v * damping, DAMPING_SCALE)
}

/// Integrate one particle against the padded extents `ext`.
fn integrate_one(
    p: FluidParticle,
    props: &FluidStaticProps,
    gravity: &Gravity,
    cursor: &WorldCursor,
    ext: FluidContainerExt,
) -> (q: FluidParticle)
    requires
        p.wf(),
        props.wf(),
        gravity.wf(),
        cursor.wf(),
        -COORD_LIMIT <= ext.ext_min.x <= ext.ext_max.x <= COORD_LIMIT,
        -COORD_LIMIT <= ext.ext_min.y <= ext.ext_max.y <= COORD_LIMIT,
    ensures
        q == integrate_particle(p, *props, *gravity, *cursor, ext),
        q.wf(),
        ext.ext_min.x <= q.position.x <= ext.ext_max.x,
        ext.ext_min.y <= q.position.y <= ext.ext_max.y,
{
    let dcur: i64 = distance(p.position, cursor.position);
    let mut cax: i64 = 0;
    let mut cay: i64 = 0;
    if dcur > 0 && dcur <= cursor.radius {
        proof {
            lemma_dist_symmetric(cursor.position, p.position);
            lemma_axis_leq_dist(cursor.position, p.position);
            assert(-4398046511104 <= (cursor.position.x - p.position.x) * (cursor.force as int)
                <= 4398046511104 && -4398046511104 <= (cursor.position.y - p.position.y) * (
            cursor.force as int) <= 4398046511104) by (nonlinear_arith)
                requires
                    -2097152 <= cursor.position.x - p.position.x <= 2097152,
                    -2097152 <= cursor.position.y - p.position.y <= 2097152,
                    -1048576 <= cursor.force <= 1048576,
            ;
            assert((cursor.position.x - p.position.x) * (cursor.force as int) == (
            cursor.force as int) * (cursor.position.x - p.position.x) && (cursor.position.y
                - p.position.y) * (cursor.force as int) == (cursor.force as int) * (
            cursor.position.y - p.position.y)) by (nonlinear_arith);
            lemma_trunc_div_scale_bound(
                cursor.force as int,
                cursor.position.x - p.position.x,
                dcur as int,
                FORCE_LIMIT as int,
            );
            lemma_trunc_div_scale_bound(
                cursor.force as int,
                cursor.position.y - p.position.y,
                dcur as int,
                FORCE_LIMIT as int,
            );
        }
        cax = div_trunc_i64((cursor.position.x - p.position.x) * cursor.force, dcur);
        cay = div_trunc_i64((cursor.position.y - p.position.y) * cursor.force, dcur);
    }
    let sum_x: i64 = gravity.value.x + cax + p.acceleration.x;
    let sum_y: i64 = gravity.value.y + cay + p.acceleration.y;
    proof {
        assert(-2251799813685248000 <= (sum_x as int) * (props.delta_time as int)
            <= 2251799813685248000 && -2251799813685248000 <= (sum_y as int) * (
        props.delta_time as int) <= 2251799813685248000) by (nonlinear_arith)
            requires
                -2199023255552000 <= sum_x <= 2199023255552000,
                -2199023255552000 <= sum_y <= 2199023255552000,
                0 < props.delta_time <= 1024,
        ;
    }
    let dvx: i64 = div_trunc_i64(sum_x * props.delta_time, props.mass);
    let dvy: i64 = div_trunc_i64(sum_y * props.delta_time, props.mass);
    let vx1: i64 = clamp_i64(p.velocity.x + dvx, -VEL_LIMIT, VEL_LIMIT);
    let vy1: i64 = clamp_i64(p.velocity.y + dvy, -VEL_LIMIT, VEL_LIMIT);
    proof {
        assert(-1073741824 <= (vx1 as int) * (props.delta_time as int) <= 1073741824
            && -1073741824 <= (vy1 as int) * (props.delta_time as int) <= 1073741824)
            by (nonlinear_arith)
            requires
                -1048576 <= vx1 <= 1048576,
                -1048576 <= vy1 <= 1048576,
                0 < props.delta_time <= 1024,
        ;
    }
    let px1: i64 = p.position.x + vx1 * props.delta_time;
    let py1: i64 = p.position.y + vy1 * props.delta_time;
    let qpx: i64;
    let qvx: i64;
    if px1 < ext.ext_min.x {
        qpx = ext.ext_min.x;
        qvx = damp_velocity(vx1, props.collision_damping);
    } else if px1 > ext.ext_max.x {
        qpx = ext.ext_max.x;
        qvx = damp_velocity(vx1, props.collision_damping);
    } else {
        qpx = px1;
        qvx = vx1;
    }
    let qpy: i64;
    let qvy: i64;
    if py1 < ext.ext_min.y {
        qpy = ext.ext_min.y;
        qvy = damp_velocity(vy1, props.collision_damping);
    } else if py1 > ext.ext_max.y {
        qpy = ext.ext_max.y;
        qvy = damp_velocity(vy1, props.collision_damping);
    } else {
        qpy = py1;
        qvy = vy1;
    }
    proof {
        assert(-1073741824 <= (qvx as int) * (props.delta_time as int) <= 1073741824
            && -1073741824 <= (qvy as int) * (props.delta_time as int) <= 1073741824)
            by (nonlinear_arith)
            requires
                -1048576 <= qvx <= 1048576,
                -1048576 <= qvy <= 1048576,
                0 < props.delta_time <= 1024,
        ;
    }
    FluidParticle {
        position: IVec2 { x: qpx, y: qpy },
        velocity: IVec2 { x: qvx, y: qvy },
        predicted_position: IVec2 { x: qpx + qvx * props.delta_time, y: qpy + qvy * props.delta_time },
        ..p
    }
}

/// Integration pass: apply gravity, the cursor force and the accumulated
/// acceleration to each velocity, advance each position, resolve collisions
/// against the container walls padded by the particle radius, and compute
/// the predicted position the next tick's passes will read.
///
/// Containment holds unconditionally afterwards: every position lies within
/// the padded extents on both axes.
pub fn integrate_positions(
    particles: &Vec<FluidParticle>,
    props: &FluidStaticProps,
    container: &FluidContainer,
    gravity: &Gravity,
    cursor: &WorldCursor,
) -> (out: Vec<FluidParticle>)
    requires
        props.wf(),
        container.wf(),
        gravity.wf(),
        cursor.wf(),
        container.ext_min_x(props.radius as int) <= container.ext_max_x(props.radius as int),
        container.ext_min_y(props.radius as int) <= container.ext_max_y(props.radius as int),
        forall|i: int| 0 <= i < particles@.len() ==> #[trigger] particles@[i].wf(),
    ensures
        out@ == integrate_pass(
            particles@,
            *props,
            *gravity,
            *cursor,
            container.spec_ext(props.radius as int),
        ),
        out@.len() == particles@.len(),
        forall|i: int| 0 <= i < out@.len() ==> #[trigger] out@[i].wf(),
        forall|i: int|
            0 <= i < out@.len() ==> container.ext_min_x(props.radius as int) <= #[trigger] out@[i].position.x
                <= container.ext_max_x(props.radius as int) && container.ext_min_y(
                props.radius as int,
            ) <= out@[i].position.y <= container.ext_max_y(props.radius as int),
{
    let ghost ps: Seq<FluidParticle> = particles@;
    let ext: FluidContainerExt = container.get_ext(props.radius);
    let n: usize = particles.len();
    let mut out: Vec<FluidParticle> = Vec::new();
    let mut i: usize = 0;
    while i < n
        invariant
            i <= n,
            n == ps.len(),
            ps == particles@,
            props.wf(),
            gravity.wf(),
            cursor.wf(),
            ext == container.spec_ext(props.radius as int),
            -COORD_LIMIT <= ext.ext_min.x <= ext.ext_max.x <= COORD_LIMIT,
            -COORD_LIMIT <= ext.ext_min.y <= ext.ext_max.y <= COORD_LIMIT,
            forall|k: int| 0 <= k < n ==> #[trigger] ps[k].wf(),
            out@.len() == i,
            forall|k: int|
                0 <= k < i ==> #[trigger] out@[k] == integrate_particle(
                    ps[k],
                    *props,
                    *gravity,
                    *cursor,
                    ext,
                ),
            forall|k: int| 0 <= k < i ==> #[trigger] out@[k].wf(),
            forall|k: int|
                0 <= k < i ==> ext.ext_min.x <= #[trigger] out@[k].position.x <= ext.ext_max.x
                    && ext.ext_min.y <= out@[k].position.y <= ext.ext_max.y,
        decreases n - i,
    {
        let pi: FluidParticle = particles[i];
        proof {
            assert(ps[i as int].wf());
        }
        let q: FluidParticle = integrate_one(pi, props, gravity, cursor, ext);
        out.push(q);
        i = i + 1;
    }
    proof {
        assert(out@ =~= integrate_pass(
            ps,
            *props,
            *gravity,
            *cursor,
            container.spec_ext(props.radius as int),
        ));
    }
    out
}

/// One full simulation tick: density and pressure, then forces, then
/// integration with boundary collisions. Each stage consumes the completed
/// output of the previous one for all particles.
pub fn simulation_step(
    particles: &mut Vec<FluidParticle>,
    props: &FluidStaticProps,
    container: &FluidContainer,
    gravity: &Gravity,
    cursor: &WorldCursor,
)
    requires
        props.wf(),
        container.wf(),
        gravity.wf(),
        cursor.wf(),
        container.ext_min_x(props.radius as int) <= container.ext_max_x(props.radius as int),
        container.ext_min_y(props.radius as int) <= container.ext_max_y(props.radius as int),
        old(particles)@.len() <= N_LIMIT,
        forall|i: int| 0 <= i < old(particles)@.len() ==> #[trigger] old(particles)@[i].wf(),
    ensures
        final(particles)@ == integrate_pass(
            force_pass(density_pass(old(particles)@, *props), *props),
            *props,
            *gravity,
            *cursor,
            container.spec_ext(props.radius as int),
        ),
        final(particles)@.len() == old(particles)@.len(),
        forall|i: int| 0 <= i < final(particles)@.len() ==> #[trigger] final(particles)@[i].wf(),
        forall|i: int|
            0 <= i < final(particles)@.len() ==> container.ext_min_x(props.radius as int)
                <= #[trigger] final(particles)@[i].position.x <= container.ext_max_x(
                props.radius as int,
            ) && container.ext_min_y(props.radius as int) <= final(particles)@[i].position.y
                <= container.ext_max_y(props.radius as int),
{
    let with_density: Vec<FluidParticle> = update_density_and_pressure(particles, props);
    let with_forces: Vec<FluidParticle> = update_pressure_force(&with_density, props);
    let integrated: Vec<FluidParticle> = integrate_positions(
        &with_forces,
        props,
        container,
        gravity,
        cursor,
    );
    *particles = integrated;
}

/// With damping strictly below the elastic value, a wall bounce strictly
/// reduces the speed on the reflected axis.
pub proof fn lemma_bounce_dissipates_energy(v: int, damping: int)
    requires
        0 <= damping < DAMPING_SCALE,
        v != 0,
    ensures
        v > 0 ==> -v < damped_velocity(v, damping) < v,
        v < 0 ==> v < damped_velocity(v, damping) < -v,
{
    lemma_trunc_div_scale_strict(v, damping, DAMPING_SCALE as int);
}

/// The pairwise pressure force is antisymmetric: when two distinct particles
/// agree on density and near-density, the force each exerts on the other is
/// the exact negation of the force it receives — Newton's third law for the
/// shared-pressure symmetrization.
pub proof fn lemma_pressure_pair_antisymmetric(
    pa: FluidParticle,
    pb: FluidParticle,
    props: FluidStaticProps,
)
    requires
        pa.density == pb.density,
        pa.near_density == pb.near_density,
        pa.density >= 1,
        pa.near_density >= 1,
        pa.predicted_position != pb.predicted_position,
    ensures
        pressure_pair_term(pa, pb, props).0 == -pressure_pair_term(pb, pa, props).0,
        pressure_pair_term(pa, pb, props).1 == -pressure_pair_term(pb, pa, props).1,
{
    lemma_dist_symmetric(pa.predicted_position, pb.predicted_position);
    lemma_dist_positive(pa.predicted_position, pb.predicted_position);
    let d: int = dist(pa.predicted_position, pb.predicted_position);
    if d <= props.smoothing_radius {
        let slope: int = smoothing_kernel_derivative_spec(props.smoothing_radius as int, d);
        let slope_near: int = smoothing_kernel_derivative_near_spec(
            props.smoothing_radius as int,
            d,
        );
        let shared: int = trunc_div(pa.pressure + pb.pressure, 2);
        let shared_near: int = trunc_div(pa.near_pressure + pb.near_pressure, 2);
        let dxv: int = pb.predicted_position.x - pa.predicted_position.x;
        let dyv: int = pb.predicted_position.y - pa.predicted_position.y;
        assert((-dxv) * props.mass * shared * slope == -(dxv * props.mass * shared * slope)
            && (-dyv) * props.mass * shared * slope == -(dyv * props.mass * shared * slope)
            && (-dxv) * props.mass * shared_near * slope_near == -(dxv * props.mass * shared_near
            * slope_near) && (-dyv) * props.mass * shared_near * slope_near == -(dyv * props.mass
            * shared_near * slope_near)) by (nonlinear_arith);
        assert(d * pb.density >= 1 && d * pb.near_density >= 1) by (nonlinear_arith)
            requires
                d >= 1,
                pb.density >= 1,
                pb.near_density >= 1,
        ;
        lemma_trunc_div_antisymmetric(dxv * props.mass * shared * slope, d * pb.density);
        lemma_trunc_div_antisymmetric(dyv * props.mass * shared * slope, d * pb.density);
        lemma_trunc_div_antisymmetric(
            dxv * props.mass * shared_near * slope_near,
            d * pb.near_density,
        );
        lemma_trunc_div_antisymmetric(
            dyv * props.mass * shared_near * slope_near,
            d * pb.near_density,
        );
    }
}

/// For any two-particle buffer, the density pass computes the same density,
/// near-density, pressure and near-pressure for both particles: each sums
/// the kernel at distance zero (itself) and at the pair distance, which is
/// symmetric.
pub proof fn lemma_two_particle_equal_densities(ps: Seq<FluidParticle>, props: FluidStaticProps)
    requires
        ps.len() == 2,
    ensures
        density_updated(ps, props, 0).density == density_updated(ps, props, 1).density,
        density_updated(ps, props, 0).near_density == density_updated(ps, props, 1).near_density,
        density_updated(ps, props, 0).pressure == density_updated(ps, props, 1).pressure,
        density_updated(ps, props, 0).near_pressure == density_updated(ps, props, 1).near_pressure,
{
    reveal_with_fuel(poly6_sum, 3);
    reveal_with_fuel(near_sum, 3);
    let p0: IVec2 = ps[0].predicted_position;
    let p1: IVec2 = ps[1].predicted_position;
    let r: int = props.smoothing_radius as int;
    lemma_dist_symmetric(p0, p1);
    assert(ps.drop_last().drop_last() =~= Seq::<FluidParticle>::empty());
    assert(ps.drop_last().last() == ps[0]);
    assert(poly6_sum(ps, p0, r) == smoothing_kernel_spec(r, dist(p0, p0))
        + smoothing_kernel_spec(r, dist(p0, p1)));
    assert(poly6_sum(ps, p1, r) == smoothing_kernel_spec(r, dist(p1, p0))
        + smoothing_kernel_spec(r, dist(p1, p1)));
    assert(near_sum(ps, p0, r) == smoothing_kernel_near_spec(r, dist(p0, p0))
        + smoothing_kernel_near_spec(r, dist(p0, p1)));
    assert(near_sum(ps, p1, r) == smoothing_kernel_near_spec(r, dist(p1, p0))
        + smoothing_kernel_near_spec(r, dist(p1, p1)));
}

/// The pairwise viscosity term is antisymmetric without any hypothesis: the
/// velocity difference flips sign between the two orderings and the kernel
/// weight is symmetric in the distance.
pub proof fn lemma_viscosity_pair_antisymmetric(
    pa: FluidParticle,
    pb: FluidParticle,
    props: FluidStaticProps,
)
    ensures
        viscosity_pair_term(pa, pb, props).0 == -viscosity_pair_term(pb, pa, props).0,
        viscosity_pair_term(pa, pb, props).1 == -viscosity_pair_term(pb, pa, props).1,
{
    lemma_dist_symmetric(pa.predicted_position, pb.predicted_position);
    let d: int = dist(pa.predicted_position, pb.predicted_position);
    if d <= props.smoothing_radius {
        let w: int = smoothing_kernel_viscosity_spec(props.smoothing_radius as int, d);
        assert((pa.velocity.x - pb.velocity.x) * w == -((pb.velocity.x - pa.velocity.x) * w)
            && (pa.velocity.y - pb.velocity.y) * w == -((pb.velocity.y - pa.velocity.y) * w))
            by (nonlinear_arith);
    }
}

/// Momentum conservation for a symmetric two-particle system: with opposite,
/// distinct predicted positions, the pressure force the density-and-force
/// pipeline assigns to the first particle is the exact negation of the force
/// on the second, on both axes.
pub proof fn lemma_momentum_conservation_symmetric_pair(
    ps: Seq<FluidParticle>,
    props: FluidStaticProps,
)
    requires
        ps.len() == 2,
        props.wf(),
        ps[0].predicted_position.x == -(ps[1].predicted_position.x as int),
        ps[0].predicted_position.y == -(ps[1].predicted_position.y as int),
        ps[0].predicted_position != ps[1].predicted_position,
    ensures
        pressure_force(density_pass(ps, props), props, 0).0 == -pressure_force(
            density_pass(ps, props),
            props,
            1,
        ).0,
        pressure_force(density_pass(ps, props), props, 0).1 == -pressure_force(
            density_pass(ps, props),
            props,
            1,
        ).1,
{
    reveal_with_fuel(pressure_force_upto, 3);
    let qs: Seq<FluidParticle> = density_pass(ps, props);
    assert(qs.len() == 2);
    assert(qs[0] == density_updated(ps, props, 0));
    assert(qs[1] == density_updated(ps, props, 1));
    lemma_two_particle_equal_densities(ps, props);
    lemma_density_sums_bounds(ps, ps[0].predicted_position, props.smoothing_radius as int);
    lemma_density_sums_bounds(ps, ps[1].predicted_position, props.smoothing_radius as int);
    assert(0 <= props.mass * poly6_sum(ps, ps[0].predicted_position, props.smoothing_radius as int)
        <= 1099511627776 && 0 <= props.mass * near_sum(
        ps,
        ps[0].predicted_position,
        props.smoothing_radius as int,
    ) <= 1125899906842624 && 0 <= props.mass * poly6_sum(
        ps,
        ps[1].predicted_position,
        props.smoothing_radius as int,
    ) <= 1099511627776 && 0 <= props.mass * near_sum(
        ps,
        ps[1].predicted_position,
        props.smoothing_radius as int,
    ) <= 1125899906842624) by (nonlinear_arith)
        requires
            0 < props.mass <= 256,
            0 <= poly6_sum(ps, ps[0].predicted_position, props.smoothing_radius as int)
                <= 2 * 1048576,
            0 <= near_sum(ps, ps[0].predicted_position, props.smoothing_radius as int)
                <= 2 * 1073741824,
            0 <= poly6_sum(ps, ps[1].predicted_position, props.smoothing_radius as int)
                <= 2 * 1048576,
            0 <= near_sum(ps, ps[1].predicted_position, props.smoothing_radius as int)
                <= 2 * 1073741824,
    ;
    assert(qs[0].density >= 1 && qs[0].near_density >= 1);
    assert(qs[0].density == qs[1].density && qs[0].near_density == qs[1].near_density);
    assert(qs[0].predicted_position == ps[0].predicted_position);
    assert(qs[1].predicted_position == ps[1].predicted_position);
    lemma_pressure_pair_antisymmetric(qs[0], qs[1], props);
    assert(pressure_force_upto(qs, props, 0, 1) == (0int, 0int));
    assert(pressure_force(qs, props, 0) == pressure_pair_term(qs[0], qs[1], props));
    assert(pressure_force_upto(qs, props, 1, 1).0 == pressure_pair_term(qs[1], qs[0], props).0);
    assert(pressure_force(qs, props, 1) == pressure_force_upto(qs, props, 1, 1));
}

/// The accelerations the force pass writes for a symmetric two-particle
/// system are exactly opposite: pressure forces negate pairwise, viscosity
/// contributions negate pairwise, both particles divide by the same density,
/// and the saturation bound is symmetric around zero.
pub proof fn lemma_symmetric_pair_accelerations_opposite(
    ps: Seq<FluidParticle>,
    props: FluidStaticProps,
)
    requires
        ps.len() == 2,
        props.wf(),
        ps[0].predicted_position.x == -(ps[1].predicted_position.x as int),
        ps[0].predicted_position.y == -(ps[1].predicted_position.y as int),
        ps[0].predicted_position != ps[1].predicted_position,
        ps[0].velocity == ps[1].velocity,
    ensures
        accel_of(density_pass(ps, props), props, 0).0 == -accel_of(
            density_pass(ps, props),
            props,
            1,
        ).0,
        accel_of(density_pass(ps, props), props, 0).1 == -accel_of(
            density_pass(ps, props),
            props,
            1,
        ).1,
{
    reveal_with_fuel(pressure_force_upto, 3);
    reveal_with_fuel(viscosity_force_upto, 3);
    let qs: Seq<FluidParticle> = density_pass(ps, props);
    lemma_momentum_conservation_symmetric_pair(ps, props);
    lemma_viscosity_pair_antisymmetric(qs[0], qs[1], props);
    assert(viscosity_force(qs, props, 0) == viscosity_pair_term(qs[0], qs[1], props));
    assert(viscosity_force_upto(qs, props, 1, 1).0 == viscosity_pair_term(qs[1], qs[0], props).0);
    assert(viscosity_force(qs, props, 1) == viscosity_force_upto(qs, props, 1, 1));
    lemma_two_particle_equal_densities(ps, props);
    lemma_density_sums_bounds(ps, ps[0].predicted_position, props.smoothing_radius as int);
    lemma_density_sums_bounds(ps, ps[1].predicted_position, props.smoothing_radius as int);
    assert(0 <= props.mass * poly6_sum(ps, ps[0].predicted_position, props.smoothing_radius as int)
        <= 1099511627776 && 0 <= props.mass * poly6_sum(
        ps,
        ps[1].predicted_position,
        props.smoothing_radius as int,
    ) <= 1099511627776) by (nonlinear_arith)
        requires
            0 < props.mass <= 256,
            0 <= poly6_sum(ps, ps[0].predicted_position, props.smoothing_radius as int)
                <= 2 * 1048576,
            0 <= poly6_sum(ps, ps[1].predicted_position, props.smoothing_radius as int)
                <= 2 * 1048576,
    ;
    assert(qs[0].density >= 1 && qs[0].density == qs[1].density);
    let pf: (int, int) = pressure_force(qs, props, 0);
    let vf: (int, int) = viscosity_force(qs, props, 0);
    let den: int = qs[0].density as int;
    lemma_trunc_div_antisymmetric(pf.0, den);
    lemma_trunc_div_antisymmetric(pf.1, den);
    assert((-vf.0) * props.viscosity_strength == -(vf.0 * props.viscosity_strength) && (-vf.1)
        * props.viscosity_strength == -(vf.1 * props.viscosity_strength)) by (nonlinear_arith);
    assert(clamp_spec(
        -(trunc_div(pf.0, den) + vf.0 * props.viscosity_strength),
        -ACC_LIMIT as int,
        ACC_LIMIT as int,
    ) == -clamp_spec(
        trunc_div(pf.0, den) + vf.0 * props.viscosity_strength,
        -ACC_LIMIT as int,
        ACC_LIMIT as int,
    ));
    assert(clamp_spec(
        -(trunc_div(pf.1, den) + vf.1 * props.viscosity_strength),
        -ACC_LIMIT as int,
        ACC_LIMIT as int,
    ) == -clamp_spec(
        trunc_div(pf.1, den) + vf.1 * props.viscosity_strength,
        -ACC_LIMIT as int,
        ACC_LIMIT as int,
    ));
}

} // verus!
