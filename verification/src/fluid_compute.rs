//! The index-accelerated density pass: instead of scanning all pairs, each
//! particle accumulates density only over the neighbour list the spatial
//! index returns. Because every kernel vanishes at and beyond the cutoff,
//! this is proved to compute exactly the same densities and pressures as the
//! all-pairs pass.

use vstd::prelude::*;
use crate::math::{IVec2, dist, dist_sq, sqrt_floor, lemma_sqrt_floor_bounds, RADIUS_LIMIT, N_LIMIT};
use crate::smoothing::{
    DENSITY_PADDING, smoothing_kernel_spec, smoothing_kernel_near_spec, smoothing_kernel,
    smoothing_kernel_near, lemma_kernel_ranges,
};
use crate::particle::FluidParticle;
use crate::params::FluidStaticProps;
use crate::spatial::SpatialIndex;
use crate::fluid::{
    poly6_sum, near_sum, density_pass, density_updated, lemma_density_sums_bounds,
    pressure_pair_term, viscosity_pair_term, pressure_force_upto, viscosity_force_upto,
    force_pass, force_updated, integrate_pass, pair_forces,
    lemma_pair_terms_vanish_beyond_cutoff, integrate_positions, PRESSURE_TERM_LIMIT,
    VISCOSITY_TERM_LIMIT,
};
use crate::math::{clamp_i128_to_i64, div_trunc_i128, ACC_LIMIT};
use crate::fluid_container::FluidContainer;
use crate::gravity::Gravity;
use crate::cursor::WorldCursor;

verus! {

/// The predicted positions of a particle buffer, the coordinates the spatial
/// index is built over.
pub open spec fn predicted_positions(ps: Seq<FluidParticle>) -> Seq<IVec2> {
    Seq::new(ps.len(), |i: int| ps[i].predicted_position)
}

/// Extract the predicted positions as a vector, for the spatial index.
pub fn collect_predicted_positions(particles: &Vec<FluidParticle>) -> (out: Vec<IVec2>)
    ensures
        out@ == predicted_positions(particles@),
{
    let mut out: Vec<IVec2> = Vec::new();
    let mut i: usize = 0;
    while i < particles.len()
        invariant
            i <= particles@.len(),
            out@.len() == i,
            forall|k: int| 0 <= k < i ==> #[trigger] out@[k] == particles@[k].predicted_position,
        decreases particles@.len() - i,
    {
        out.push(particles[i].predicted_position);
        i = i + 1;
    }
    proof {
        assert(out@ =~= predicted_positions(particles@));
    }
    out
}

/// Sum of the density kernel over a list of particle indices.
pub open spec fn poly6_sum_indices(ps: Seq<FluidParticle>, is: Seq<usize>, p: IVec2, r: int) -> int
    decreases is.len(),
{
    if is.len() == 0 {
        0
    } else {
        poly6_sum_indices(ps, is.drop_last(), p, r) + smoothing_kernel_spec(
            r,
            dist(p, ps[is.last() as int].predicted_position),
        )
    }
}

/// Sum of the near-density kernel over a list of particle indices.
pub open spec fn near_sum_indices(ps: Seq<FluidParticle>, is: Seq<usize>, p: IVec2, r: int) -> int
    decreases is.len(),
{
    if is.len() == 0 {
        0
    } else {
        near_sum_indices(ps, is.drop_last(), p, r) + smoothing_kernel_near_spec(
            r,
            dist(p, ps[is.last() as int].predicted_position),
        )
    }
}

/// A duplicate-free list of indices below `n` has at most `n` elements.
proof fn lemma_no_dup_len_bound(is: Seq<usize>, n: int)
    requires
        forall|t1: int, t2: int| 0 <= t1 < t2 < is.len() ==> is[t1] != is[t2],
        forall|t: int| 0 <= t < is.len() ==> (#[trigger] is[t]) < n,
        0 <= n,
    ensures
        is.len() <= n,
{
    let f = (|x: usize| x as int);
    assert(vstd::relations::injective(f)) by {
        assert forall|x: usize, y: usize| #[trigger] f(x) == #[trigger] f(y) implies x == y by {}
    }
    assert(is.no_duplicates());
    is.lemma_no_duplicates_injective(f);
    let isi: Seq<int> = is.map_values(f);
    isi.unique_seq_to_set();
    assert(isi.to_set().subset_of(vstd::set_lib::set_int_range(0, n))) by {
        assert forall|x: int| isi.to_set().contains(x) implies vstd::set_lib::set_int_range(
            0,
            n,
        ).contains(x) by {
            assert(isi.contains(x));
            let t: int = choose|t: int| 0 <= t < isi.len() && isi[t] == x;
            assert(isi[t] == f(is[t]));
            assert(is[t] < n);
        }
    }
    vstd::set_lib::lemma_int_range(0, n);
    vstd::set_lib::lemma_len_subset(isi.to_set(), vstd::set_lib::set_int_range(0, n));
}

/// Index sums ignore the last particle of the buffer when no index reaches
/// it.
proof fn lemma_sum_indices_shrink(ps: Seq<FluidParticle>, is: Seq<usize>, p: IVec2, r: int)
    requires
        ps.len() > 0,
        forall|t: int| 0 <= t < is.len() ==> (#[trigger] is[t]) < ps.len() - 1,
    ensures
        poly6_sum_indices(ps, is, p, r) == poly6_sum_indices(ps.drop_last(), is, p, r),
        near_sum_indices(ps, is, p, r) == near_sum_indices(ps.drop_last(), is, p, r),
    decreases is.len(),
{
    if is.len() > 0 {
        lemma_sum_indices_shrink(ps, is.drop_last(), p, r);
        assert(ps.drop_last()[is.last() as int] == ps[is.last() as int]);
    }
}

/// Removing one index from the list removes exactly its kernel contribution
/// from the sum.
proof fn lemma_sum_indices_remove(ps: Seq<FluidParticle>, is: Seq<usize>, t: int, p: IVec2, r: int)
    requires
        0 <= t < is.len(),
    ensures
        poly6_sum_indices(ps, is, p, r) == poly6_sum_indices(ps, is.remove(t), p, r)
            + smoothing_kernel_spec(r, dist(p, ps[is[t] as int].predicted_position)),
        near_sum_indices(ps, is, p, r) == near_sum_indices(ps, is.remove(t), p, r)
            + smoothing_kernel_near_spec(r, dist(p, ps[is[t] as int].predicted_position)),
    decreases is.len(),
{
    is.remove_ensures(t);
    if t == is.len() - 1 {
        assert(is.remove(t) =~= is.drop_last());
    } else {
        lemma_sum_indices_remove(ps, is.drop_last(), t, p, r);
        assert(is.remove(t).drop_last() =~= is.drop_last().remove(t));
        assert(is.remove(t).last() == is.last());
        assert(is.drop_last()[t] == is[t]);
    }
}

/// A duplicate-free index list that contains every particle within the
/// cutoff sums to exactly the all-pairs kernel sums: particles at or beyond
/// the cutoff contribute zero.
proof fn lemma_sum_indices_complete(ps: Seq<FluidParticle>, is: Seq<usize>, p: IVec2, r: int)
    requires
        0 < r,
        ps.len() <= N_LIMIT,
        forall|t1: int, t2: int| 0 <= t1 < t2 < is.len() ==> is[t1] != is[t2],
        forall|t: int| 0 <= t < is.len() ==> (#[trigger] is[t]) < ps.len(),
        forall|j: int|
            0 <= j < ps.len() && dist_sq(p, #[trigger] ps[j].predicted_position) <= r * r
                ==> is.contains(j as usize),
    ensures
        poly6_sum_indices(ps, is, p, r) == poly6_sum(ps, p, r),
        near_sum_indices(ps, is, p, r) == near_sum(ps, p, r),
    decreases ps.len(),
{
    if ps.len() == 0 {
        if is.len() > 0 {
            assert(is[0] < 0);
        }
    } else {
        let nlast: int = ps.len() - 1;
        if is.contains(nlast as usize) {
            let t: int = choose|t: int| 0 <= t < is.len() && is[t] == nlast as usize;
            lemma_sum_indices_remove(ps, is, t, p, r);
            let is2: Seq<usize> = is.remove(t);
            is.remove_ensures(t);
            assert forall|t1: int, t2: int| 0 <= t1 < t2 < is2.len() implies is2[t1] != is2[t2] by {
                assert(is2[t1] == if t1 < t {
                    is[t1]
                } else {
                    is[t1 + 1]
                });
                assert(is2[t2] == if t2 < t {
                    is[t2]
                } else {
                    is[t2 + 1]
                });
            }
            assert forall|tt: int| 0 <= tt < is2.len() implies (#[trigger] is2[tt]) < nlast by {
                if tt < t {
                    assert(is2[tt] == is[tt]);
                    assert(is[tt] != is[t]);
                } else {
                    assert(is2[tt] == is[tt + 1]);
                    assert(is[tt + 1] != is[t]);
                }
            }
            assert forall|j: int|
                0 <= j < ps.drop_last().len() && dist_sq(
                    p,
                    #[trigger] ps.drop_last()[j].predicted_position,
                ) <= r * r implies is2.contains(j as usize) by {
                assert(ps.drop_last()[j] == ps[j]);
                assert(is.contains(j as usize));
                let k: int = choose|k: int| 0 <= k < is.len() && is[k] == j as usize;
                if k < t {
                    assert(is2[k] == j as usize);
                } else {
                    assert(k != t);
                    assert(is2[k - 1] == j as usize);
                }
            }
            lemma_sum_indices_shrink(ps, is2, p, r);
            lemma_sum_indices_complete(ps.drop_last(), is2, p, r);
        } else {
            assert(dist_sq(p, ps[nlast].predicted_position) > r * r);
            let s: nat = dist_sq(p, ps[nlast].predicted_position) as nat;
            lemma_sqrt_floor_bounds(s);
            assert(sqrt_floor(s) >= r) by (nonlinear_arith)
                requires
                    s > r * r,
                    0 < r,
                    s < (sqrt_floor(s) + 1) * (sqrt_floor(s) + 1),
            ;
            let d: int = dist(p, ps[nlast].predicted_position);
            if d == r {
                assert((r - d) * (r - d) == 0 && (r - d) * (r - d) * (r - d) == 0)
                    by (nonlinear_arith)
                    requires
                        d == r,
                ;
            }
            assert(smoothing_kernel_spec(r, dist(p, ps[nlast].predicted_position)) == 0);
            assert(smoothing_kernel_near_spec(r, dist(p, ps[nlast].predicted_position)) == 0);
            assert forall|tt: int| 0 <= tt < is.len() implies (#[trigger] is[tt]) < nlast by {
                if is[tt] == nlast as usize {
                    assert(is.contains(nlast as usize));
                }
            }
            lemma_sum_indices_shrink(ps, is, p, r);
            lemma_sum_indices_complete(ps.drop_last(), is, p, r);
        }
    }
}

/// Density pass over the spatial index: identical results to the all-pairs
/// pass, with each particle reading only its indexed neighbour list.
pub fn update_density_and_pressure_indexed(
    particles: &Vec<FluidParticle>,
    props: &FluidStaticProps,
    index: &SpatialIndex,
) -> (out: Vec<FluidParticle>)
    requires
        props.wf(),
        particles@.len() <= N_LIMIT,
        forall|i: int| 0 <= i < particles@.len() ==> #[trigger] particles@[i].wf(),
        index.valid_for(predicted_positions(particles@)),
        index.smoothing_radius == props.smoothing_radius,
    ensures
        out@ == density_pass(particles@, *props),
        out@.len() == particles@.len(),
        forall|i: int| 0 <= i < out@.len() ==> #[trigger] out@[i].wf(),
        forall|i: int|
            0 <= i < out@.len() ==> #[trigger] out@[i].density >= DENSITY_PADDING
                && out@[i].near_density >= DENSITY_PADDING,
{
    let ghost ps: Seq<FluidParticle> = particles@;
    let positions: Vec<IVec2> = collect_predicted_positions(particles);
    let n: usize = particles.len();
    let r: i64 = props.smoothing_radius;
    proof {
        assert(0 < r * r <= 1048576 && 0 < r * r * r <= 1073741824) by (nonlinear_arith)
            requires
                0 < r <= RADIUS_LIMIT,
                RADIUS_LIMIT == 1024,
        ;
    }
    let mut out: Vec<FluidParticle> = Vec::new();
    let mut i: usize = 0;
    while i < n
        invariant
            i <= n,
            n == ps.len(),
            n <= N_LIMIT,
            ps == particles@,
            positions@ == predicted_positions(ps),
            index.valid_for(positions@),
            index.smoothing_radius == props.smoothing_radius,
            props.wf(),
            r == props.smoothing_radius,
            0 < r * r <= 1048576,
            0 < r * r * r <= 1073741824,
            forall|k: int| 0 <= k < n ==> #[trigger] ps[k].wf(),
            out@.len() == i,
            forall|k: int| 0 <= k < i ==> #[trigger] out@[k] == density_updated(ps, *props, k),
            forall|k: int| 0 <= k < i ==> #[trigger] out@[k].wf(),
        decreases n - i,
    {
        let pi: FluidParticle = particles[i];
        proof {
            assert(ps[i as int].wf());
        }
        let neighbors: Vec<usize> = index.query(&positions, i);
        proof {
            assert forall|tt: int|
                0 <= tt < neighbors@.len() implies (#[trigger] neighbors@[tt]) < n by {
                assert(neighbors@.contains(neighbors@[tt]));
            }
            lemma_no_dup_len_bound(neighbors@, n as int);
        }
        let mut acc_d: i64 = 0;
        let mut acc_n: i64 = 0;
        let mut t: usize = 0;
        while t < neighbors.len()
            invariant
                t <= neighbors@.len(),
                n == ps.len(),
                n <= N_LIMIT,
                ps == particles@,
                positions@ == predicted_positions(ps),
                props.wf(),
                r == props.smoothing_radius,
                0 < r * r <= 1048576,
                0 < r * r * r <= 1073741824,
                forall|k: int| 0 <= k < n ==> #[trigger] ps[k].wf(),
                pi == ps[i as int],
                i < n,
                neighbors@.len() <= n,
                forall|tt: int|
                    0 <= tt < neighbors@.len() ==> (#[trigger] neighbors@[tt]) < n,
                acc_d == poly6_sum_indices(ps, neighbors@.take(t as int), pi.predicted_position, r as int),
                acc_n == near_sum_indices(ps, neighbors@.take(t as int), pi.predicted_position, r as int),
                0 <= acc_d <= t * 1048576,
                0 <= acc_n <= t * 1073741824,
            decreases neighbors@.len() - t,
        {
            let j: usize = neighbors[t];
            let pj: FluidParticle = particles[j];
            proof {
                assert(ps[i as int].wf());
                assert(ps[j as int].wf());
            }
            let d: i64 = crate::math::distance(pi.predicted_position, pj.predicted_position);
            let wd: i64 = smoothing_kernel(r, d);
            let wn: i64 = smoothing_kernel_near(r, d);
            proof {
                assert(neighbors@.take(t + 1).drop_last() =~= neighbors@.take(t as int));
                assert(neighbors@.take(t + 1).last() == neighbors@[t as int]);
                assert((t + 1) * 1048576 == t * 1048576 + 1048576) by (nonlinear_arith);
                assert((t + 1) * 1073741824 == t * 1073741824 + 1073741824) by (nonlinear_arith);
            }
            acc_d = acc_d + wd;
            acc_n = acc_n + wn;
            t = t + 1;
        }
        proof {
            assert(neighbors@.take(neighbors@.len() as int) =~= neighbors@);
            assert forall|tt: int|
                0 <= tt < neighbors@.len() implies (#[trigger] neighbors@[tt]) < ps.len() by {
                assert(neighbors@.contains(neighbors@[tt]));
            }
            assert forall|j: int|
                0 <= j < ps.len() && dist_sq(
                    pi.predicted_position,
                    #[trigger] ps[j].predicted_position,
                ) <= (r as int) * (r as int) implies neighbors@.contains(j as usize) by {
                assert(positions@[j] == ps[j].predicted_position);
                assert(positions@[i as int] == pi.predicted_position);
            }
            lemma_sum_indices_complete(ps, neighbors@, pi.predicted_position, r as int);
            lemma_density_sums_bounds(ps, pi.predicted_position, r as int);
            assert(0 <= props.mass * acc_d <= 1099511627776 && 0 <= props.mass * acc_n
                <= 1125899906842624) by (nonlinear_arith)
                requires
                    0 < props.mass <= 256,
                    0 <= acc_d <= 4294967296,
                    0 <= acc_n <= 4398046511104,
            ;
        }
        let density: i64 = DENSITY_PADDING + props.mass * acc_d;
        let near_density: i64 = DENSITY_PADDING + props.mass * acc_n;
        let diff: i64 = density - props.target_density;
        proof {
            assert(-1125899906842624 <= props.pressure_scalar * diff <= 1125899906842624 && 0
                <= props.near_pressure_scalar * near_density <= 576460752303423488)
                by (nonlinear_arith)
                requires
                    -256 <= props.pressure_scalar <= 256,
                    0 <= props.near_pressure_scalar <= 256,
                    -2199023255553 <= diff <= 2199023255553,
                    0 < near_density <= 1125899906842625,
            ;
        }
        let pressure: i64 = props.pressure_scalar * diff;
        let near_pressure: i64 = props.near_pressure_scalar * near_density;
        out.push(
            FluidParticle {
                density,
                near_density,
                pressure,
                near_pressure,
                ..pi
            },
        );
        i = i + 1;
    }
    proof {
        assert(out@ =~= density_pass(ps, *props));
        assert forall|k: int|
            0 <= k < out@.len() implies #[trigger] out@[k].density >= DENSITY_PADDING
            && out@[k].near_density >= DENSITY_PADDING by {
            assert(out@[k].wf());
        }
    }
    out
}

/// Pressure force on particle `i` summed over a list of neighbour indices;
/// the particle's own index contributes nothing.
pub open spec fn pressure_force_indices(
    ps: Seq<FluidParticle>,
    is: Seq<usize>,
    props: FluidStaticProps,
    i: int,
) -> (int, int)
    decreases is.len(),
{
    if is.len() == 0 {
        (0, 0)
    } else {
        let rest: (int, int) = pressure_force_indices(ps, is.drop_last(), props, i);
        if is.last() == i {
            rest
        } else {
            let t: (int, int) = pressure_pair_term(ps[i], ps[is.last() as int], props);
            (rest.0 + t.0, rest.1 + t.1)
        }
    }
}

/// Viscosity force on particle `i` summed over a list of neighbour indices;
/// the particle's own index contributes nothing.
pub open spec fn viscosity_force_indices(
    ps: Seq<FluidParticle>,
    is: Seq<usize>,
    props: FluidStaticProps,
    i: int,
) -> (int, int)
    decreases is.len(),
{
    if is.len() == 0 {
        (0, 0)
    } else {
        let rest: (int, int) = viscosity_force_indices(ps, is.drop_last(), props, i);
        if is.last() == i {
            rest
        } else {
            let t: (int, int) = viscosity_pair_term(ps[i], ps[is.last() as int], props);
            (rest.0 + t.0, rest.1 + t.1)
        }
    }
}

/// Removing one index from the list removes exactly its force contribution
/// (nothing, for the particle's own index).
proof fn lemma_force_indices_remove(
    ps: Seq<FluidParticle>,
    is: Seq<usize>,
    t: int,
    props: FluidStaticProps,
    i: int,
)
    requires
        0 <= t < is.len(),
    ensures
        is[t] == i ==> pressure_force_indices(ps, is, props, i) == pressure_force_indices(
            ps,
            is.remove(t),
            props,
            i,
        ) && viscosity_force_indices(ps, is, props, i) == viscosity_force_indices(
            ps,
            is.remove(t),
            props,
            i,
        ),
        is[t] != i ==> pressure_force_indices(ps, is, props, i).0 == pressure_force_indices(
            ps,
            is.remove(t),
            props,
            i,
        ).0 + pressure_pair_term(ps[i], ps[is[t] as int], props).0 && pressure_force_indices(
            ps,
            is,
            props,
            i,
        ).1 == pressure_force_indices(ps, is.remove(t), props, i).1 + pressure_pair_term(
            ps[i],
            ps[is[t] as int],
            props,
        ).1 && viscosity_force_indices(ps, is, props, i).0 == viscosity_force_indices(
            ps,
            is.remove(t),
            props,
            i,
        ).0 + viscosity_pair_term(ps[i], ps[is[t] as int], props).0 && viscosity_force_indices(
            ps,
            is,
            props,
            i,
        ).1 == viscosity_force_indices(ps, is.remove(t), props, i).1 + viscosity_pair_term(
            ps[i],
            ps[is[t] as int],
            props,
        ).1,
    decreases is.len(),
{
    is.remove_ensures(t);
    if t == is.len() - 1 {
        assert(is.remove(t) =~= is.drop_last());
    } else {
        lemma_force_indices_remove(ps, is.drop_last(), t, props, i);
        assert(is.remove(t).drop_last() =~= is.drop_last().remove(t));
        assert(is.remove(t).last() == is.last());
        assert(is.drop_last()[t] == is[t]);
    }
}

/// A duplicate-free neighbour list that contains every particle within the
/// cutoff (other than `i` itself) sums to exactly the all-pairs forces on
/// `i`: the pair terms vanish at and beyond the cutoff.
proof fn lemma_force_indices_complete(
    ps: Seq<FluidParticle>,
    is: Seq<usize>,
    props: FluidStaticProps,
    i: int,
    k: int,
)
    requires
        props.wf(),
        ps.len() <= N_LIMIT,
        0 <= i < ps.len(),
        0 <= k <= ps.len(),
        forall|j: int| 0 <= j < ps.len() ==> (#[trigger] ps[j]).density >= 1 && ps[j].near_density
            >= 1,
        forall|t1: int, t2: int| 0 <= t1 < t2 < is.len() ==> is[t1] != is[t2],
        forall|t: int| 0 <= t < is.len() ==> (#[trigger] is[t]) < k,
        forall|j: int|
            0 <= j < k && j != i && dist_sq(
                ps[i].predicted_position,
                #[trigger] ps[j].predicted_position,
            ) <= props.smoothing_radius * props.smoothing_radius ==> is.contains(j as usize),
    ensures
        pressure_force_indices(ps, is, props, i) == pressure_force_upto(ps, props, i, k),
        viscosity_force_indices(ps, is, props, i) == viscosity_force_upto(ps, props, i, k),
    decreases k,
{
    if k == 0 {
        if is.len() > 0 {
            assert(is[0] < 0);
        }
    } else {
        let last: int = k - 1;
        if is.contains(last as usize) {
            let t: int = choose|t: int| 0 <= t < is.len() && is[t] == last as usize;
            lemma_force_indices_remove(ps, is, t, props, i);
            let is2: Seq<usize> = is.remove(t);
            is.remove_ensures(t);
            assert forall|t1: int, t2: int| 0 <= t1 < t2 < is2.len() implies is2[t1] != is2[t2] by {
                assert(is2[t1] == if t1 < t {
                    is[t1]
                } else {
                    is[t1 + 1]
                });
                assert(is2[t2] == if t2 < t {
                    is[t2]
                } else {
                    is[t2 + 1]
                });
            }
            assert forall|tt: int| 0 <= tt < is2.len() implies (#[trigger] is2[tt]) < last by {
                if tt < t {
                    assert(is2[tt] == is[tt]);
                    assert(is[tt] != is[t]);
                } else {
                    assert(is2[tt] == is[tt + 1]);
                    assert(is[tt + 1] != is[t]);
                }
            }
            assert forall|j: int|
                0 <= j < last && j != i && dist_sq(
                    ps[i].predicted_position,
                    #[trigger] ps[j].predicted_position,
                ) <= props.smoothing_radius * props.smoothing_radius implies is2.contains(
                j as usize,
            ) by {
                assert(is.contains(j as usize));
                let kk: int = choose|kk: int| 0 <= kk < is.len() && is[kk] == j as usize;
                if kk < t {
                    assert(is2[kk] == j as usize);
                } else {
                    assert(kk != t);
                    assert(is2[kk - 1] == j as usize);
                }
            }
            lemma_force_indices_complete(ps, is2, props, i, last);
        } else {
            assert forall|tt: int| 0 <= tt < is.len() implies (#[trigger] is[tt]) < last by {
                if is[tt] == last as usize {
                    assert(is.contains(last as usize));
                }
            }
            if last != i {
                assert(dist_sq(ps[i].predicted_position, ps[last].predicted_position)
                    > props.smoothing_radius * props.smoothing_radius);
                lemma_pair_terms_vanish_beyond_cutoff(ps[i], ps[last], props);
            }
            lemma_force_indices_complete(ps, is, props, i, last);
        }
    }
}

/// Force pass over the spatial index: identical accelerations to the
/// all-pairs pass, with each particle reading only its indexed neighbour
/// list.
pub fn update_pressure_force_indexed(
    particles: &Vec<FluidParticle>,
    props: &FluidStaticProps,
    index: &SpatialIndex,
) -> (out: Vec<FluidParticle>)
    requires
        props.wf(),
        particles@.len() <= N_LIMIT,
        forall|i: int| 0 <= i < particles@.len() ==> #[trigger] particles@[i].wf(),
        index.valid_for(predicted_positions(particles@)),
        index.smoothing_radius == props.smoothing_radius,
    ensures
        out@ == force_pass(particles@, *props),
        out@.len() == particles@.len(),
        forall|i: int| 0 <= i < out@.len() ==> #[trigger] out@[i].wf(),
{
    let ghost ps: Seq<FluidParticle> = particles@;
    let positions: Vec<IVec2> = collect_predicted_positions(particles);
    let n: usize = particles.len();
    let mut out: Vec<FluidParticle> = Vec::new();
    let mut i: usize = 0;
    while i < n
        invariant
            i <= n,
            n == ps.len(),
            n <= N_LIMIT,
            ps == particles@,
            positions@ == predicted_positions(ps),
            index.valid_for(positions@),
            index.smoothing_radius == props.smoothing_radius,
            props.wf(),
            forall|k: int| 0 <= k < n ==> #[trigger] ps[k].wf(),
            out@.len() == i,
            forall|k: int| 0 <= k < i ==> #[trigger] out@[k] == force_updated(ps, *props, k),
            forall|k: int| 0 <= k < i ==> #[trigger] out@[k].wf(),
        decreases n - i,
    {
        let pi: FluidParticle = particles[i];
        proof {
            assert(ps[i as int].wf());
        }
        let neighbors: Vec<usize> = index.query(&positions, i);
        proof {
            assert forall|tt: int|
                0 <= tt < neighbors@.len() implies (#[trigger] neighbors@[tt]) < n by {
                assert(neighbors@.contains(neighbors@[tt]));
            }
            lemma_no_dup_len_bound(neighbors@, n as int);
        }
        let mut pf_x: i128 = 0;
        let mut pf_y: i128 = 0;
        let mut vf_x: i128 = 0;
        let mut vf_y: i128 = 0;
        let mut t: usize = 0;
        while t < neighbors.len()
            invariant
                t <= neighbors@.len(),
                n == ps.len(),
                n <= N_LIMIT,
                ps == particles@,
                positions@ == predicted_positions(ps),
                props.wf(),
                forall|k: int| 0 <= k < n ==> #[trigger] ps[k].wf(),
                pi == ps[i as int],
                i < n,
                neighbors@.len() <= n,
                forall|tt: int| 0 <= tt < neighbors@.len() ==> (#[trigger] neighbors@[tt]) < n,
                (pf_x as int, pf_y as int) == pressure_force_indices(
                    ps,
                    neighbors@.take(t as int),
                    *props,
                    i as int,
                ),
                (vf_x as int, vf_y as int) == viscosity_force_indices(
                    ps,
                    neighbors@.take(t as int),
                    *props,
                    i as int,
                ),
                -(t * PRESSURE_TERM_LIMIT) <= pf_x <= t * PRESSURE_TERM_LIMIT,
                -(t * PRESSURE_TERM_LIMIT) <= pf_y <= t * PRESSURE_TERM_LIMIT,
                -(t * VISCOSITY_TERM_LIMIT) <= vf_x <= t * VISCOSITY_TERM_LIMIT,
                -(t * VISCOSITY_TERM_LIMIT) <= vf_y <= t * VISCOSITY_TERM_LIMIT,
            decreases neighbors@.len() - t,
        {
            let j: usize = neighbors[t];
            proof {
                assert(ps[i as int].wf());
                assert(ps[j as int].wf());
                assert(neighbors@.take(t + 1).drop_last() =~= neighbors@.take(t as int));
                assert(neighbors@.take(t + 1).last() == neighbors@[t as int]);
                assert((t + 1) * PRESSURE_TERM_LIMIT == t * PRESSURE_TERM_LIMIT
                    + PRESSURE_TERM_LIMIT) by (nonlinear_arith);
                assert((t + 1) * VISCOSITY_TERM_LIMIT == t * VISCOSITY_TERM_LIMIT
                    + VISCOSITY_TERM_LIMIT) by (nonlinear_arith);
            }
            if j != i {
                let pj: FluidParticle = particles[j];
                let d: i64 = crate::math::distance(pi.predicted_position, pj.predicted_position);
                if d <= props.smoothing_radius {
                    let f: (i128, i128, i128, i128) = pair_forces(&pi, &pj, props, d);
                    pf_x = pf_x + f.0;
                    pf_y = pf_y + f.1;
                    vf_x = vf_x + f.2;
                    vf_y = vf_y + f.3;
                } else {
                    proof {
                        assert(pressure_pair_term(ps[i as int], ps[j as int], *props) == (
                        0int,
                        0int,
                        ));
                        assert(viscosity_pair_term(ps[i as int], ps[j as int], *props) == (
                        0int,
                        0int,
                        ));
                    }
                }
            }
            t = t + 1;
        }
        proof {
            assert(neighbors@.take(neighbors@.len() as int) =~= neighbors@);
            assert forall|j: int|
                0 <= j < ps.len() implies (#[trigger] ps[j]).density >= 1 && ps[j].near_density
                >= 1 by {
                assert(ps[j].wf());
            }
            assert forall|j: int|
                0 <= j < ps.len() && j != i && dist_sq(
                    ps[i as int].predicted_position,
                    #[trigger] ps[j].predicted_position,
                ) <= props.smoothing_radius * props.smoothing_radius implies neighbors@.contains(
                j as usize,
            ) by {
                assert(positions@[j] == ps[j].predicted_position);
                assert(positions@[i as int] == ps[i as int].predicted_position);
            }
            lemma_force_indices_complete(ps, neighbors@, *props, i as int, n as int);
            assert(-(4096 * PRESSURE_TERM_LIMIT) <= pf_x <= 4096 * PRESSURE_TERM_LIMIT);
            assert(-(4096 * PRESSURE_TERM_LIMIT) <= pf_y <= 4096 * PRESSURE_TERM_LIMIT);
            assert(-(4096 * VISCOSITY_TERM_LIMIT) <= vf_x <= 4096 * VISCOSITY_TERM_LIMIT);
            assert(-(4096 * VISCOSITY_TERM_LIMIT) <= vf_y <= 4096 * VISCOSITY_TERM_LIMIT);
        }
        let dpx: i128 = div_trunc_i128(pf_x, pi.density as i128);
        let dpy: i128 = div_trunc_i128(pf_y, pi.density as i128);
        proof {
            assert(-2305843009213693952 <= vf_x * props.viscosity_strength
                <= 2305843009213693952 && -2305843009213693952 <= vf_y
                * props.viscosity_strength <= 2305843009213693952) by (nonlinear_arith)
                requires
                    -9007199254740992 <= vf_x <= 9007199254740992,
                    -9007199254740992 <= vf_y <= 9007199254740992,
                    0 <= props.viscosity_strength <= 256,
            ;
        }
        let ax_raw: i128 = dpx + vf_x * (props.viscosity_strength as i128);
        let ay_raw: i128 = dpy + vf_y * (props.viscosity_strength as i128);
        let ax: i64 = clamp_i128_to_i64(ax_raw, -ACC_LIMIT, ACC_LIMIT);
        let ay: i64 = clamp_i128_to_i64(ay_raw, -ACC_LIMIT, ACC_LIMIT);
        out.push(FluidParticle { acceleration: IVec2 { x: ax, y: ay }, ..pi });
        i = i + 1;
    }
    proof {
        assert(out@ =~= force_pass(ps, *props));
    }
    out
}

/// One full simulation tick over the spatial index: the index is rebuilt
/// from the predicted positions, the density and force passes read only
/// indexed neighbour lists, and the result is exactly the buffer the
/// all-pairs tick computes.
pub fn simulation_step_indexed(
    particles: &mut Vec<FluidParticle>,
    props: &FluidStaticProps,
    container: &FluidContainer,
    gravity: &Gravity,
    cursor: &WorldCursor,
)
    requires
        props.wf(),
        container.wf(),
        gravity.wf(),
        cursor.wf(),
        container.ext_min_x(props.radius as int) <= container.ext_max_x(props.radius as int),
        container.ext_min_y(props.radius as int) <= container.ext_max_y(props.radius as int),
        old(particles)@.len() <= N_LIMIT,
        forall|i: int| 0 <= i < old(particles)@.len() ==> #[trigger] old(particles)@[i].wf(),
    ensures
        final(particles)@ == integrate_pass(
            force_pass(density_pass(old(particles)@, *props), *props),
            *props,
            *gravity,
            *cursor,
            container.spec_ext(props.radius as int),
        ),
        final(particles)@.len() == old(particles)@.len(),
        forall|i: int| 0 <= i < final(particles)@.len() ==> #[trigger] final(particles)@[i].wf(),
{
    let predicted: Vec<IVec2> = collect_predicted_positions(particles);
    proof {
        assert forall|j: int|
            0 <= j < predicted@.len() implies -crate::math::PRED_LIMIT <= #[trigger] predicted@[j].x
            <= crate::math::PRED_LIMIT && -crate::math::PRED_LIMIT <= predicted@[j].y
            <= crate::math::PRED_LIMIT by {
            assert(particles@[j].wf());
        }
    }
    let index: SpatialIndex = SpatialIndex::build(&predicted, props.smoothing_radius);
    let with_density: Vec<FluidParticle> = update_density_and_pressure_indexed(
        particles,
        props,
        &index,
    );
    proof {
        assert(predicted_positions(with_density@) =~= predicted_positions(particles@));
    }
    let with_forces: Vec<FluidParticle> = update_pressure_force_indexed(
        &with_density,
        props,
        &index,
    );
    let integrated: Vec<FluidParticle> = integrate_positions(
        &with_forces,
        props,
        container,
        gravity,
        cursor,
    );
    *particles = integrated;
}

} // verus!
