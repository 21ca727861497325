//! Spawn layouts: the grid of positions a fresh fluid block is seeded with.

use vstd::prelude::*;
use vstd::arithmetic::div_mod::lemma_fundamental_div_mod_converse;
use crate::math::{IVec2, COORD_LIMIT, RADIUS_LIMIT};

verus! {

/// Position `k` of an `ni` by `nj` grid of particles of radius `rad`,
/// centred on the origin, one particle diameter apart. Positions are laid
/// out column-major: `k == i * nj + j` maps to column `i`, row `j`.
pub open spec fn cube_fluid_point(ni: int, nj: int, rad: int, k: int) -> IVec2 {
    IVec2 {
        x: ((k / nj) * (2 * rad) + rad - ni * rad) as i64,
        y: ((k % nj) * (2 * rad) + rad - nj * rad) as i64,
    }
}

/// The full grid of `ni * nj` spawn positions.
pub open spec fn cube_fluid_spec(ni: int, nj: int, rad: int) -> Seq<IVec2> {
    Seq::new((ni * nj) as nat, |k: int| cube_fluid_point(ni, nj, rad, k))
}

/// Lay out an `ni` by `nj` block of particles of radius `rad` centred on the
/// origin, spaced one diameter apart.
pub fn cube_fluid(ni: usize, nj: usize, particle_rad: i64) -> (points: Vec<IVec2>)
    requires
        0 < ni <= 1024,
        0 < nj <= 1024,
        0 < particle_rad <= RADIUS_LIMIT,
    ensures
        points@ == cube_fluid_spec(ni as int, nj as int, particle_rad as int),
        points@.len() == ni * nj,
        forall|k: int|
            0 <= k < points@.len() ==> -COORD_LIMIT <= #[trigger] points@[k].x <= COORD_LIMIT
                && -COORD_LIMIT <= points@[k].y <= COORD_LIMIT,
    {
    let mut points: Vec<IVec2> = Vec::new();
    proof {
        assert(ni * nj <= 1048576 && 0 < ni * nj) by (nonlinear_arith)
            requires
                0 < ni <= 1024,
                0 < nj <= 1024,
        ;
    }
    proof {
        assert(0 < ni * particle_rad <= COORD_LIMIT && 0 < nj * particle_rad <= COORD_LIMIT)
            by (nonlinear_arith)
            requires
                0 < ni <= 1024,
                0 < nj <= 1024,
                0 < particle_rad <= RADIUS_LIMIT,
                RADIUS_LIMIT == 1024,
                COORD_LIMIT == 1048576,
        ;
    }
    let half_x: i64 = (ni as i64) * particle_rad;
    let half_y: i64 = (nj as i64) * particle_rad;
    let diam: i64 = 2 * particle_rad;
    let mut i: usize = 0;
    while i < ni
        invariant
            i <= ni,
            0 < ni <= 1024,
            0 < nj <= 1024,
            0 < particle_rad <= RADIUS_LIMIT,
            half_x == ni * particle_rad,
            half_y == nj * particle_rad,
            0 < half_x <= COORD_LIMIT,
            0 < half_y <= COORD_LIMIT,
            diam == 2 * particle_rad,
            points@.len() == i * nj,
            forall|k: int|
                0 <= k < points@.len() ==> #[trigger] points@[k] == cube_fluid_point(
                    ni as int,
                    nj as int,
                    particle_rad as int,
                    k,
                ),
            forall|k: int|
                0 <= k < points@.len() ==> -COORD_LIMIT <= #[trigger] points@[k].x <= COORD_LIMIT
                    && -COORD_LIMIT <= points@[k].y <= COORD_LIMIT,
        decreases ni - i,
    {
        proof {
            assert(i * particle_rad <= 1048576 && (i + 1) * nj <= 1048576 && i * nj + nj == (i + 1)
                * nj && i * (2 * particle_rad) == 2 * (i * particle_rad)) by (nonlinear_arith)
                requires
                    0 <= i < ni <= 1024,
                    0 < nj <= 1024,
                    0 < particle_rad <= 1024,
            ;
        }
        let x: i64 = (i as i64) * diam + particle_rad - half_x;
        proof {
            assert(-COORD_LIMIT <= x <= COORD_LIMIT) by (nonlinear_arith)
                requires
                    x == i * (2 * particle_rad) + particle_rad - ni * particle_rad,
                    0 <= i < ni <= 1024,
                    0 < particle_rad <= 1024,
                    COORD_LIMIT == 1048576,
            ;
        }
        let mut j: usize = 0;
        while j < nj
            invariant
                j <= nj,
                i < ni,
                0 < ni <= 1024,
                0 < nj <= 1024,
                0 < particle_rad <= RADIUS_LIMIT,
                half_x == ni * particle_rad,
                half_y == nj * particle_rad,
                0 < half_x <= COORD_LIMIT,
                0 < half_y <= COORD_LIMIT,
                diam == 2 * particle_rad,
                x == i * (2 * particle_rad) + particle_rad - ni * particle_rad,
                points@.len() == i * nj + j,
                -COORD_LIMIT <= x <= COORD_LIMIT,
                forall|k: int|
                    0 <= k < points@.len() ==> #[trigger] points@[k] == cube_fluid_point(
                        ni as int,
                        nj as int,
                        particle_rad as int,
                        k,
                    ),
                forall|k: int|
                    0 <= k < points@.len() ==> -COORD_LIMIT <= #[trigger] points@[k].x
                        <= COORD_LIMIT && -COORD_LIMIT <= points@[k].y <= COORD_LIMIT,
            decreases nj - j,
        {
            proof {
                assert(j * particle_rad <= 1048576 && j * (2 * particle_rad) == 2 * (j
                    * particle_rad)) by (nonlinear_arith)
                    requires
                        0 <= j < nj <= 1024,
                        0 < particle_rad <= 1024,
                ;
            }
            let y: i64 = (j as i64) * diam + particle_rad - half_y;
            proof {
                let k: int = i * nj + j;
                lemma_fundamental_div_mod_converse(k, nj as int, i as int, j as int);
                assert(-COORD_LIMIT <= y <= COORD_LIMIT) by (nonlinear_arith)
                    requires
                        y == j * (2 * particle_rad) + particle_rad - nj * particle_rad,
                        0 <= j < nj <= 1024,
                        0 < particle_rad <= 1024,
                        COORD_LIMIT == 1048576,
                ;
            }
            points.push(IVec2 { x, y });
            j = j + 1;
        }
        i = i + 1;
    }
    proof {
        assert(points@ =~= cube_fluid_spec(ni as int, nj as int, particle_rad as int));
    }
    points
}

} // verus!
