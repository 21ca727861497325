//! The per-particle state, its validity predicate, and the bulk construction
//! of a fresh particle buffer from spawn positions.

use vstd::prelude::*;
use crate::math::{
    IVec2, COORD_LIMIT, VEL_LIMIT, ACC_LIMIT, PRED_LIMIT, DENSITY_LIMIT, NEAR_DENSITY_LIMIT,
    PRESSURE_LIMIT, NEAR_PRESSURE_LIMIT,
};
use crate::smoothing::DENSITY_PADDING;

verus! {

/// One particle. Position and velocity are the integrated state carried
/// across ticks; every other field is recomputed each tick.
#[derive(Clone, Copy, PartialEq, Eq, Structural, Debug)]
pub struct FluidParticle {
    /// Authoritative location.
    pub position: IVec2,
    /// Current velocity.
    pub velocity: IVec2,
    /// Acceleration from the last force pass.
    pub acceleration: IVec2,
    /// Look-ahead position: the basis of neighbour search and of the density
    /// and force passes.
    pub predicted_position: IVec2,
    /// Accumulated density, never below `DENSITY_PADDING`.
    pub density: i64,
    /// Accumulated near-density, never below `DENSITY_PADDING`.
    pub near_density: i64,
    /// Pressure derived from density; negative below the target density.
    pub pressure: i64,
    /// Near-pressure derived from near-density; never negative.
    pub near_pressure: i64,
}

impl FluidParticle {
    /// Validity: every field sits inside the range for which the solver
    /// passes are proved exact and overflow-free.
    pub open spec fn wf(&self) -> bool {
        &&& -COORD_LIMIT <= self.position.x <= COORD_LIMIT
        &&& -COORD_LIMIT <= self.position.y <= COORD_LIMIT
        &&& -VEL_LIMIT <= self.velocity.x <= VEL_LIMIT
        &&& -VEL_LIMIT <= self.velocity.y <= VEL_LIMIT
        &&& -ACC_LIMIT <= self.acceleration.x <= ACC_LIMIT
        &&& -ACC_LIMIT <= self.acceleration.y <= ACC_LIMIT
        &&& -PRED_LIMIT <= self.predicted_position.x <= PRED_LIMIT
        &&& -PRED_LIMIT <= self.predicted_position.y <= PRED_LIMIT
        &&& DENSITY_PADDING <= self.density <= DENSITY_LIMIT
        &&& DENSITY_PADDING <= self.near_density <= NEAR_DENSITY_LIMIT
        &&& -PRESSURE_LIMIT <= self.pressure <= PRESSURE_LIMIT
        &&& 0 <= self.near_pressure <= NEAR_PRESSURE_LIMIT
    }
}

/// A particle freshly spawned at `p`: at rest, with its predicted position
/// at its position and its densities at the padding floor.
pub open spec fn initial_particle(p: IVec2) -> FluidParticle {
    FluidParticle {
        position: p,
        velocity: IVec2 { x: 0, y: 0 },
        acceleration: IVec2 { x: 0, y: 0 },
        predicted_position: p,
        density: DENSITY_PADDING,
        near_density: DENSITY_PADDING,
        pressure: 0,
        near_pressure: 0,
    }
}

/// The particle buffer spawned from a sequence of positions.
pub open spec fn initial_buffer(positions: Seq<IVec2>) -> Seq<FluidParticle> {
    Seq::new(positions.len(), |i: int| initial_particle(positions[i]))
}

/// The identity permutation handed to the sorting stage of a fresh index.
pub open spec fn initial_indices(n: nat) -> Seq<u32> {
    Seq::new(n, |i: int| i as u32)
}

/// Bulk creation and reset of the simulation state.
pub struct FluidWorker;

impl FluidWorker {
    /// Build the particle buffer and the identity index buffer from spawn
    /// positions. The result is a pure function of the positions, so a
    /// second reset from the same positions yields an identical buffer.
    pub fn create_initial_data_buffer(positions: &Vec<IVec2>) -> (r: (Vec<FluidParticle>, Vec<u32>))
        requires
            positions@.len() <= 0xffffffff,
            forall|i: int|
                0 <= i < positions@.len() ==> -COORD_LIMIT <= #[trigger] positions@[i].x
                    <= COORD_LIMIT && -COORD_LIMIT <= positions@[i].y <= COORD_LIMIT,
        ensures
            r.0@ == initial_buffer(positions@),
            r.1@ == initial_indices(positions@.len()),
            forall|i: int| 0 <= i < r.0@.len() ==> #[trigger] r.0@[i].wf(),
    {
        let n: usize = positions.len();
        let mut particles: Vec<FluidParticle> = Vec::new();
        let mut indices: Vec<u32> = Vec::new();
        let mut it: usize = 0;
        while it < n
            invariant
                it <= n,
                n == positions@.len(),
                n <= 0xffffffff,
                particles@.len() == it,
                indices@.len() == it,
                forall|i: int|
                    0 <= i < n ==> -COORD_LIMIT <= #[trigger] positions@[i].x <= COORD_LIMIT
                        && -COORD_LIMIT <= positions@[i].y <= COORD_LIMIT,
                forall|i: int|
                    0 <= i < it ==> #[trigger] particles@[i] == initial_particle(positions@[i]),
                forall|i: int| 0 <= i < it ==> #[trigger] indices@[i] == i as u32,
            decreases n - it,
        {
            let p: IVec2 = positions[it];
            particles.push(
                FluidParticle {
                    position: p,
                    velocity: IVec2 { x: 0, y: 0 },
                    acceleration: IVec2 { x: 0, y: 0 },
                    predicted_position: p,
                    density: DENSITY_PADDING,
                    near_density: DENSITY_PADDING,
                    pressure: 0,
                    near_pressure: 0,
                },
            );
            indices.push(it as u32);
            it = it + 1;
        }
        proof {
            assert(particles@ =~= initial_buffer(positions@));
            assert(indices@ =~= initial_indices(positions@.len()));
        }
        (particles, indices)
    }
}

/// Resetting is idempotent: two resets from the same spawn positions yield
/// the identical particle buffer.
pub proof fn lemma_reset_idempotent(positions: Seq<IVec2>, first: Seq<FluidParticle>, second: Seq<FluidParticle>)
    requires
        first == initial_buffer(positions),
        second == initial_buffer(positions),
    ensures
        first == second,
{
}

} // verus!
