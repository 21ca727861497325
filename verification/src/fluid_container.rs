//! The rectangular container that bounds the fluid: a centre and a size,
//! from which collision queries derive padded axis-aligned extents.

use vstd::prelude::*;
use crate::math::{IVec2, COORD_LIMIT, RADIUS_LIMIT};

verus! {

/// Default container size at the default unit scale.
pub const FLUID_CONTAINER_SIZE_X: i64 = 16000;

/// Default container size at the default unit scale.
pub const FLUID_CONTAINER_SIZE_Y: i64 = 9000;

/// World-space extents of the container, already padded for a particle
/// radius: the range positions are clamped into.
#[derive(Clone, Copy, PartialEq, Eq, Structural, Debug)]
pub struct FluidContainerExt {
    pub ext_min: IVec2,
    pub ext_max: IVec2,
}

/// The container: a centre position and a full size per axis.
#[derive(Clone, Copy, PartialEq, Eq, Structural, Debug)]
pub struct FluidContainer {
    pub position: IVec2,
    pub size: IVec2,
}

impl FluidContainer {
    /// The container's walls lie within the coordinate range of the model.
    pub open spec fn wf(&self) -> bool {
        &&& 0 <= self.size.x <= 2 * COORD_LIMIT
        &&& 0 <= self.size.y <= 2 * COORD_LIMIT
        &&& -COORD_LIMIT <= self.position.x - self.size.x / 2
        &&& self.position.x + self.size.x / 2 <= COORD_LIMIT
        &&& -COORD_LIMIT <= self.position.y - self.size.y / 2
        &&& self.position.y + self.size.y / 2 <= COORD_LIMIT
    }

    /// Lower wall on the x axis, padded inward by `padding`.
    pub open spec fn ext_min_x(&self, padding: int) -> int {
        self.position.x - self.size.x / 2 + padding
    }

    /// Lower wall on the y axis, padded inward by `padding`.
    pub open spec fn ext_min_y(&self, padding: int) -> int {
        self.position.y - self.size.y / 2 + padding
    }

    /// Upper wall on the x axis, padded inward by `padding`.
    pub open spec fn ext_max_x(&self, padding: int) -> int {
        self.position.x + self.size.x / 2 - padding
    }

    /// Upper wall on the y axis, padded inward by `padding`.
    pub open spec fn ext_max_y(&self, padding: int) -> int {
        self.position.y + self.size.y / 2 - padding
    }

    /// The padded extents as a value, exact under `wf`.
    pub open spec fn spec_ext(&self, padding: int) -> FluidContainerExt {
        FluidContainerExt {
            ext_min: IVec2 { x: self.ext_min_x(padding) as i64, y: self.ext_min_y(padding) as i64 },
            ext_max: IVec2 { x: self.ext_max_x(padding) as i64, y: self.ext_max_y(padding) as i64 },
        }
    }

    /// The extents, shrunk by `padding` on every side so that a particle's
    /// visual edge, not its centre, stays inside the walls.
    pub fn get_ext(&self, padding: i64) -> (ext: FluidContainerExt)
        requires
            self.wf(),
            0 <= padding <= RADIUS_LIMIT,
        ensures
            ext == self.spec_ext(padding as int),
            ext.ext_min.x == self.ext_min_x(padding as int),
            ext.ext_min.y == self.ext_min_y(padding as int),
            ext.ext_max.x == self.ext_max_x(padding as int),
            ext.ext_max.y == self.ext_max_y(padding as int),
            -COORD_LIMIT <= ext.ext_min.x,
            ext.ext_max.x <= COORD_LIMIT,
            -COORD_LIMIT <= ext.ext_min.y,
            ext.ext_max.y <= COORD_LIMIT,
    {
        let half_x: i64 = ((self.size.x as u64) / 2) as i64;
        let half_y: i64 = ((self.size.y as u64) / 2) as i64;
        FluidContainerExt {
            ext_min: IVec2 { x: self.position.x - half_x + padding, y: self.position.y - half_y + padding },
            ext_max: IVec2 { x: self.position.x + half_x - padding, y: self.position.y + half_y - padding },
        }
    }
}

impl Default for FluidContainer {
    /// The default container, centred at the origin.
    fn default() -> (c: Self)
        ensures
            c.position.x == 0,
            c.position.y == 0,
            c.size.x == FLUID_CONTAINER_SIZE_X,
            c.size.y == FLUID_CONTAINER_SIZE_Y,
            c.wf(),
    {
        Self {
            position: IVec2 { x: 0, y: 0 },
            size: IVec2 { x: FLUID_CONTAINER_SIZE_X, y: FLUID_CONTAINER_SIZE_Y },
        }
    }
}

} // verus!
