//! The world-space cursor force: a point, a radius of influence, and a
//! signed magnitude. Particles within the radius receive a flat acceleration
//! toward the point (positive force) or away from it (negative force).

use vstd::prelude::*;
use crate::math::{IVec2, COORD_LIMIT, FORCE_LIMIT};

verus! {

/// Default radius of influence of the cursor.
pub const CURSOR_RADIUS: i64 = 2000;

/// Magnitude of the cursor force while a pull or push is requested.
pub const CURSOR_FORCE: i64 = 20;

/// Cursor state handed into the integrator each tick.
#[derive(Clone, Copy, PartialEq, Eq, Structural, Debug)]
pub struct WorldCursor {
    pub position: IVec2,
    pub radius: i64,
    pub force: i64,
}

impl WorldCursor {
    /// The cursor stays within the coordinate range and its force within the
    /// external-force range the integrator accepts.
    pub open spec fn wf(&self) -> bool {
        &&& -COORD_LIMIT <= self.position.x <= COORD_LIMIT
        &&& -COORD_LIMIT <= self.position.y <= COORD_LIMIT
        &&& 0 <= self.radius <= 4 * COORD_LIMIT
        &&& -FORCE_LIMIT <= self.force <= FORCE_LIMIT
    }

    /// No force requested.
    pub fn set_idle(&mut self)
        ensures
            final(self).force == 0,
            final(self).position == old(self).position,
            final(self).radius == old(self).radius,
    {
        self.force = 0;
    }

    /// Pull particles toward the cursor.
    pub fn set_inward(&mut self)
        ensures
            final(self).force == CURSOR_FORCE,
            final(self).position == old(self).position,
            final(self).radius == old(self).radius,
    {
        self.force = CURSOR_FORCE;
    }

    /// Push particles away from the cursor.
    pub fn set_outward(&mut self)
        ensures
            final(self).force == -CURSOR_FORCE,
            final(self).position == old(self).position,
            final(self).radius == old(self).radius,
    {
        self.force = -CURSOR_FORCE;
    }
}

impl Default for WorldCursor {
    /// An idle cursor at the origin with the default radius of influence.
    fn default() -> (c: Self)
        ensures
            c.position.x == 0,
            c.position.y == 0,
            c.radius == CURSOR_RADIUS,
            c.force == 0,
            c.wf(),
    {
        Self { position: IVec2 { x: 0, y: 0 }, radius: CURSOR_RADIUS, force: 0 }
    }
}

} // verus!
