//! The gravity vector applied to every particle, togglable at runtime.

use vstd::prelude::*;
use crate::math::{IVec2, FORCE_LIMIT};

verus! {

/// Default magnitude of gravity, in acceleration units of the model.
pub const GRAVITY_FORCE: i64 = 98;

/// Global gravity, an acceleration added to every particle each tick.
#[derive(Clone, Copy, PartialEq, Eq, Structural, Debug)]
pub struct Gravity {
    pub value: IVec2,
}

impl Gravity {
    /// Gravity components stay within the external-force range the
    /// integrator accepts.
    pub open spec fn wf(&self) -> bool {
        &&& -FORCE_LIMIT <= self.value.x <= FORCE_LIMIT
        &&& -FORCE_LIMIT <= self.value.y <= FORCE_LIMIT
    }

    /// Build a gravity vector.
    pub fn new(value: IVec2) -> (g: Self)
        ensures
            g.value == value,
    {
        Self { value }
    }

    /// Switch gravity off.
    pub fn set_zero(&mut self)
        ensures
            final(self).value.x == 0,
            final(self).value.y == 0,
            final(self).wf(),
    {
        self.value = IVec2::zero();
    }

    /// Restore the default downward gravity.
    pub fn set_default(&mut self)
        ensures
            final(self).value.x == 0,
            final(self).value.y == -GRAVITY_FORCE,
            final(self).wf(),
    {
        self.value = IVec2::new(0, -GRAVITY_FORCE);
    }
}

impl Default for Gravity {
    /// Downward gravity of the default magnitude.
    fn default() -> (g: Self)
        ensures
            g.value.x == 0,
            g.value.y == -GRAVITY_FORCE,
            g.wf(),
    {
        Self { value: IVec2 { x: 0, y: -GRAVITY_FORCE } }
    }
}

} // verus!
