//! The static tunables shared read-only by every solver pass, and the
//! live-edit commands that adjust them between ticks.

use vstd::prelude::*;
use crate::math::{
    DT_LIMIT, DAMPING_SCALE, MASS_LIMIT, RADIUS_LIMIT, TARGET_DENSITY_LIMIT, SCALAR_LIMIT,
    FORCE_LIMIT,
};
use crate::gravity::Gravity;

verus! {

/// Step by which one live-edit command moves its parameter.
pub const PROPS_CHANGE_STEP: i64 = 1;

/// The static simulation parameters. All passes read them; none mutates
/// them; the embedding host may edit them between ticks.
#[derive(Clone, Copy, PartialEq, Eq, Structural, Debug)]
pub struct FluidStaticProps {
    /// Fixed timestep of one tick, in time units.
    pub delta_time: i64,
    /// Velocity kept on a wall bounce, as a fraction of `DAMPING_SCALE`.
    pub collision_damping: i64,
    /// Mass of one particle.
    pub mass: i64,
    /// Visual radius of one particle; pads the container walls.
    pub radius: i64,
    /// Interaction cutoff of the smoothing kernels.
    pub smoothing_radius: i64,
    /// Density at which pressure changes sign.
    pub target_density: i64,
    /// Scale of the pressure term.
    pub pressure_scalar: i64,
    /// Scale of the anti-clumping near-pressure term; never negative.
    pub near_pressure_scalar: i64,
    /// Scale of the viscosity term; never negative.
    pub viscosity_strength: i64,
}

impl FluidStaticProps {
    /// Validity of a parameter set: each tunable sits inside the range for
    /// which every solver formula is proved exact.
    pub open spec fn wf(&self) -> bool {
        &&& 0 < self.delta_time <= DT_LIMIT
        &&& 0 <= self.collision_damping <= DAMPING_SCALE
        &&& 0 < self.mass <= MASS_LIMIT
        &&& 0 < self.radius <= RADIUS_LIMIT
        &&& 0 < self.smoothing_radius <= RADIUS_LIMIT
        &&& 0 < self.target_density <= TARGET_DENSITY_LIMIT
        &&& -SCALAR_LIMIT <= self.pressure_scalar <= SCALAR_LIMIT
        &&& 0 <= self.near_pressure_scalar <= SCALAR_LIMIT
        &&& 0 <= self.viscosity_strength <= SCALAR_LIMIT
    }
}

impl Default for FluidStaticProps {
    /// A parameter set for water-like behaviour at the default unit scale.
    fn default() -> (p: Self)
        ensures
            p.wf(),
            p.delta_time == 1,
            p.collision_damping == 972,
            p.mass == 1,
            p.radius == 50,
            p.smoothing_radius == 200,
            p.target_density == 10,
            p.pressure_scalar == 30,
            p.near_pressure_scalar == 1,
            p.viscosity_strength == 1,
    {
        Self {
            delta_time: 1,
            collision_damping: 972,
            mass: 1,
            radius: 50,
            smoothing_radius: 200,
            target_density: 10,
            pressure_scalar: 30,
            near_pressure_scalar: 1,
            viscosity_strength: 1,
        }
    }
}

/// A live parameter-edit command: which tunable to nudge, and in which
/// direction.
#[derive(Clone, Copy, PartialEq, Eq, Structural, Debug)]
pub enum PropsCommand {
    SmoothingRadiusDown,
    SmoothingRadiusUp,
    GravityUp,
    GravityDown,
    PressureScalarDown,
    PressureScalarUp,
    NearPressureScalarDown,
    NearPressureScalarUp,
    TargetDensityDown,
    TargetDensityUp,
}

/// Apply one edit command to the parameters or to gravity. Each command
/// moves its field by `PROPS_CHANGE_STEP`; a move that would leave the
/// field's valid range is ignored, so validity is preserved.
pub fn update_fluid_props(props: &mut FluidStaticProps, gravity: &mut Gravity, command: PropsCommand)
    requires
        old(props).wf(),
        old(gravity).wf(),
    ensures
        final(props).wf(),
        final(gravity).wf(),
        command == PropsCommand::SmoothingRadiusDown ==> *final(props) == (
        if old(props).smoothing_radius - PROPS_CHANGE_STEP > 0 {
            FluidStaticProps { smoothing_radius: (old(props).smoothing_radius - PROPS_CHANGE_STEP) as i64, ..*old(props) }
        } else {
            *old(props)
        }),
        command == PropsCommand::SmoothingRadiusUp ==> *final(props) == (
        if old(props).smoothing_radius + PROPS_CHANGE_STEP <= RADIUS_LIMIT {
            FluidStaticProps { smoothing_radius: (old(props).smoothing_radius + PROPS_CHANGE_STEP) as i64, ..*old(props) }
        } else {
            *old(props)
        }),
        command == PropsCommand::PressureScalarDown ==> *final(props) == (
        if old(props).pressure_scalar - PROPS_CHANGE_STEP >= -SCALAR_LIMIT {
            FluidStaticProps { pressure_scalar: (old(props).pressure_scalar - PROPS_CHANGE_STEP) as i64, ..*old(props) }
        } else {
            *old(props)
        }),
        command == PropsCommand::PressureScalarUp ==> *final(props) == (
        if old(props).pressure_scalar + PROPS_CHANGE_STEP <= SCALAR_LIMIT {
            FluidStaticProps { pressure_scalar: (old(props).pressure_scalar + PROPS_CHANGE_STEP) as i64, ..*old(props) }
        } else {
            *old(props)
        }),
        command == PropsCommand::NearPressureScalarDown ==> *final(props) == (
        if old(props).near_pressure_scalar - PROPS_CHANGE_STEP >= 0 {
            FluidStaticProps { near_pressure_scalar: (old(props).near_pressure_scalar - PROPS_CHANGE_STEP) as i64, ..*old(props) }
        } else {
            *old(props)
        }),
        command == PropsCommand::NearPressureScalarUp ==> *final(props) == (
        if old(props).near_pressure_scalar + PROPS_CHANGE_STEP <= SCALAR_LIMIT {
            FluidStaticProps { near_pressure_scalar: (old(props).near_pressure_scalar + PROPS_CHANGE_STEP) as i64, ..*old(props) }
        } else {
            *old(props)
        }),
        command == PropsCommand::TargetDensityDown ==> *final(props) == (
        if old(props).target_density - PROPS_CHANGE_STEP > 0 {
            FluidStaticProps { target_density: (old(props).target_density - PROPS_CHANGE_STEP) as i64, ..*old(props) }
        } else {
            *old(props)
        }),
        command == PropsCommand::TargetDensityUp ==> *final(props) == (
        if old(props).target_density + PROPS_CHANGE_STEP <= TARGET_DENSITY_LIMIT {
            FluidStaticProps { target_density: (old(props).target_density + PROPS_CHANGE_STEP) as i64, ..*old(props) }
        } else {
            *old(props)
        }),
        command == PropsCommand::GravityUp ==> *final(props) == *old(props)
            && final(gravity).value.x == old(gravity).value.x && final(gravity).value.y == (
        if old(gravity).value.y + PROPS_CHANGE_STEP <= FORCE_LIMIT {
            old(gravity).value.y + PROPS_CHANGE_STEP
        } else {
            old(gravity).value.y as int
        }),
        command == PropsCommand::GravityDown ==> *final(props) == *old(props)
            && final(gravity).value.x == old(gravity).value.x && final(gravity).value.y == (
        if old(gravity).value.y - PROPS_CHANGE_STEP >= -FORCE_LIMIT {
            old(gravity).value.y - PROPS_CHANGE_STEP
        } else {
            old(gravity).value.y as int
        }),
        !(command == PropsCommand::GravityUp || command == PropsCommand::GravityDown)
            ==> *final(gravity) == *old(gravity),
{
    match command {
        PropsCommand::SmoothingRadiusDown => {
            if props.smoothing_radius - PROPS_CHANGE_STEP > 0 {
                props.smoothing_radius = props.smoothing_radius - PROPS_CHANGE_STEP;
            }
        },
        PropsCommand::SmoothingRadiusUp => {
            if props.smoothing_radius + PROPS_CHANGE_STEP <= RADIUS_LIMIT {
                props.smoothing_radius = props.smoothing_radius + PROPS_CHANGE_STEP;
            }
        },
        PropsCommand::GravityUp => {
            if gravity.value.y + PROPS_CHANGE_STEP <= FORCE_LIMIT {
                gravity.value.y = gravity.value.y + PROPS_CHANGE_STEP;
            }
        },
        PropsCommand::GravityDown => {
            if gravity.value.y - PROPS_CHANGE_STEP >= -FORCE_LIMIT {
                gravity.value.y = gravity.value.y - PROPS_CHANGE_STEP;
            }
        },
        PropsCommand::PressureScalarDown => {
            if props.pressure_scalar - PROPS_CHANGE_STEP >= -SCALAR_LIMIT {
                props.pressure_scalar = props.pressure_scalar - PROPS_CHANGE_STEP;
            }
        },
        PropsCommand::PressureScalarUp => {
            if props.pressure_scalar + PROPS_CHANGE_STEP <= SCALAR_LIMIT {
                props.pressure_scalar = props.pressure_scalar + PROPS_CHANGE_STEP;
            }
        },
        PropsCommand::NearPressureScalarDown => {
            if props.near_pressure_scalar - PROPS_CHANGE_STEP >= 0 {
                props.near_pressure_scalar = props.near_pressure_scalar - PROPS_CHANGE_STEP;
            }
        },
        PropsCommand::NearPressureScalarUp => {
            if props.near_pressure_scalar + PROPS_CHANGE_STEP <= SCALAR_LIMIT {
                props.near_pressure_scalar = props.near_pressure_scalar + PROPS_CHANGE_STEP;
            }
        },
        PropsCommand::TargetDensityDown => {
            if props.target_density - PROPS_CHANGE_STEP > 0 {
                props.target_density = props.target_density - PROPS_CHANGE_STEP;
            }
        },
        PropsCommand::TargetDensityUp => {
            if props.target_density + PROPS_CHANGE_STEP <= TARGET_DENSITY_LIMIT {
                props.target_density = props.target_density + PROPS_CHANGE_STEP;
            }
        },
    }
}

} // verus!
