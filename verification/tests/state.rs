use fluid_sim::math::IVec2;
use fluid_sim::params::{FluidStaticProps, PropsCommand, update_fluid_props, PROPS_CHANGE_STEP};
use fluid_sim::gravity::{Gravity, GRAVITY_FORCE};
use fluid_sim::cursor::{WorldCursor, CURSOR_FORCE, CURSOR_RADIUS};
use fluid_sim::fluid_container::FluidContainer;
use fluid_sim::helpers::cube_fluid;

#[test]
fn default_parameters() {
    let props = FluidStaticProps::default();
    assert_eq!(props.delta_time, 1);
    assert_eq!(props.collision_damping, 972);
    assert_eq!(props.mass, 1);
    assert_eq!(props.radius, 50);
    assert_eq!(props.smoothing_radius, 200);
    assert_eq!(props.target_density, 10);
    assert_eq!(props.pressure_scalar, 30);
    assert_eq!(props.near_pressure_scalar, 1);
    assert_eq!(props.viscosity_strength, 1);
}

#[test]
fn parameter_edits_move_fields_by_one_step() {
    let mut props = FluidStaticProps::default();
    let mut gravity = Gravity::default();
    update_fluid_props(&mut props, &mut gravity, PropsCommand::SmoothingRadiusUp);
    assert_eq!(props.smoothing_radius, 200 + PROPS_CHANGE_STEP);
    update_fluid_props(&mut props, &mut gravity, PropsCommand::SmoothingRadiusDown);
    update_fluid_props(&mut props, &mut gravity, PropsCommand::SmoothingRadiusDown);
    assert_eq!(props.smoothing_radius, 200 - PROPS_CHANGE_STEP);
    update_fluid_props(&mut props, &mut gravity, PropsCommand::PressureScalarUp);
    assert_eq!(props.pressure_scalar, 30 + PROPS_CHANGE_STEP);
    update_fluid_props(&mut props, &mut gravity, PropsCommand::TargetDensityDown);
    assert_eq!(props.target_density, 10 - PROPS_CHANGE_STEP);
    update_fluid_props(&mut props, &mut gravity, PropsCommand::GravityUp);
    assert_eq!(gravity.value.y, -GRAVITY_FORCE + PROPS_CHANGE_STEP);
    update_fluid_props(&mut props, &mut gravity, PropsCommand::GravityDown);
    assert_eq!(gravity.value.y, -GRAVITY_FORCE);
}

#[test]
fn parameter_edits_respect_floors() {
    // The smoothing radius may never reach zero; an edit that would take it
    // there is ignored.
    let mut props = FluidStaticProps::default();
    props.smoothing_radius = 1;
    let mut gravity = Gravity::default();
    update_fluid_props(&mut props, &mut gravity, PropsCommand::SmoothingRadiusDown);
    assert_eq!(props.smoothing_radius, 1);
    props.near_pressure_scalar = 0;
    update_fluid_props(&mut props, &mut gravity, PropsCommand::NearPressureScalarDown);
    assert_eq!(props.near_pressure_scalar, 0);
}

#[test]
fn gravity_toggles() {
    let mut gravity = Gravity::default();
    assert_eq!(gravity.value, IVec2::new(0, -GRAVITY_FORCE));
    gravity.set_zero();
    assert_eq!(gravity.value, IVec2::new(0, 0));
    gravity.set_default();
    assert_eq!(gravity.value, IVec2::new(0, -GRAVITY_FORCE));
    assert_eq!(Gravity::new(IVec2::new(3, 4)).value, IVec2::new(3, 4));
}

#[test]
fn cursor_modes() {
    let mut cursor = WorldCursor::default();
    assert_eq!(cursor.force, 0);
    assert_eq!(cursor.radius, CURSOR_RADIUS);
    cursor.set_inward();
    assert_eq!(cursor.force, CURSOR_FORCE);
    cursor.set_outward();
    assert_eq!(cursor.force, -CURSOR_FORCE);
    cursor.set_idle();
    assert_eq!(cursor.force, 0);
}

#[test]
fn container_extents_are_padded() {
    let container = FluidContainer::default();
    let ext = container.get_ext(50);
    assert_eq!(ext.ext_min, IVec2::new(-7950, -4450));
    assert_eq!(ext.ext_max, IVec2::new(7950, 4450));
    let unpadded = container.get_ext(0);
    assert_eq!(unpadded.ext_min, IVec2::new(-8000, -4500));
    assert_eq!(unpadded.ext_max, IVec2::new(8000, 4500));
    let shifted = FluidContainer { position: IVec2::new(100, -200), size: IVec2::new(1000, 500) };
    let ext2 = shifted.get_ext(10);
    assert_eq!(ext2.ext_min, IVec2::new(100 - 500 + 10, -200 - 250 + 10));
    assert_eq!(ext2.ext_max, IVec2::new(100 + 500 - 10, -200 + 250 - 10));
}

#[test]
fn cube_fluid_lays_out_a_centred_grid() {
    let points = cube_fluid(2, 2, 50);
    assert_eq!(points.len(), 4);
    assert_eq!(points[0], IVec2::new(-50, -50));
    assert_eq!(points[1], IVec2::new(-50, 50));
    assert_eq!(points[2], IVec2::new(50, -50));
    assert_eq!(points[3], IVec2::new(50, 50));
    // Spacing is one diameter; the grid is centred on the origin.
    let bigger = cube_fluid(3, 1, 10);
    assert_eq!(bigger.len(), 3);
    assert_eq!(bigger[0], IVec2::new(-20, 0));
    assert_eq!(bigger[1], IVec2::new(0, 0));
    assert_eq!(bigger[2], IVec2::new(20, 0));
}
