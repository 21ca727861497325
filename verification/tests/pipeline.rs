use fluid_sim::math::IVec2;
use fluid_sim::smoothing::DENSITY_PADDING;
use fluid_sim::params::FluidStaticProps;
use fluid_sim::particle::{FluidWorker, FluidParticle};
use fluid_sim::fluid::{
    update_density_and_pressure, update_pressure_force, integrate_positions, simulation_step,
};
use fluid_sim::fluid_container::FluidContainer;
use fluid_sim::gravity::Gravity;
use fluid_sim::cursor::WorldCursor;
use fluid_sim::spatial::SpatialIndex;
use fluid_sim::fluid_compute::{
    update_density_and_pressure_indexed, update_pressure_force_indexed,
    collect_predicted_positions, simulation_step_indexed,
};

fn props_for_pair_test() -> FluidStaticProps {
    FluidStaticProps {
        delta_time: 1,
        collision_damping: 972,
        mass: 1,
        radius: 50,
        smoothing_radius: 205,
        target_density: 1,
        pressure_scalar: 30,
        near_pressure_scalar: 1,
        viscosity_strength: 1,
    }
}

fn big_container() -> FluidContainer {
    FluidContainer { position: IVec2::new(0, 0), size: IVec2::new(2_000_000, 2_000_000) }
}

fn spawn(positions: &[(i64, i64)]) -> Vec<FluidParticle> {
    let points: Vec<IVec2> = positions.iter().map(|&(x, y)| IVec2::new(x, y)).collect();
    FluidWorker::create_initial_data_buffer(&points).0
}

#[test]
fn density_floor_holds_for_any_configuration() {
    let props = props_for_pair_test();
    for positions in [
        vec![],
        vec![(0, 0)],
        vec![(0, 0), (0, 0)], // coincident
        vec![(-102, 0), (102, 0)],
        vec![(-500, 600), (700, -800), (0, 0), (3, 4)],
    ] {
        let particles = spawn(&positions);
        let out = update_density_and_pressure(&particles, &props);
        assert_eq!(out.len(), particles.len());
        for p in &out {
            assert!(p.density >= DENSITY_PADDING);
            assert!(p.near_density >= DENSITY_PADDING);
            assert!(p.near_pressure >= 0);
        }
    }
}

#[test]
fn isolated_particle_includes_itself_in_density() {
    let props = props_for_pair_test();
    let particles = spawn(&[(0, 0)]);
    let out = update_density_and_pressure(&particles, &props);
    // Self-contribution at distance zero: density = padding + mass * r^2.
    assert_eq!(out[0].density, DENSITY_PADDING + 205 * 205);
}

#[test]
fn symmetric_pair_repels_with_opposite_accelerations() {
    // Two particles at rest, opposite positions inside each other's
    // smoothing radius, no gravity: both must be pushed apart along x, with
    // equal magnitudes. (A pair exactly at the cutoff distance feels nothing:
    // the kernels vanish there; these sit well inside.)
    let props = FluidStaticProps {
        delta_time: 1,
        collision_damping: 972,
        mass: 1,
        radius: 5,
        smoothing_radius: 21,
        target_density: 1,
        pressure_scalar: 200,
        near_pressure_scalar: 200,
        viscosity_strength: 1,
    };
    let particles = spawn(&[(-5, 0), (5, 0)]);
    let dense = update_density_and_pressure(&particles, &props);
    assert_eq!(dense[0].density, dense[1].density);
    assert!(dense[0].pressure > 0);
    let forced = update_pressure_force(&dense, &props);
    let a = forced[0].acceleration;
    let b = forced[1].acceleration;
    assert!(a.x < 0, "left particle must accelerate further left, got {}", a.x);
    assert!(b.x > 0, "right particle must accelerate further right, got {}", b.x);
    assert_eq!(a.x, -b.x);
    assert_eq!(a.y, 0);
    assert_eq!(b.y, 0);
}

#[test]
fn free_fall_matches_closed_form() {
    // A single particle dropped from rest under gravity, zero pressure and
    // viscosity: after t ticks v = g*t and y = y0 + g * t*(t+1)/2 (explicit
    // Euler with the velocity updated first).
    let props = FluidStaticProps {
        delta_time: 1,
        collision_damping: 972,
        mass: 1,
        radius: 50,
        smoothing_radius: 205,
        target_density: 1,
        pressure_scalar: 0,
        near_pressure_scalar: 0,
        viscosity_strength: 0,
    };
    let container = big_container();
    let gravity = Gravity { value: IVec2::new(0, -98) };
    let cursor = WorldCursor { position: IVec2::new(0, 0), radius: 0, force: 0 };
    let y0 = 500_000;
    let mut particles = spawn(&[(0, y0)]);
    let t = 10;
    for _ in 0..t {
        simulation_step(&mut particles, &props, &container, &gravity, &cursor);
    }
    assert_eq!(particles[0].velocity.y, -98 * t);
    assert_eq!(particles[0].position.y, y0 - 98 * t * (t + 1) / 2);
    assert_eq!(particles[0].velocity.x, 0);
    assert_eq!(particles[0].position.x, 0);
}

#[test]
fn boundary_containment_after_collision() {
    // Whatever the starting positions and velocities, after one integration
    // every particle lies within the padded extents.
    let props = props_for_pair_test();
    let container = FluidContainer::default();
    let gravity = Gravity::default();
    let cursor = WorldCursor::default();
    let ext = container.get_ext(props.radius);
    let mut particles = spawn(&[(-900_000, 0), (900_000, 12_000), (0, -600_000), (7_950, 4_430)]);
    particles[0].velocity = IVec2::new(-1_000_000, 55);
    particles[1].velocity = IVec2::new(999_999, 999_999);
    particles[2].velocity = IVec2::new(3, -4);
    let out = integrate_positions(&particles, &props, &container, &gravity, &cursor);
    assert_eq!(out.len(), particles.len());
    for p in &out {
        assert!(ext.ext_min.x <= p.position.x && p.position.x <= ext.ext_max.x);
        assert!(ext.ext_min.y <= p.position.y && p.position.y <= ext.ext_max.y);
    }
}

#[test]
fn wall_bounce_dissipates_speed() {
    // A particle driven through the right wall: it is clamped onto the wall
    // and its x velocity is reflected with damping strictly below 1, so the
    // reflected speed is strictly smaller.
    let props = props_for_pair_test();
    let container = FluidContainer::default(); // extents x: [-8000, 8000], padded by 50
    let gravity = Gravity { value: IVec2::new(0, 0) };
    let cursor = WorldCursor { position: IVec2::new(0, 0), radius: 0, force: 0 };
    let mut particles = spawn(&[(7_900, 0)]);
    particles[0].velocity = IVec2::new(1000, 0);
    let out = integrate_positions(&particles, &props, &container, &gravity, &cursor);
    assert_eq!(out[0].position.x, 7_950); // the padded wall
    assert_eq!(out[0].velocity.x, -949); // -floor(1000 * 972 / 1024)
    assert!(out[0].velocity.x.abs() < 1000);
}

#[test]
fn cursor_force_pulls_particles_inward() {
    let props = props_for_pair_test();
    let container = FluidContainer::default();
    let gravity = Gravity { value: IVec2::new(0, 0) };
    let mut cursor = WorldCursor::default();
    cursor.position = IVec2::new(1000, 0);
    cursor.set_inward();
    let particles = spawn(&[(0, 0)]);
    let out = integrate_positions(&particles, &props, &container, &gravity, &cursor);
    // Flat pull of magnitude `force` along +x, applied to the velocity.
    assert_eq!(out[0].velocity.x, 20);
    assert_eq!(out[0].velocity.y, 0);
    assert_eq!(out[0].position.x, 20);
}

#[test]
fn reset_is_idempotent() {
    let points = fluid_sim::helpers::cube_fluid(8, 8, 50);
    let (first_particles, first_indices) = FluidWorker::create_initial_data_buffer(&points);
    let (second_particles, second_indices) = FluidWorker::create_initial_data_buffer(&points);
    assert_eq!(first_particles, second_particles);
    assert_eq!(first_indices, second_indices);
    // A reset buffer is at rest, at the spawn positions, with padded density.
    for (k, p) in first_particles.iter().enumerate() {
        assert_eq!(p.position, points[k]);
        assert_eq!(p.predicted_position, points[k]);
        assert_eq!(p.velocity, IVec2::new(0, 0));
        assert_eq!(p.acceleration, IVec2::new(0, 0));
        assert_eq!(p.density, DENSITY_PADDING);
        assert_eq!(first_indices[k], k as u32);
    }
}

#[test]
fn indexed_density_pass_matches_all_pairs_pass() {
    let props = props_for_pair_test();
    let mut state: u64 = 0x9E3779B97F4A7C15;
    let mut next = move || {
        state ^= state << 13;
        state ^= state >> 7;
        state ^= state << 17;
        state
    };
    let mut positions = Vec::new();
    for _ in 0..70 {
        let x = (next() % 2400) as i64 - 1200;
        let y = (next() % 2400) as i64 - 1200;
        positions.push((x, y));
    }
    let particles = spawn(&positions);
    let predicted = collect_predicted_positions(&particles);
    let index = SpatialIndex::build(&predicted, props.smoothing_radius);
    let all_pairs = update_density_and_pressure(&particles, &props);
    let indexed = update_density_and_pressure_indexed(&particles, &props, &index);
    assert_eq!(all_pairs, indexed);
    // The force pass agrees as well, reading the same index.
    let forces_all_pairs = update_pressure_force(&all_pairs, &props);
    let forces_indexed = update_pressure_force_indexed(&indexed, &props, &index);
    assert_eq!(forces_all_pairs, forces_indexed);
}

#[test]
fn indexed_tick_matches_all_pairs_tick() {
    let props = FluidStaticProps::default();
    let container = FluidContainer::default();
    let gravity = Gravity::default();
    let cursor = WorldCursor::default();
    let points = fluid_sim::helpers::cube_fluid(6, 6, 50);
    let mut plain = FluidWorker::create_initial_data_buffer(&points).0;
    let mut indexed = plain.clone();
    for _ in 0..4 {
        simulation_step(&mut plain, &props, &container, &gravity, &cursor);
        simulation_step_indexed(&mut indexed, &props, &container, &gravity, &cursor);
        assert_eq!(plain, indexed);
    }
}

#[test]
fn two_resets_of_the_same_layout_agree_after_a_step() {
    // Determinism end to end: the same spawn evolves identically.
    let props = props_for_pair_test();
    let container = FluidContainer::default();
    let gravity = Gravity::default();
    let cursor = WorldCursor::default();
    let points = fluid_sim::helpers::cube_fluid(5, 5, 50);
    let mut first = FluidWorker::create_initial_data_buffer(&points).0;
    let mut second = FluidWorker::create_initial_data_buffer(&points).0;
    simulation_step(&mut first, &props, &container, &gravity, &cursor);
    simulation_step(&mut second, &props, &container, &gravity, &cursor);
    assert_eq!(first, second);
}
