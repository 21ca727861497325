use fluid_sim::math::IVec2;
use fluid_sim::spatial::{SpatialIndex, neighbors_brute_force};

/// Deterministic pseudo-random positions for a particle cloud.
fn random_cloud(count: usize, span: i64) -> Vec<IVec2> {
    let mut state: u64 = 0x2545F4914F6CDD1D;
    let mut next = move || {
        state ^= state << 13;
        state ^= state >> 7;
        state ^= state << 17;
        state
    };
    let mut points = Vec::new();
    for _ in 0..count {
        let x = (next() % (2 * span as u64)) as i64 - span;
        let y = (next() % (2 * span as u64)) as i64 - span;
        points.push(IVec2::new(x, y));
    }
    points
}

#[test]
fn index_query_equals_brute_force_on_random_cloud() {
    let positions = random_cloud(80, 900);
    let radius = 150;
    let index = SpatialIndex::build(&positions, radius);
    for i in 0..positions.len() {
        let brute = neighbors_brute_force(&positions, i, radius);
        let fast = index.query(&positions, i);
        assert_eq!(brute.len(), fast.len(), "count differs for particle {i}");
        for j in &brute {
            assert!(fast.contains(j), "index missed neighbour {j} of particle {i}");
        }
        for j in &fast {
            assert!(brute.contains(j), "index invented neighbour {j} of particle {i}");
        }
        // No duplicates in either result.
        for a in 0..fast.len() {
            for b in (a + 1)..fast.len() {
                assert_ne!(fast[a], fast[b]);
            }
        }
    }
}

#[test]
fn query_includes_the_particle_itself() {
    let positions = vec![IVec2::new(10, 10), IVec2::new(5000, 5000)];
    let index = SpatialIndex::build(&positions, 100);
    let neighbors = index.query(&positions, 0);
    assert!(neighbors.contains(&0));
    assert!(!neighbors.contains(&1));
}

#[test]
fn neighbours_respect_the_cutoff_exactly() {
    // Points at squared distance just inside, exactly at, and just outside
    // the squared radius.
    let positions = vec![
        IVec2::new(0, 0),
        IVec2::new(100, 0),  // d^2 = 10000 == r^2: neighbour
        IVec2::new(101, 0),  // d^2 = 10201 > r^2: not a neighbour
        IVec2::new(60, 80),  // d^2 = 10000 == r^2: neighbour
        IVec2::new(-99, 0),  // inside
    ];
    let radius = 100;
    let index = SpatialIndex::build(&positions, radius);
    let neighbors = index.query(&positions, 0);
    let brute = neighbors_brute_force(&positions, 0, radius);
    assert!(neighbors.contains(&0));
    assert!(neighbors.contains(&1));
    assert!(!neighbors.contains(&2));
    assert!(neighbors.contains(&3));
    assert!(neighbors.contains(&4));
    assert_eq!(brute.len(), neighbors.len());
}

#[test]
fn coincident_particles_are_mutual_neighbours() {
    let positions = vec![IVec2::new(7, -3), IVec2::new(7, -3), IVec2::new(7, -3)];
    let index = SpatialIndex::build(&positions, 50);
    for i in 0..3 {
        let neighbors = index.query(&positions, i);
        assert_eq!(neighbors.len(), 3);
    }
}

#[test]
fn negative_coordinates_straddling_cell_borders() {
    // Particles on both sides of the origin, where flooring (not truncating)
    // cell coordinates matter.
    let positions = vec![
        IVec2::new(-1, 0),
        IVec2::new(1, 0),
        IVec2::new(-151, 0),
        IVec2::new(149, 0),
    ];
    let radius = 150;
    let index = SpatialIndex::build(&positions, radius);
    for i in 0..positions.len() {
        let brute = neighbors_brute_force(&positions, i, radius);
        let fast = index.query(&positions, i);
        assert_eq!(brute.len(), fast.len());
        for j in &brute {
            assert!(fast.contains(j));
        }
    }
}

#[test]
fn index_matches_brute_force_on_a_dense_grid() {
    // A grid tighter than the smoothing radius: every queried particle has
    // many neighbours, spread over several cells and hash collisions.
    let mut positions = Vec::new();
    for i in 0..32_i64 {
        for j in 0..32_i64 {
            positions.push(IVec2::new(i * 60 - 960, j * 60 - 960));
        }
    }
    let radius = 150;
    let index = SpatialIndex::build(&positions, radius);
    for i in (0..positions.len()).step_by(37) {
        let brute = neighbors_brute_force(&positions, i, radius);
        let fast = index.query(&positions, i);
        assert_eq!(brute.len(), fast.len());
        assert!(brute.len() >= 6); // even a corner particle sees several
        for j in &brute {
            assert!(fast.contains(j));
        }
    }
}

#[test]
fn empty_cloud_builds_an_empty_index() {
    let positions: Vec<IVec2> = Vec::new();
    let index = SpatialIndex::build(&positions, 100);
    assert_eq!(index.entries.len(), 0);
    assert_eq!(index.table_size, 1);
}
