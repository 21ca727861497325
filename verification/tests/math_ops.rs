use fluid_sim::math::{
    isqrt, div_floor_i64, div_trunc_i64, clamp_i64, distance, IVec2, COORD_LIMIT, VEL_LIMIT,
};

#[test]
fn isqrt_exact_values() {
    assert_eq!(isqrt(0), 0);
    assert_eq!(isqrt(1), 1);
    assert_eq!(isqrt(2), 1);
    assert_eq!(isqrt(3), 1);
    assert_eq!(isqrt(4), 2);
    assert_eq!(isqrt(99), 9);
    assert_eq!(isqrt(100), 10);
    assert_eq!(isqrt(101), 10);
    assert_eq!(isqrt(u64::MAX), 4294967295);
}

#[test]
fn division_conventions() {
    // Flooring division rounds toward negative infinity.
    assert_eq!(div_floor_i64(7, 2), 3);
    assert_eq!(div_floor_i64(-7, 2), -4);
    assert_eq!(div_floor_i64(-8, 2), -4);
    assert_eq!(div_floor_i64(199, 200), 0);
    assert_eq!(div_floor_i64(-1, 200), -1);
    // Truncating division rounds toward zero, symmetrically.
    assert_eq!(div_trunc_i64(7, 2), 3);
    assert_eq!(div_trunc_i64(-7, 2), -3);
    assert_eq!(div_trunc_i64(-972000, 1024), -949);
}

#[test]
fn clamping() {
    assert_eq!(clamp_i64(5, -10, 10), 5);
    assert_eq!(clamp_i64(-11, -10, 10), -10);
    assert_eq!(clamp_i64(11, -10, 10), 10);
    assert_eq!(clamp_i64(i64::MAX, -VEL_LIMIT, VEL_LIMIT), VEL_LIMIT);
}

#[test]
fn distance_is_rounded_euclidean() {
    let origin = IVec2::zero();
    assert_eq!(distance(origin, IVec2::new(3, 4)), 5);
    assert_eq!(distance(IVec2::new(-3, 0), IVec2::new(0, -4)), 5);
    assert_eq!(distance(origin, IVec2::new(1, 1)), 1); // floor of sqrt(2)
    assert_eq!(distance(origin, origin), 0);
    assert_eq!(distance(IVec2::new(-COORD_LIMIT, 0), IVec2::new(COORD_LIMIT, 0)), 2 * COORD_LIMIT);
}
