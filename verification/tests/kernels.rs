use fluid_sim::smoothing::{
    smoothing_kernel, smoothing_kernel_derivative, smoothing_kernel_near,
    smoothing_kernel_derivative_near, smoothing_kernel_viscosity, DENSITY_PADDING,
};

#[test]
fn kernels_vanish_beyond_radius() {
    let radius = 200;
    for distance in [201, 202, 250, 1000, 1_000_000] {
        assert_eq!(smoothing_kernel(radius, distance), 0);
        assert_eq!(smoothing_kernel_derivative(radius, distance), 0);
        assert_eq!(smoothing_kernel_near(radius, distance), 0);
        assert_eq!(smoothing_kernel_derivative_near(radius, distance), 0);
        assert_eq!(smoothing_kernel_viscosity(radius, distance), 0);
    }
}

#[test]
fn kernels_vanish_exactly_at_radius() {
    // The cutoff is smooth: the polynomial part itself is zero at the radius.
    let radius = 200;
    assert_eq!(smoothing_kernel(radius, radius), 0);
    assert_eq!(smoothing_kernel_derivative(radius, radius), 0);
    assert_eq!(smoothing_kernel_near(radius, radius), 0);
    assert_eq!(smoothing_kernel_derivative_near(radius, radius), 0);
    assert_eq!(smoothing_kernel_viscosity(radius, radius), 0);
}

#[test]
fn kernel_exact_values() {
    assert_eq!(smoothing_kernel(200, 150), 2500); // (200 - 150)^2
    assert_eq!(smoothing_kernel_near(200, 150), 125_000); // (200 - 150)^3
    assert_eq!(smoothing_kernel_derivative(200, 150), -100); // 2 * (150 - 200)
    assert_eq!(smoothing_kernel_derivative_near(200, 150), -7500); // -3 * (200 - 150)^2
    assert_eq!(smoothing_kernel_viscosity(10, 6), 26); // (100 - 36)^3 / 10^4
}

#[test]
fn kernel_positive_at_zero_and_strictly_decreasing() {
    let radius = 200;
    assert!(smoothing_kernel(radius, 0) > 0);
    assert_eq!(smoothing_kernel(radius, 0), radius * radius);
    let mut previous = smoothing_kernel(radius, 0);
    for distance in 1..=radius {
        let value = smoothing_kernel(radius, distance);
        assert!(value < previous, "kernel not strictly decreasing at {distance}");
        previous = value;
    }
    assert_eq!(previous, 0);
}

#[test]
fn kernel_slopes_never_positive() {
    let radius = 127;
    for distance in 0..=(radius + 10) {
        assert!(smoothing_kernel_derivative(radius, distance) <= 0);
        assert!(smoothing_kernel_derivative_near(radius, distance) <= 0);
        assert!(smoothing_kernel(radius, distance) >= 0);
        assert!(smoothing_kernel_near(radius, distance) >= 0);
        assert!(smoothing_kernel_viscosity(radius, distance) >= 0);
    }
}

#[test]
fn density_padding_is_positive() {
    assert!(DENSITY_PADDING > 0);
}
