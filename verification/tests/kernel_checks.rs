//! The smoothing kernels: constants, support gating, and exact values
//! for a unit support radius.

use fluidsense::config::ConfigError;
use fluidsense::kernel::Kernel;
use fluidsense::vec3::Vec3Fx;

fn unit_kernel() -> Kernel {
    Kernel::new(1_000_000).unwrap()
}

#[test]
fn new_rejects_non_positive_radius() {
    assert!(matches!(Kernel::new(0), Err(ConfigError::NonPositiveRadius)));
    assert!(matches!(Kernel::new(-5), Err(ConfigError::NonPositiveRadius)));
    assert!(Kernel::new(1).is_ok());
}

#[test]
fn unit_kernel_constants() {
    let k = unit_kernel();
    // 315 / (64 pi), -945 / (32 pi), -45 / pi, in fixed point
    assert_eq!(k.poly6.k, 1_566_681);
    assert_eq!(k.poly6.l, -9_400_087);
    assert_eq!(k.spiky.l, -14_323_943);
    assert_eq!(k.viscosity.l, 10_000_000);
    assert_eq!(k.poly6.radius_sqr, 1_000_000);
    assert_eq!(k.poly6.radius_cube, 1_000_000);
}

#[test]
fn w0_is_weight_of_zero_displacement() {
    let k = unit_kernel();
    assert_eq!(k.w0(), 1_566_681);
    assert_eq!(k.w(Vec3Fx::zero()), k.w0());
}

#[test]
fn w_vanishes_on_and_beyond_support() {
    let k = unit_kernel();
    // |r| == h
    assert_eq!(k.w(Vec3Fx::new(1_000_000, 0, 0)), 0);
    // |r| > h
    assert_eq!(k.w(Vec3Fx::new(2_000_000, 0, 0)), 0);
    assert_eq!(k.w(Vec3Fx::new(900_000, 900_000, 0)), 0);
    // inside the support the weight is positive
    assert!(k.w(Vec3Fx::new(500_000, 0, 0)) > 0);
}

#[test]
fn w_exact_value_at_half_radius() {
    let k = unit_kernel();
    assert_eq!(k.w(Vec3Fx::new(500_000, 0, 0)), 660_943);
}

#[test]
fn spiky_grad_points_against_displacement() {
    let k = unit_kernel();
    let g = k.spiky_grad_w(Vec3Fx::new(500_000, 0, 0));
    assert_eq!(g.x, -3_580_985);
    assert_eq!(g.y, 0);
    assert_eq!(g.z, 0);
    // antisymmetry under negation
    let h = k.spiky_grad_w(Vec3Fx::new(-500_000, 0, 0));
    assert_eq!(h.x, 3_580_985);
}

#[test]
fn viscosity_laplacian_exact_value() {
    let k = unit_kernel();
    assert_eq!(k.viscosity_laplacian_w(Vec3Fx::new(500_000, 0, 0)), 5_000_000);
    assert_eq!(k.viscosity_laplacian_w(Vec3Fx::zero()), 0);
}

#[test]
fn poly6_gradient_is_zero_at_origin() {
    let k = unit_kernel();
    let g = k.poly6_grad_w(Vec3Fx::zero());
    assert_eq!((g.x, g.y, g.z), (0, 0, 0));
}

#[test]
fn poly6_gradient_exact_value_at_half_radius() {
    let k = unit_kernel();
    let g = k.poly6_grad_w(Vec3Fx::new(500_000, 0, 0));
    assert_eq!((g.x, g.y, g.z), (-2_643_774, 0, 0));
}

#[test]
fn poly6_laplacian_exact_value_at_half_radius() {
    let k = unit_kernel();
    assert_eq!(k.poly6_laplacian_w(Vec3Fx::new(500_000, 0, 0)), -8_812_581);
}

#[test]
fn scalar_and_vector_weights_agree() {
    let k = unit_kernel();
    assert_eq!(k.poly6.w(500_000), 660_943);
    assert_eq!(k.poly6.w(500_000), k.poly6.w_vec(Vec3Fx::new(500_000, 0, 0)));
    assert_eq!(k.poly6.w(0), k.w0());
}
