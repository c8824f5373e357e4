use redox::lerp;
use redox::M44;
use redox::V3;

fn v3(x: f32, y: f32, z: f32) -> V3 {
    V3::new(x.to_bits(), y.to_bits(), z.to_bits())
}

fn m44(m: [[f32; 4]; 4]) -> M44 {
    let mut bits = [[0u32; 4]; 4];
    for j in 0..4 {
        for i in 0..4 {
            bits[j][i] = m[j][i].to_bits();
        }
    }
    M44::new(bits)
}

fn v3_eq(a: &V3, b: &V3) -> bool {
    f32::from_bits(a.x) == f32::from_bits(b.x)
        && f32::from_bits(a.y) == f32::from_bits(b.y)
        && f32::from_bits(a.z) == f32::from_bits(b.z)
}

fn v3_close(a: &V3, b: &V3, eps: f32) -> bool {
    (f32::from_bits(a.x) - f32::from_bits(b.x)).abs() <= eps
        && (f32::from_bits(a.y) - f32::from_bits(b.y)).abs() <= eps
        && (f32::from_bits(a.z) - f32::from_bits(b.z)).abs() <= eps
}

#[test]
fn add_is_commutative() {
    let samples = [
        (v3(1.0, 2.0, 3.0), v3(-4.5, 0.25, 7.0)),
        (v3(0.1, -0.2, 0.3), v3(1e10, -1e-10, 5.5)),
        (v3(-0.0, 2.5, -3.75), v3(0.0, -2.5, 3.75)),
    ];
    for (a, b) in samples {
        assert!(v3_eq(&a.add(b), &b.add(a)));
    }
}

#[test]
fn sub_of_self_is_zero() {
    let samples = [v3(1.0, 2.0, 3.0), v3(-4.5, 0.25, 1e10), v3(0.0, -0.0, 1e-20)];
    for a in samples {
        assert!(v3_eq(&a.sub(a), &v3(0.0, 0.0, 0.0)));
    }
}

#[test]
fn add_then_sub_returns_near_start() {
    let samples = [
        (v3(1.0, 2.0, 3.0), v3(-4.5, 0.25, 7.0)),
        (v3(0.1, -0.2, 0.3), v3(2.5, -1.25, 5.5)),
    ];
    for (a, b) in samples {
        assert!(v3_close(&a.add(b).sub(b), &a, 1e-5));
    }
}

#[test]
fn scale_then_divide_returns_near_start() {
    let samples = [
        (v3(1.0, 2.0, 3.0), 7.3_f32),
        (v3(-4.5, 0.25, 1e5), -0.003_f32),
        (v3(0.1, -0.2, 0.3), 3.0_f32),
    ];
    for (a, s) in samples {
        assert!(v3_close(&a.mul(s.to_bits()).div(s.to_bits()), &a, 1e-4));
    }
}

#[test]
fn dot_is_symmetric() {
    let samples = [
        (v3(1.0, 2.0, 3.0), v3(-4.5, 0.25, 7.0)),
        (v3(0.1, -0.2, 0.3), v3(1e5, -1e-5, 5.5)),
    ];
    for (a, b) in samples {
        assert_eq!(f32::from_bits(a.dot(b)), f32::from_bits(b.dot(a)));
    }
}

#[test]
fn cross_is_anti_symmetric() {
    let samples = [
        (v3(1.0, 2.0, 3.0), v3(-4.5, 0.25, 7.0)),
        (v3(1.0, 0.0, 0.0), v3(0.0, 1.0, 0.0)),
        (v3(0.1, -0.2, 0.3), v3(0.2, -0.4, 0.6)),
    ];
    for (a, b) in samples {
        assert!(v3_eq(&a.cross(b), &b.cross(a).neg()));
    }
}

#[test]
fn lerp_at_zero_is_start() {
    let a = v3(1.25, -2.5, 3.75);
    let b = v3(9.0, 8.0, -7.0);
    assert!(v3_eq(&lerp(a, b, 0.0_f32.to_bits()), &a));
}

#[test]
fn lerp_at_one_is_end() {
    let a = v3(1.25, -2.5, 3.75);
    let b = v3(9.0, 8.0, -7.0);
    assert!(v3_eq(&lerp(a, b, 1.0_f32.to_bits()), &b));
}

#[test]
fn lerp_at_half_is_midpoint() {
    let a = v3(1.0, -2.0, 3.0);
    let b = v3(3.0, 6.0, -5.0);
    assert!(v3_eq(&lerp(a, b, 0.5_f32.to_bits()), &v3(2.0, 2.0, -1.0)));
}

#[test]
fn lerp_extrapolates_outside_unit_range() {
    let a = v3(0.0, 0.0, 0.0);
    let b = v3(1.0, 2.0, 3.0);
    assert!(v3_eq(&lerp(a, b, 2.0_f32.to_bits()), &v3(2.0, 4.0, 6.0)));
}

#[test]
fn identity_is_left_and_right_unit_of_mul() {
    let m = m44([
        [1.5, 2.0, -3.0, 4.25],
        [5.0, -6.5, 7.0, 8.0],
        [9.0, 10.0, 11.75, -12.0],
        [13.0, -14.0, 15.0, 16.5],
    ]);
    let id = M44::identity();
    // Exact, bit for bit: the strong contract of `mul` for clean entries.
    assert_eq!(id.mul(m).m, m.m);
    assert_eq!(m.mul(id).m, m.m);
}

#[test]
fn transpose_twice_is_identity_on_entries() {
    let m = m44([
        [1.0, -2.0, 3.0, 4.0],
        [5.5, 6.0, -7.0, 8.0],
        [9.0, 10.25, 11.0, -12.0],
        [-13.0, 14.0, 15.0, 16.0],
    ]);
    assert_eq!(m.transpose().transpose().m, m.m);
}

#[test]
fn scale_of_identity_is_diagonal() {
    let got = M44::identity().scale(v3(2.0, 3.0, 4.0));
    let expected = m44([
        [2.0, 0.0, 0.0, 0.0],
        [0.0, 3.0, 0.0, 0.0],
        [0.0, 0.0, 4.0, 0.0],
        [0.0, 0.0, 0.0, 1.0],
    ]);
    for j in 0..4 {
        for i in 0..4 {
            assert_eq!(
                f32::from_bits(got.m[j][i]),
                f32::from_bits(expected.m[j][i])
            );
        }
    }
}

#[test]
fn look_at_basis_is_orthonormal() {
    let eye = v3(1.0, 1.0, 1.0);
    let center = v3(0.0, 0.0, 0.0);
    let up = v3(0.0, 1.0, 0.0);
    let m = M44::look_at(eye, center, up);
    let right = [
        f32::from_bits(m.m[0][0]),
        f32::from_bits(m.m[1][0]),
        f32::from_bits(m.m[2][0]),
    ];
    let true_up = [
        f32::from_bits(m.m[0][1]),
        f32::from_bits(m.m[1][1]),
        f32::from_bits(m.m[2][1]),
    ];
    let forward = [
        -f32::from_bits(m.m[0][2]),
        -f32::from_bits(m.m[1][2]),
        -f32::from_bits(m.m[2][2]),
    ];
    let dot = |a: [f32; 3], b: [f32; 3]| a[0] * b[0] + a[1] * b[1] + a[2] * b[2];
    let eps = 1e-5_f32;
    assert!((dot(right, right) - 1.0).abs() <= eps);
    assert!((dot(true_up, true_up) - 1.0).abs() <= eps);
    assert!((dot(forward, forward) - 1.0).abs() <= eps);
    assert!(dot(right, true_up).abs() <= eps);
    assert!(dot(right, forward).abs() <= eps);
    assert!(dot(true_up, forward).abs() <= eps);
}

#[test]
fn with_value_fills_the_diagonal() {
    let a = M44::with_value(4.0_f32.to_bits());
    for j in 0..4 {
        for i in 0..4 {
            let expected = if i == j { 4.0 } else { 0.0 };
            assert_eq!(f32::from_bits(a.m[j][i]), expected);
        }
    }
}

#[test]
fn default_is_zero_matrix() {
    let a = M44::default();
    for j in 0..4 {
        for i in 0..4 {
            assert_eq!(f32::from_bits(a.m[j][i]), 0.0);
        }
    }
}

#[test]
fn perspective_with_tan_matches_perspective_formula() {
    let tan_half = (45.0_f32 / 2.0).tan();
    let aspect = 16.0_f32 / 9.0;
    let near = 0.1_f32;
    let far = 100.0_f32;
    let got = M44::perspective_with_tan(
        tan_half.to_bits(),
        aspect.to_bits(),
        near.to_bits(),
        far.to_bits(),
    );
    let f = 1.0 / tan_half;
    assert_eq!(f32::from_bits(got.m[0][0]), f / aspect);
    assert_eq!(f32::from_bits(got.m[1][1]), f);
    assert_eq!(
        f32::from_bits(got.m[2][2]),
        (far + near) * (1.0 / (near - far))
    );
    assert_eq!(f32::from_bits(got.m[2][3]), -1.0);
    assert_eq!(
        f32::from_bits(got.m[3][2]),
        2.0 * far * near * (1.0 / (near - far))
    );
}

#[test]
fn rotation_matrices_hold_the_given_parts() {
    let c = 0.6_f32.to_bits();
    let s = 0.8_f32.to_bits();
    let rx = M44::rot_x_matrix(c, s);
    assert_eq!(f32::from_bits(rx.m[1][1]), 0.6);
    assert_eq!(f32::from_bits(rx.m[1][2]), 0.8);
    assert_eq!(f32::from_bits(rx.m[2][1]), -0.8);
    assert_eq!(f32::from_bits(rx.m[2][2]), 0.6);
    let ry = M44::rot_y_matrix(c, s);
    assert_eq!(f32::from_bits(ry.m[0][0]), 0.6);
    assert_eq!(f32::from_bits(ry.m[0][2]), -0.8);
    assert_eq!(f32::from_bits(ry.m[2][0]), 0.8);
    assert_eq!(f32::from_bits(ry.m[2][2]), 0.6);
    let rz = M44::rot_z_matrix(c, s);
    assert_eq!(f32::from_bits(rz.m[0][0]), 0.6);
    assert_eq!(f32::from_bits(rz.m[0][1]), 0.8);
    assert_eq!(f32::from_bits(rz.m[1][0]), -0.8);
    assert_eq!(f32::from_bits(rz.m[1][1]), 0.6);
}

#[test]
fn add_of_negation_is_zero() {
    let samples = [v3(1.0, 2.0, 3.0), v3(-4.5, 0.25, 1e10), v3(0.5, -0.25, 1e-20)];
    for a in samples {
        let r = a.add(a.neg());
        assert_eq!(r.x, 0.0_f32.to_bits());
        assert_eq!(r.y, 0.0_f32.to_bits());
        assert_eq!(r.z, 0.0_f32.to_bits());
    }
}

#[test]
fn mul_by_one_is_exact() {
    let a = v3(1.25, -2.5, 3.75);
    let r = a.mul(1.0_f32.to_bits());
    assert_eq!(r.x, a.x);
    assert_eq!(r.y, a.y);
    assert_eq!(r.z, a.z);
}

#[test]
fn div_by_one_is_exact() {
    let a = v3(1.25, -2.5, 3.75);
    let r = a.div(1.0_f32.to_bits());
    assert_eq!(r.x, a.x);
    assert_eq!(r.y, a.y);
    assert_eq!(r.z, a.z);
}

#[test]
fn zero_over_zero_is_nan() {
    let a = v3(0.0, -0.0, 0.0);
    let r = a.div(0.0_f32.to_bits());
    assert!(f32::from_bits(r.x).is_nan());
    assert!(f32::from_bits(r.y).is_nan());
    assert!(f32::from_bits(r.z).is_nan());
}
