use redox::mat4::M44;
use redox::vec3::V3;

fn v3(x: f32, y: f32, z: f32) -> V3 {
    V3::new(x.to_bits(), y.to_bits(), z.to_bits())
}

fn m44(m: [[f32; 4]; 4]) -> M44 {
    let mut bits = [[0u32; 4]; 4];
    for j in 0..4 {
        for i in 0..4 {
            bits[j][i] = m[j][i].to_bits();
        }
    }
    M44::new(bits)
}

fn m44_eq(a: &M44, b: &M44) -> bool {
    for j in 0..4 {
        for i in 0..4 {
            if f32::from_bits(a.m[j][i]) != f32::from_bits(b.m[j][i]) {
                return false;
            }
        }
    }
    true
}

#[test]
fn test_m44_new() {
    let a = m44([
        [1.0, 2.0, 3.0, 4.0],
        [5.0, 6.0, 7.0, 8.0],
        [9.0, 10.0, 11.0, 12.0],
        [13.0, 14.0, 15.0, 16.0],
    ]);
    assert_eq!(f32::from_bits(a.m[0][0]), 1.0);
    assert_eq!(f32::from_bits(a.m[0][1]), 2.0);
    assert_eq!(f32::from_bits(a.m[0][2]), 3.0);
    assert_eq!(f32::from_bits(a.m[0][3]), 4.0);
    assert_eq!(f32::from_bits(a.m[1][0]), 5.0);
    assert_eq!(f32::from_bits(a.m[1][1]), 6.0);
    assert_eq!(f32::from_bits(a.m[1][2]), 7.0);
    assert_eq!(f32::from_bits(a.m[1][3]), 8.0);
    assert_eq!(f32::from_bits(a.m[2][0]), 9.0);
    assert_eq!(f32::from_bits(a.m[2][1]), 10.0);
    assert_eq!(f32::from_bits(a.m[2][2]), 11.0);
    assert_eq!(f32::from_bits(a.m[2][3]), 12.0);
    assert_eq!(f32::from_bits(a.m[3][0]), 13.0);
    assert_eq!(f32::from_bits(a.m[3][1]), 14.0);
    assert_eq!(f32::from_bits(a.m[3][2]), 15.0);
    assert_eq!(f32::from_bits(a.m[3][3]), 16.0);
}

#[test]
fn test_m44_with_value() {
    let a = M44::with_value(1.0_f32.to_bits());
    let b = m44([
        [1.0, 0.0, 0.0, 0.0],
        [0.0, 1.0, 0.0, 0.0],
        [0.0, 0.0, 1.0, 0.0],
        [0.0, 0.0, 0.0, 1.0],
    ]);
    assert!(m44_eq(&a, &b));
}

#[test]
fn test_m44_identity() {
    let a = M44::identity();
    let b = m44([
        [1.0, 0.0, 0.0, 0.0],
        [0.0, 1.0, 0.0, 0.0],
        [0.0, 0.0, 1.0, 0.0],
        [0.0, 0.0, 0.0, 1.0],
    ]);
    assert!(m44_eq(&a, &b));
}

#[test]
fn test_m44_det() {
    let a = m44([
        [1.0, 2.0, 3.0, 4.0],
        [5.0, 6.0, 7.0, 8.0],
        [9.0, 10.0, 11.0, 12.0],
        [13.0, 14.0, 15.0, 16.0],
    ]);
    let b = 0.0_f32;
    assert_eq!(f32::from_bits(a.det()), b);
}

#[test]
fn test_m44_transpose() {
    let a = m44([
        [1.0, 2.0, 3.0, 4.0],
        [5.0, 6.0, 7.0, 8.0],
        [9.0, 10.0, 11.0, 12.0],
        [13.0, 14.0, 15.0, 16.0],
    ]);
    let b = m44([
        [1.0, 5.0, 9.0, 13.0],
        [2.0, 6.0, 10.0, 14.0],
        [3.0, 7.0, 11.0, 15.0],
        [4.0, 8.0, 12.0, 16.0],
    ]);
    assert!(m44_eq(&a.transpose(), &b));
}

#[test]
fn test_m44_mul() {
    let a = m44([
        [1.0, 2.0, 3.0, 4.0],
        [5.0, 6.0, 7.0, 8.0],
        [9.0, 10.0, 11.0, 12.0],
        [13.0, 14.0, 15.0, 16.0],
    ]);
    let b = m44([
        [1.0, 2.0, 3.0, 4.0],
        [5.0, 6.0, 7.0, 8.0],
        [9.0, 10.0, 11.0, 12.0],
        [13.0, 14.0, 15.0, 16.0],
    ]);
    let c = m44([
        [90.0, 100.0, 110.0, 120.0],
        [202.0, 228.0, 254.0, 280.0],
        [314.0, 356.0, 398.0, 440.0],
        [426.0, 484.0, 542.0, 600.0],
    ]);
    assert!(m44_eq(&a.mul(b), &c));
}

#[test]
fn test_m44_mul_assign() {
    let mut a = m44([
        [1.0, 2.0, 3.0, 4.0],
        [5.0, 6.0, 7.0, 8.0],
        [9.0, 10.0, 11.0, 12.0],
        [13.0, 14.0, 15.0, 16.0],
    ]);
    let b = m44([
        [1.0, 2.0, 3.0, 4.0],
        [5.0, 6.0, 7.0, 8.0],
        [9.0, 10.0, 11.0, 12.0],
        [13.0, 14.0, 15.0, 16.0],
    ]);
    let c = m44([
        [90.0, 100.0, 110.0, 120.0],
        [202.0, 228.0, 254.0, 280.0],
        [314.0, 356.0, 398.0, 440.0],
        [426.0, 484.0, 542.0, 600.0],
    ]);
    a.mul_assign(b);
    assert!(m44_eq(&a, &c));
}

#[test]
fn test_m44_translate() {
    let a = m44([
        [1.0, 2.0, 3.0, 4.0],
        [5.0, 6.0, 7.0, 8.0],
        [9.0, 10.0, 11.0, 12.0],
        [13.0, 14.0, 15.0, 16.0],
    ]);
    let b = v3(1.0, 2.0, 3.0);
    let c = m44([
        [1.0, 2.0, 3.0, 4.0],
        [5.0, 6.0, 7.0, 8.0],
        [9.0, 10.0, 11.0, 12.0],
        [14.0, 16.0, 18.0, 16.0],
    ]);
    assert!(m44_eq(&a.translate(b), &c));
}

#[test]
fn test_m44_scale() {
    let a = m44([
        [1.0, 2.0, 3.0, 4.0],
        [5.0, 6.0, 7.0, 8.0],
        [9.0, 10.0, 11.0, 12.0],
        [13.0, 14.0, 15.0, 16.0],
    ]);
    let b = v3(1.0, 2.0, 3.0);
    let c = m44([
        [1.0, 2.0, 3.0, 4.0],
        [5.0, 12.0, 7.0, 8.0],
        [9.0, 10.0, 33.0, 12.0],
        [13.0, 14.0, 15.0, 16.0],
    ]);
    assert!(m44_eq(&a.scale(b), &c));
}

#[test]
fn test_m44_rot_x() {
    let a = m44([
        [1.0, 2.0, 3.0, 4.0],
        [5.0, 6.0, 7.0, 8.0],
        [9.0, 10.0, 11.0, 12.0],
        [13.0, 14.0, 15.0, 16.0],
    ]);
    let angle = std::f32::consts::PI / 4.0;
    let c = m44([
        [1.0, 2.0, 3.0, 4.0],
        [9.899494, 11.313708, 12.727922, 14.142136],
        [2.8284268, 2.8284273, 2.8284268, 2.8284268],
        [13.0, 14.0, 15.0, 16.0],
    ]);
    assert!(m44_eq(&a.rot_x(angle.to_bits()), &c));
}

#[test]
fn test_m44_rot_y() {
    let a = m44([
        [1.0, 2.0, 3.0, 4.0],
        [5.0, 6.0, 7.0, 8.0],
        [9.0, 10.0, 11.0, 12.0],
        [13.0, 14.0, 15.0, 16.0],
    ]);
    let angle = std::f32::consts::PI / 4.0;
    let c = m44([
        [-5.656854, -5.656854, -5.656854, -5.6568537],
        [5.0, 6.0, 7.0, 8.0],
        [7.0710673, 8.485281, 9.899494, 11.313708],
        [13.0, 14.0, 15.0, 16.0],
    ]);
    assert!(m44_eq(&a.rot_y(angle.to_bits()), &c));
}

#[test]
fn test_m44_rot_z() {
    let a = m44([
        [1.0, 2.0, 3.0, 4.0],
        [5.0, 6.0, 7.0, 8.0],
        [9.0, 10.0, 11.0, 12.0],
        [13.0, 14.0, 15.0, 16.0],
    ]);
    let angle = std::f32::consts::PI / 4.0;
    let expected = m44([
        [4.2426405, 5.656854, 7.071068, 8.485281],
        [2.828427, 2.8284268, 2.8284273, 2.828427],
        [9.0, 10.0, 11.0, 12.0],
        [13.0, 14.0, 15.0, 16.0],
    ]);
    assert!(m44_eq(&a.rot_z(angle.to_bits()), &expected));
}

#[test]
fn test_m44_look_at() {
    let eye = v3(1.0, 1.0, 1.0);
    let center = v3(0.0, 0.0, 0.0);
    let up = v3(0.0, 1.0, 0.0);
    let expected = m44([
        [0.70710677, -0.40824828, 0.57735026, 0.0],
        [0.0, 0.81649655, 0.57735026, 0.0],
        [-0.70710677, -0.40824828, 0.57735026, 0.0],
        [-0.0, -0.0, -1.7320508, 1.0],
    ]);
    assert!(m44_eq(&M44::look_at(eye, center, up), &expected));
}

#[test]
fn test_m44_perspective() {
    let fov = 45.0_f32;
    let aspect = 16.0_f32 / 9.0;
    let near = 0.1_f32;
    let far = 100.0_f32;
    let expected = m44([
        [1.0083324, 0.0, 0.0, 0.0],
        [0.0, 1.792591, 0.0, 0.0],
        [0.0, 0.0, -1.002002, -1.0],
        [0.0, 0.0, -0.2002002, 0.0],
    ]);
    let got = M44::perspective(
        fov.to_bits(),
        aspect.to_bits(),
        near.to_bits(),
        far.to_bits(),
    );
    assert!(m44_eq(&got, &expected));
}
