use anmrenderer::mvp::{build_mvp, mat_mul, perspective, setup_camera, Mat4};

#[test]
fn build_mvp_is_deterministic() {
    // Repeated calls with the fixed constants yield bit-identical
    // matrices.
    let a = build_mvp();
    let b = build_mvp();
    assert_eq!(a, b);
}

#[test]
fn perspective_has_the_documented_entries() {
    let p = perspective();
    // Focal factor over the aspect ratio, and the focal factor itself.
    assert_eq!(p.m00, 285348);
    assert_eq!(p.m11, 244584);
    // Depth mapping of the near and far planes.
    assert_eq!(p.m22, -66197);
    assert_eq!(p.m23, -65536);
    assert_eq!(p.m32, -6619797);
    assert_eq!(p.m33, 0);
}

#[test]
fn view_translates_the_fixed_eye() {
    let v = setup_camera();
    assert_eq!(v.m00, -65536);
    assert_eq!(v.m11, -65536);
    assert_eq!(v.m22, 65536);
    assert_eq!(v.m30, 12582912);
    assert_eq!(v.m31, 14680064);
    assert_eq!(v.m32, 54786745);
    assert_eq!(v.m33, 65536);
}

#[test]
fn mvp_is_view_times_projection() {
    let mvp = build_mvp();
    assert_eq!(mvp, mat_mul(&setup_camera(), &perspective()));
    assert_eq!(mvp.m00, -285348);
    assert_eq!(mvp.m11, -244584);
    assert_eq!(mvp.m22, -66197);
    assert_eq!(mvp.m23, -65536);
    assert_eq!(mvp.m30, 54786816);
    assert_eq!(mvp.m31, 54786816);
    assert_eq!(mvp.m32, -61959124);
    assert_eq!(mvp.m33, -54786745);
    // Entries with no view or projection contribution stay zero.
    assert_eq!(mvp.m01, 0);
    assert_eq!(mvp.m10, 0);
    assert_eq!(mvp.m20, 0);
}

#[test]
fn mat_mul_identity_keeps_entries() {
    let identity = Mat4 {
        m00: 65536, m01: 0, m02: 0, m03: 0,
        m10: 0, m11: 65536, m12: 0, m13: 0,
        m20: 0, m21: 0, m22: 65536, m23: 0,
        m30: 0, m31: 0, m32: 0, m33: 65536,
    };
    let p = perspective();
    assert_eq!(mat_mul(&p, &identity), p);
    assert_eq!(mat_mul(&identity, &p), p);
}
