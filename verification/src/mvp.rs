//! The camera/projection builder: a fixed model-view-projection transform.
//!
//! The preview window shows a fixed 384x448 virtual plane through a static
//! camera, so the whole transform is determined by compile-time constants:
//! a 30-degree vertical field of view, the virtual plane's aspect ratio,
//! and near/far plane distances (see `NEAR_PLANE` and `FAR_PLANE`). The
//! matrix is rebuilt from scratch every frame; it is cheap, and a future
//! live-resize only has to change the constants it is built from.
//!
//! All values are Q16.16 fixed point (`FP_ONE` stands for 1.0), kept in
//! `i64` fields. Matrices are row-major for row vectors: a vertex is
//! transformed as `v * M`, and the combined transform is `view * proj`.

use vstd::prelude::*;

verus! {

/// 1.0 in Q16.16 fixed point.
pub const FP_ONE: i64 = 65536;

/// Largest magnitude a matrix entry may have going into a multiply
/// (2^31), so that a Q16.16 product of two entries fits well inside i64.
pub const FP_ENTRY_MAX: i64 = 2147483648;

/// Largest magnitude of a single Q16.16 product of two in-range entries
/// (2^62 / 2^16 = 2^46).
pub const FP_PROD_MAX: i64 = 70368744177664;

/// Width and height of the virtual plane the camera frames, in pixels;
/// their ratio is the projection's fixed aspect ratio.
pub const VIRTUAL_WIDTH: i64 = 384;
pub const VIRTUAL_HEIGHT: i64 = 448;

/// cot(15 degrees), the cotangent of half the 30-degree vertical field of
/// view, in Q16.16: the projection's focal factor.
pub const COT_HALF_FOV: i64 = 244584;

/// Near plane distance, about 50.2513 (the ratio 101010101/2010101), in
/// Q16.16.
pub const NEAR_PLANE: i64 = 3293266;

/// Far plane distance, about 10000.01 (the ratio 101010101/10101), in
/// Q16.16.
pub const FAR_PLANE: i64 = 655360655;

/// The camera's eye sits over the center of the virtual plane
/// (192, 224, in Q16.16) and is pulled back along the z axis by
/// `CAMERA_DISTANCE`, the distance at which the plane exactly fills the
/// 30-degree frustum: 224 * cot(15 degrees), about 835.98, in Q16.16.
pub const EYE_X: i64 = 12582912;
pub const EYE_Y: i64 = 14680064;
pub const CAMERA_DISTANCE: i64 = 54786745;

/// A 4x4 transform matrix in Q16.16 fixed point, row-major, applied to
/// row vectors.
#[derive(Clone, Copy, Debug, PartialEq, Eq, Structural)]
pub struct Mat4 {
    pub m00: i64, pub m01: i64, pub m02: i64, pub m03: i64,
    pub m10: i64, pub m11: i64, pub m12: i64, pub m13: i64,
    pub m20: i64, pub m21: i64, pub m22: i64, pub m23: i64,
    pub m30: i64, pub m31: i64, pub m32: i64, pub m33: i64,
}

/// Magnitude of an integer.
pub open spec fn spec_mag(x: int) -> int {
    if x >= 0 { x } else { -x }
}

/// Q16.16 product, truncated toward zero: the product of the magnitudes,
/// scaled down by `FP_ONE`, with the sign of the exact product.
pub open spec fn spec_fp_mul(a: int, b: int) -> int {
    let m = (spec_mag(a) * spec_mag(b)) / 65536;
    if (a < 0) != (b < 0) { -m } else { m }
}

/// Every entry is small enough to go into a Q16.16 multiply.
pub open spec fn spec_in_range(m: Mat4) -> bool {
    -2147483648 <= m.m00 <= 2147483648
        && -2147483648 <= m.m01 <= 2147483648
        && -2147483648 <= m.m02 <= 2147483648
        && -2147483648 <= m.m03 <= 2147483648
        && -2147483648 <= m.m10 <= 2147483648
        && -2147483648 <= m.m11 <= 2147483648
        && -2147483648 <= m.m12 <= 2147483648
        && -2147483648 <= m.m13 <= 2147483648
        && -2147483648 <= m.m20 <= 2147483648
        && -2147483648 <= m.m21 <= 2147483648
        && -2147483648 <= m.m22 <= 2147483648
        && -2147483648 <= m.m23 <= 2147483648
        && -2147483648 <= m.m30 <= 2147483648
        && -2147483648 <= m.m31 <= 2147483648
        && -2147483648 <= m.m32 <= 2147483648
        && -2147483648 <= m.m33 <= 2147483648
}

/// Q16.16 fixed-point product of two in-range values.
pub fn fp_mul(a: i64, b: i64) -> (r: i64)
    requires
        -FP_ENTRY_MAX <= a <= FP_ENTRY_MAX,
        -FP_ENTRY_MAX <= b <= FP_ENTRY_MAX,
    ensures
        r == spec_fp_mul(a as int, b as int),
        -FP_PROD_MAX <= r <= FP_PROD_MAX,
{
    let ma: u64 = if a < 0 { (-a) as u64 } else { a as u64 };
    let mb: u64 = if b < 0 { (-b) as u64 } else { b as u64 };
    proof {
        assert(ma == spec_mag(a as int));
        assert(mb == spec_mag(b as int));
        assert(ma * mb <= 0x4000000000000000) by (nonlinear_arith)
            requires
                ma <= 0x80000000,
                mb <= 0x80000000,
        ;
    }
    let p: u64 = ma * mb;
    let q: u64 = p / 65536;
    if (a < 0) != (b < 0) {
        -(q as i64)
    } else {
        q as i64
    }
}

/// Row-vector matrix product over Q16.16 entries: entry (i, j) of the
/// result is the fixed-point dot product of row i of `a` with column j
/// of `b`.
pub open spec fn spec_mat_mul(a: Mat4, b: Mat4) -> Mat4 {
    Mat4 {
        m00: (spec_fp_mul(a.m00 as int, b.m00 as int) + spec_fp_mul(a.m01 as int, b.m10 as int) + spec_fp_mul(a.m02 as int, b.m20 as int) + spec_fp_mul(a.m03 as int, b.m30 as int)) as i64,
        m01: (spec_fp_mul(a.m00 as int, b.m01 as int) + spec_fp_mul(a.m01 as int, b.m11 as int) + spec_fp_mul(a.m02 as int, b.m21 as int) + spec_fp_mul(a.m03 as int, b.m31 as int)) as i64,
        m02: (spec_fp_mul(a.m00 as int, b.m02 as int) + spec_fp_mul(a.m01 as int, b.m12 as int) + spec_fp_mul(a.m02 as int, b.m22 as int) + spec_fp_mul(a.m03 as int, b.m32 as int)) as i64,
        m03: (spec_fp_mul(a.m00 as int, b.m03 as int) + spec_fp_mul(a.m01 as int, b.m13 as int) + spec_fp_mul(a.m02 as int, b.m23 as int) + spec_fp_mul(a.m03 as int, b.m33 as int)) as i64,
        m10: (spec_fp_mul(a.m10 as int, b.m00 as int) + spec_fp_mul(a.m11 as int, b.m10 as int) + spec_fp_mul(a.m12 as int, b.m20 as int) + spec_fp_mul(a.m13 as int, b.m30 as int)) as i64,
        m11: (spec_fp_mul(a.m10 as int, b.m01 as int) + spec_fp_mul(a.m11 as int, b.m11 as int) + spec_fp_mul(a.m12 as int, b.m21 as int) + spec_fp_mul(a.m13 as int, b.m31 as int)) as i64,
        m12: (spec_fp_mul(a.m10 as int, b.m02 as int) + spec_fp_mul(a.m11 as int, b.m12 as int) + spec_fp_mul(a.m12 as int, b.m22 as int) + spec_fp_mul(a.m13 as int, b.m32 as int)) as i64,
        m13: (spec_fp_mul(a.m10 as int, b.m03 as int) + spec_fp_mul(a.m11 as int, b.m13 as int) + spec_fp_mul(a.m12 as int, b.m23 as int) + spec_fp_mul(a.m13 as int, b.m33 as int)) as i64,
        m20: (spec_fp_mul(a.m20 as int, b.m00 as int) + spec_fp_mul(a.m21 as int, b.m10 as int) + spec_fp_mul(a.m22 as int, b.m20 as int) + spec_fp_mul(a.m23 as int, b.m30 as int)) as i64,
        m21: (spec_fp_mul(a.m20 as int, b.m01 as int) + spec_fp_mul(a.m21 as int, b.m11 as int) + spec_fp_mul(a.m22 as int, b.m21 as int) + spec_fp_mul(a.m23 as int, b.m31 as int)) as i64,
        m22: (spec_fp_mul(a.m20 as int, b.m02 as int) + spec_fp_mul(a.m21 as int, b.m12 as int) + spec_fp_mul(a.m22 as int, b.m22 as int) + spec_fp_mul(a.m23 as int, b.m32 as int)) as i64,
        m23: (spec_fp_mul(a.m20 as int, b.m03 as int) + spec_fp_mul(a.m21 as int, b.m13 as int) + spec_fp_mul(a.m22 as int, b.m23 as int) + spec_fp_mul(a.m23 as int, b.m33 as int)) as i64,
        m30: (spec_fp_mul(a.m30 as int, b.m00 as int) + spec_fp_mul(a.m31 as int, b.m10 as int) + spec_fp_mul(a.m32 as int, b.m20 as int) + spec_fp_mul(a.m33 as int, b.m30 as int)) as i64,
        m31: (spec_fp_mul(a.m30 as int, b.m01 as int) + spec_fp_mul(a.m31 as int, b.m11 as int) + spec_fp_mul(a.m32 as int, b.m21 as int) + spec_fp_mul(a.m33 as int, b.m31 as int)) as i64,
        m32: (spec_fp_mul(a.m30 as int, b.m02 as int) + spec_fp_mul(a.m31 as int, b.m12 as int) + spec_fp_mul(a.m32 as int, b.m22 as int) + spec_fp_mul(a.m33 as int, b.m32 as int)) as i64,
        m33: (spec_fp_mul(a.m30 as int, b.m03 as int) + spec_fp_mul(a.m31 as int, b.m13 as int) + spec_fp_mul(a.m32 as int, b.m23 as int) + spec_fp_mul(a.m33 as int, b.m33 as int)) as i64,
    }
}

/// Multiply two in-range Q16.16 matrices.
pub fn mat_mul(a: &Mat4, b: &Mat4) -> (r: Mat4)
    requires
        spec_in_range(*a),
        spec_in_range(*b),
    ensures
        r == spec_mat_mul(*a, *b),
{
    let m00: i64 = fp_mul(a.m00, b.m00) + fp_mul(a.m01, b.m10) + fp_mul(a.m02, b.m20) + fp_mul(a.m03, b.m30);
    let m01: i64 = fp_mul(a.m00, b.m01) + fp_mul(a.m01, b.m11) + fp_mul(a.m02, b.m21) + fp_mul(a.m03, b.m31);
    let m02: i64 = fp_mul(a.m00, b.m02) + fp_mul(a.m01, b.m12) + fp_mul(a.m02, b.m22) + fp_mul(a.m03, b.m32);
    let m03: i64 = fp_mul(a.m00, b.m03) + fp_mul(a.m01, b.m13) + fp_mul(a.m02, b.m23) + fp_mul(a.m03, b.m33);
    let m10: i64 = fp_mul(a.m10, b.m00) + fp_mul(a.m11, b.m10) + fp_mul(a.m12, b.m20) + fp_mul(a.m13, b.m30);
    let m11: i64 = fp_mul(a.m10, b.m01) + fp_mul(a.m11, b.m11) + fp_mul(a.m12, b.m21) + fp_mul(a.m13, b.m31);
    let m12: i64 = fp_mul(a.m10, b.m02) + fp_mul(a.m11, b.m12) + fp_mul(a.m12, b.m22) + fp_mul(a.m13, b.m32);
    let m13: i64 = fp_mul(a.m10, b.m03) + fp_mul(a.m11, b.m13) + fp_mul(a.m12, b.m23) + fp_mul(a.m13, b.m33);
    let m20: i64 = fp_mul(a.m20, b.m00) + fp_mul(a.m21, b.m10) + fp_mul(a.m22, b.m20) + fp_mul(a.m23, b.m30);
    let m21: i64 = fp_mul(a.m20, b.m01) + fp_mul(a.m21, b.m11) + fp_mul(a.m22, b.m21) + fp_mul(a.m23, b.m31);
    let m22: i64 = fp_mul(a.m20, b.m02) + fp_mul(a.m21, b.m12) + fp_mul(a.m22, b.m22) + fp_mul(a.m23, b.m32);
    let m23: i64 = fp_mul(a.m20, b.m03) + fp_mul(a.m21, b.m13) + fp_mul(a.m22, b.m23) + fp_mul(a.m23, b.m33);
    let m30: i64 = fp_mul(a.m30, b.m00) + fp_mul(a.m31, b.m10) + fp_mul(a.m32, b.m20) + fp_mul(a.m33, b.m30);
    let m31: i64 = fp_mul(a.m30, b.m01) + fp_mul(a.m31, b.m11) + fp_mul(a.m32, b.m21) + fp_mul(a.m33, b.m31);
    let m32: i64 = fp_mul(a.m30, b.m02) + fp_mul(a.m31, b.m12) + fp_mul(a.m32, b.m22) + fp_mul(a.m33, b.m32);
    let m33: i64 = fp_mul(a.m30, b.m03) + fp_mul(a.m31, b.m13) + fp_mul(a.m32, b.m23) + fp_mul(a.m33, b.m33);
    Mat4 { m00, m01, m02, m03, m10, m11, m12, m13, m20, m21, m22, m23, m30, m31, m32, m33 }
}

/// The fixed perspective projection, for row vectors: the focal factor
/// over the aspect ratio on x, the focal factor on y, and the usual
/// depth mapping of the near and far planes on z and w.
pub open spec fn spec_perspective() -> Mat4 {
    Mat4 {
        m00: ((COT_HALF_FOV as int * VIRTUAL_HEIGHT as int) / (VIRTUAL_WIDTH as int)) as i64, m01: 0, m02: 0, m03: 0,
        m10: 0, m11: COT_HALF_FOV, m12: 0, m13: 0,
        m20: 0, m21: 0,
        m22: (-(((FAR_PLANE as int + NEAR_PLANE as int) * 65536) / (FAR_PLANE as int - NEAR_PLANE as int))) as i64,
        m23: (-(FP_ONE as int)) as i64,
        m30: 0, m31: 0,
        m32: (-((2 * FAR_PLANE as int * NEAR_PLANE as int) / (FAR_PLANE as int - NEAR_PLANE as int))) as i64,
        m33: 0,
    }
}

/// Build the perspective projection from the fixed constants.
pub fn perspective() -> (r: Mat4)
    ensures
        r == spec_perspective(),
{
    let m00: i64 = (COT_HALF_FOV * VIRTUAL_HEIGHT) / VIRTUAL_WIDTH;
    let depth_range: i64 = FAR_PLANE - NEAR_PLANE;
    let m22: i64 = -(((FAR_PLANE + NEAR_PLANE) * 65536) / depth_range);
    let m32: i64 = -((2 * FAR_PLANE * NEAR_PLANE) / depth_range);
    Mat4 {
        m00, m01: 0, m02: 0, m03: 0,
        m10: 0, m11: COT_HALF_FOV, m12: 0, m13: 0,
        m20: 0, m21: 0, m22, m23: -FP_ONE,
        m30: 0, m31: 0, m32, m33: 0,
    }
}

/// The fixed view transform, for row vectors: the camera looks along the
/// positive z axis with the screen's y axis pointing down, which mirrors
/// x and y, and the translation row moves the eye to the origin.
pub open spec fn spec_view() -> Mat4 {
    Mat4 {
        m00: (-(FP_ONE as int)) as i64, m01: 0, m02: 0, m03: 0,
        m10: 0, m11: (-(FP_ONE as int)) as i64, m12: 0, m13: 0,
        m20: 0, m21: 0, m22: FP_ONE, m23: 0,
        m30: EYE_X, m31: EYE_Y, m32: CAMERA_DISTANCE, m33: FP_ONE,
    }
}

/// Build the static camera's view transform.
pub fn setup_camera() -> (r: Mat4)
    ensures
        r == spec_view(),
{
    Mat4 {
        m00: -FP_ONE, m01: 0, m02: 0, m03: 0,
        m10: 0, m11: -FP_ONE, m12: 0, m13: 0,
        m20: 0, m21: 0, m22: FP_ONE, m23: 0,
        m30: EYE_X, m31: EYE_Y, m32: CAMERA_DISTANCE, m33: FP_ONE,
    }
}

/// The model-view-projection transform: the view transform times the
/// perspective projection, both fixed.
pub open spec fn spec_mvp() -> Mat4 {
    spec_mat_mul(spec_view(), spec_perspective())
}

/// Build the frame's model-view-projection matrix. Deterministic: the
/// result is a function of compile-time constants alone, so repeated
/// calls yield bit-identical matrices.
pub fn build_mvp() -> (r: Mat4)
    ensures
        r == spec_mvp(),
{
    let view = setup_camera();
    let proj = perspective();
    mat_mul(&view, &proj)
}

/// The camera/projection builder is deterministic: any two matrices it
/// returns are bit-identical.
pub proof fn lemma_build_mvp_deterministic(a: Mat4, b: Mat4)
    requires
        a == spec_mvp(),
        b == spec_mvp(),
    ensures
        a == b,
{
}

} // verus!
