//! Projection builders: the perspective matrix, the combined
//! orthographic-to-perspective transform that lets the flat grid live in
//! a 2D-styled, draggable viewport, and the model/view/projection pair
//! for the sphere.
//!
//! Every array here is column-major storage, and every composition is
//! written with [`mult_matrix_4`], whose result applies its first
//! argument's transform first (see the [`crate::matrix`] module doc).
//! The grid pipeline chains rotation, scale, translation and then the
//! perspective in exactly that way; the sphere pipeline does the same
//! with model, view and perspective.

use crate::fixed::{
    div_fx, fx_div, fx_mul, lemma_fx_mul_fits, lemma_tdiv_exact, lemma_tdiv_in_range, mul_fx,
    tdiv, FX_DIV_BOUND, SCALE, TRIG_BOUND,
};
use crate::matrix::{
    identity_spec, lemma_mat_bounded_widen, lemma_mm_bounded, lemma_mult_identity_left,
    mat_bounded, mm_spec, mult_matrix_4, mult_matrix_4_checked, mview, rotation_x_matrix,
    rotation_x_spec, rotation_y_matrix, rotation_y_spec, scale_matrix, scale_spec,
    translation_matrix, translation_spec, Mat4, MAT_MUL_BOUND,
};
use vstd::arithmetic::div_mod::lemma_div_is_ordered;
use vstd::prelude::*;

verus! {

/// Distance of the fixed camera plane along z.  Configuration constant:
/// negative two and a half units.
pub const Z_PLANE: i64 = -163840;

/// Near clipping plane: a quarter unit.
pub const Z_NEAR: i64 = 16384;

/// Far clipping plane: one hundred units.
pub const Z_FAR: i64 = 6553600;

/// Cell count of the flat grid surface.
pub const GRID_SIZE: usize = 100;

/// Largest accepted perspective focal scalar (sixteen units).
pub const PERSP_F_BOUND: i64 = 1048576;

/// Largest accepted clipping-plane distance (1024 units).
pub const FRUSTUM_BOUND: i64 = 67108864;

/// Largest accepted viewport bound (16384 units, one per pixel).
pub const VIEWPORT_BOUND: i64 = 1073741824;

/// Largest accepted canvas dimension (32768 pixels).
pub const CANVAS_BOUND: i64 = 2147483648;

/// Bound for the matrices a sphere program carries (64 units).
pub const SPHERE_MAT_BOUND: i64 = 4194304;

/// Bound for a per-frame composed model transform (8192 units): wide
/// enough for a program matrix spun and pushed outward each frame.
pub const SPHERE_MODEL_BOUND: i64 = 536870912;

/// The perspective projection: focal scalar `f` (the
/// cotangent of half the field of view, supplied by the caller), the
/// ratio of canvas width to height, and the near and far clipping
/// planes.
pub open spec fn perspective_spec(f: int, aspect: int, near: int, far: int) -> Seq<int> {
    let m00 = fx_div(f, aspect);
    let m22 = fx_div(far + near, near - far);
    let m23 = fx_div(fx_mul(fx_mul(2 * SCALE, far), near), near - far);
    seq![
        m00, 0, 0, 0,
        0, f, 0, 0,
        0, 0, m22, -(SCALE as int),
        0, 0, m23, 0,
    ]
}

/// Builds the perspective matrix.
pub fn perspective_matrix(f: i64, aspect: i64, near: i64, far: i64) -> (r: Mat4)
    requires
        -PERSP_F_BOUND <= f <= PERSP_F_BOUND,
        2 <= aspect,
        0 < near < far <= FRUSTUM_BOUND,
        SCALE <= far - near,
    ensures
        mview(r) == perspective_spec(f as int, aspect as int, near as int, far as int),
        mat_bounded(mview(r), MAT_MUL_BOUND as int),
{
    let m00: i64 = div_fx(f, aspect);
    proof {
        assert(-(68719476736 * aspect) <= f * SCALE <= 68719476736 * aspect) by (nonlinear_arith)
            requires
                -PERSP_F_BOUND <= f <= PERSP_F_BOUND,
                1 <= aspect,
                2 <= aspect,
                PERSP_F_BOUND == 1048576,
                SCALE == 65536,
        ;
        lemma_tdiv_in_range(f * SCALE, aspect as int, 68719476736);
    }
    let denom: i64 = near - far;
    let m22: i64 = div_fx(far + near, denom);
    proof {
        let num = (far + near) as int;
        assert(fx_div(num, denom as int) == tdiv(-(num * SCALE), (far - near) as int));
        assert(-(134217728 * ((far - near) as int)) <= -(num * SCALE) <= 134217728 * ((far
            - near) as int)) by (nonlinear_arith)
            requires
                0 < near < far <= FRUSTUM_BOUND,
                SCALE <= far - near,
                num == far + near,
                FRUSTUM_BOUND == 67108864,
                SCALE == 65536,
        ;
        lemma_tdiv_in_range(-(num * SCALE), (far - near) as int, 134217728);
    }
    proof {
        assert(-(i64::MAX * SCALE) <= (2 * SCALE) * far <= i64::MAX * SCALE && (2 * SCALE) * far
            == (2 * far) * SCALE) by (nonlinear_arith)
            requires
                0 < far <= FRUSTUM_BOUND,
                FRUSTUM_BOUND == 67108864,
                SCALE == 65536,
        ;
    }
    let two_far: i64 = mul_fx(2 * SCALE, far);
    proof {
        lemma_tdiv_exact(2 * (far as int), SCALE as int);
        assert(two_far == 2 * far);
        lemma_fx_mul_fits(two_far as int, near as int, 134217728, FRUSTUM_BOUND as int);
    }
    let t2: i64 = mul_fx(two_far, near);
    let m23: i64 = div_fx(t2, denom);
    proof {
        let b23 = 134217728 * (FRUSTUM_BOUND as int) / (SCALE as int) + 1;
        assert(fx_div(t2 as int, denom as int) == tdiv(-(t2 * SCALE), (far - near) as int));
        assert(-(b23 * ((far - near) as int)) <= -((t2 as int) * SCALE) <= b23 * ((far
            - near) as int)) by (nonlinear_arith)
            requires
                -b23 <= t2 <= b23,
                SCALE <= far - near,
                SCALE == 65536,
                0 <= b23,
        ;
        lemma_tdiv_in_range(-((t2 as int) * SCALE), (far - near) as int, b23);
    }
    let m = Mat4 {
        e: [
            m00, 0, 0, 0,
            0, f, 0, 0,
            0, 0, m22, -SCALE,
            0, 0, m23, 0,
        ],
    };
    proof {
        assert(mview(m) =~= perspective_spec(f as int, aspect as int, near as int, far as int));
        assert forall|k: int| 0 <= k < 16 implies -(MAT_MUL_BOUND as int) <= #[trigger] mview(
            m,
        )[k] <= MAT_MUL_BOUND as int by {
            assert(mview(m)[k] == m.e@[k] as int);
        }
    }
    m
}

/// The x offset of the grid viewport translation:
/// `-1 + (right - left) / w + 2 * left / w`.
pub open spec fn grid_translation_x(left: int, right: int, cw: int) -> int {
    -(SCALE as int) + fx_div(right - left, cw) + fx_div(fx_mul(2 * SCALE, left), cw)
}

/// The y offset of the grid viewport translation:
/// `-1 + (top - bottom) / h + 2 * bottom / h`.
pub open spec fn grid_translation_y(bottom: int, top: int, ch: int) -> int {
    -(SCALE as int) + fx_div(top - bottom, ch) + fx_div(fx_mul(2 * SCALE, bottom), ch)
}

/// The product of the grid's rotation, scale and translation stages:
/// the transform that places the dragged viewport, before the
/// perspective is applied.
pub open spec fn grid_combined_spec(
    bottom: int,
    top: int,
    left: int,
    right: int,
    ch: int,
    cw: int,
    cx: int,
    sx: int,
    cy: int,
    sy: int,
) -> Seq<int> {
    let rotation = mm_spec(rotation_x_spec(cx, sx), rotation_y_spec(cy, sy));
    let sg = fx_div(top - bottom, ch);
    let rotation_scale = mm_spec(rotation, scale_spec(sg, sg, 0));
    mm_spec(
        rotation_scale,
        translation_spec(
            grid_translation_x(left, right, cw),
            grid_translation_y(bottom, top, ch),
            Z_PLANE as int,
        ),
    )
}

/// The whole grid projection: the combined transform above with the
/// perspective applied last.
pub open spec fn grid_projection_spec(
    bottom: int,
    top: int,
    left: int,
    right: int,
    ch: int,
    cw: int,
    cx: int,
    sx: int,
    cy: int,
    sy: int,
    f: int,
) -> Seq<int> {
    mm_spec(
        grid_combined_spec(bottom, top, left, right, ch, cw, cx, sx, cy, sy),
        perspective_spec(f, fx_div(cw, ch), Z_NEAR as int, Z_FAR as int),
    )
}

/// The one place the grid pipeline can leave the fixed-point range: the
/// combined transform's entries must stay within [`MAT_MUL_BOUND`].
pub open spec fn grid_projection_ok(
    bottom: int,
    top: int,
    left: int,
    right: int,
    ch: int,
    cw: int,
    cx: int,
    sx: int,
    cy: int,
    sy: int,
) -> bool {
    mat_bounded(
        grid_combined_spec(bottom, top, left, right, ch, cw, cx, sx, cy, sy),
        MAT_MUL_BOUND as int,
    )
}

/// Composes the grid's viewport transform: rotation about X, rotation
/// about Y, an anisotropic scale reconciling viewport and canvas, a
/// translation offset by the viewport bounds, and finally the
/// perspective projection.  The caller supplies the cosine and sine of the two
/// rotation angles and the focal scalar of the perspective.
///
/// Returns the projection unless the combined transform leaves the
/// fixed-point range ([`grid_projection_ok`]), in which case the frame
/// is not drawable and `None` comes back.
pub fn get_3d_projection_matrix(
    bottom: i64,
    top: i64,
    left: i64,
    right: i64,
    canvas_height: i64,
    canvas_width: i64,
    cos_x: i64,
    sin_x: i64,
    cos_y: i64,
    sin_y: i64,
    persp_f: i64,
) -> (r: Option<Mat4>)
    requires
        SCALE <= canvas_height <= CANVAS_BOUND,
        SCALE <= canvas_width <= CANVAS_BOUND,
        -VIEWPORT_BOUND <= bottom <= VIEWPORT_BOUND,
        -VIEWPORT_BOUND <= top <= VIEWPORT_BOUND,
        -VIEWPORT_BOUND <= left <= VIEWPORT_BOUND,
        -VIEWPORT_BOUND <= right <= VIEWPORT_BOUND,
        -TRIG_BOUND <= cos_x <= TRIG_BOUND,
        -TRIG_BOUND <= sin_x <= TRIG_BOUND,
        -TRIG_BOUND <= cos_y <= TRIG_BOUND,
        -TRIG_BOUND <= sin_y <= TRIG_BOUND,
        -PERSP_F_BOUND <= persp_f <= PERSP_F_BOUND,
    ensures
        r is Some <==> grid_projection_ok(
            bottom as int,
            top as int,
            left as int,
            right as int,
            canvas_height as int,
            canvas_width as int,
            cos_x as int,
            sin_x as int,
            cos_y as int,
            sin_y as int,
        ),
        r matches Some(m) ==> mview(m) == grid_projection_spec(
            bottom as int,
            top as int,
            left as int,
            right as int,
            canvas_height as int,
            canvas_width as int,
            cos_x as int,
            sin_x as int,
            cos_y as int,
            sin_y as int,
            persp_f as int,
        ),
{
    let tb: i64 = TRIG_BOUND;
    // Rotations around the x and y axes, packed together.
    let rotate_x_axis = rotation_x_matrix(cos_x, sin_x);
    let rotate_y_axis = rotation_y_matrix(cos_y, sin_y);
    proof {
        lemma_seq16_bounded(mview(rotate_x_axis), tb as int);
        lemma_seq16_bounded(mview(rotate_y_axis), tb as int);
        lemma_mat_bounded_widen(mview(rotate_x_axis), tb as int, MAT_MUL_BOUND as int);
        lemma_mat_bounded_widen(mview(rotate_y_axis), tb as int, MAT_MUL_BOUND as int);
    }
    let rotation_matrix = mult_matrix_4(&rotate_x_axis, &rotate_y_axis);
    proof {
        lemma_mm_bounded(mview(rotate_x_axis), mview(rotate_y_axis), tb as int, tb as int);
        assert(4 * ((tb as int) * (tb as int)) / (SCALE as int) + 1 == 1048577);
        lemma_mat_bounded_widen(mview(rotation_matrix), 1048577, MAT_MUL_BOUND as int);
    }
    // Viewport-derived scale factors.
    let scale_x: i64 = div_fx(right - left, canvas_width);
    let scale_y: i64 = div_fx(top - bottom, canvas_height);
    let scale_generic: i64 = scale_y;
    proof {
        lemma_viewport_div_bound(right as int, left as int, canvas_width as int);
        lemma_viewport_div_bound(top as int, bottom as int, canvas_height as int);
    }
    // The translation reconciling viewport pixels with the -1 to 1 range.
    proof {
        lemma_two_times_exact(left as int);
        lemma_two_times_exact(bottom as int);
    }
    let two_left: i64 = mul_fx(2 * SCALE, left);
    let two_bottom: i64 = mul_fx(2 * SCALE, bottom);
    let left_ratio: i64 = div_fx(two_left, canvas_width);
    let bottom_ratio: i64 = div_fx(two_bottom, canvas_height);
    proof {
        lemma_viewport_ratio_bound(two_left as int, canvas_width as int);
        lemma_viewport_ratio_bound(two_bottom as int, canvas_height as int);
    }
    let tx: i64 = -SCALE + scale_x + left_ratio;
    let ty: i64 = -SCALE + scale_y + bottom_ratio;
    let translation = translation_matrix(tx, ty, Z_PLANE);
    proof {
        lemma_seq16_bounded(mview(translation), 8589934592);
        lemma_mat_bounded_widen(mview(translation), 8589934592, MAT_MUL_BOUND as int);
    }
    let scale_m = scale_matrix(scale_generic, scale_generic, 0);
    proof {
        lemma_seq16_bounded(mview(scale_m), 2147483648);
        lemma_mat_bounded_widen(mview(scale_m), 2147483648, MAT_MUL_BOUND as int);
    }
    let rotation_scale = mult_matrix_4(&rotation_matrix, &scale_m);
    proof {
        lemma_mm_bounded(mview(rotation_matrix), mview(scale_m), 1048577, 2147483648);
        assert(4 * (1048577int * 2147483648) / (SCALE as int) + 1 <= MAT_MUL_BOUND as int);
        lemma_mat_bounded_widen(
            mview(rotation_scale),
            4 * (1048577int * 2147483648) / (SCALE as int) + 1,
            MAT_MUL_BOUND as int,
        );
    }
    // The only stage whose entries can leave the fixed-point range.
    let combined_transform = match mult_matrix_4_checked(&rotation_scale, &translation) {
        Some(m) => m,
        None => {
            return None;
        },
    };
    // The perspective gives it depth.
    let aspect_ratio: i64 = div_fx(canvas_width, canvas_height);
    proof {
        lemma_aspect_at_least_two(canvas_width as int, canvas_height as int);
        lemma_viewport_ratio_bound(canvas_width as int, canvas_height as int);
    }
    let perspective = perspective_matrix(persp_f, aspect_ratio, Z_NEAR, Z_FAR);
    let result = mult_matrix_4(&combined_transform, &perspective);
    Some(result)
}

/// The model/view and model/view/projection pair for the sphere:
/// `model_view = view * model` and
/// `model_view_projection = perspective * model_view`.
pub fn build_sphere_mvp(
    model: &Mat4,
    view: &Mat4,
    persp_f: i64,
    aspect: i64,
    near: i64,
    far: i64,
) -> (r: (Mat4, Mat4))
    requires
        mat_bounded(mview(*model), SPHERE_MODEL_BOUND as int),
        mat_bounded(mview(*view), SPHERE_MAT_BOUND as int),
        -PERSP_F_BOUND <= persp_f <= PERSP_F_BOUND,
        2 <= aspect,
        0 < near < far <= FRUSTUM_BOUND,
        SCALE <= far - near,
    ensures
        mview(r.0) == mm_spec(mview(*model), mview(*view)),
        mview(r.1) == mm_spec(
            mm_spec(mview(*model), mview(*view)),
            perspective_spec(persp_f as int, aspect as int, near as int, far as int),
        ),
        mat_bounded(mview(r.0), 137438953473),
{
    proof {
        lemma_mat_bounded_widen(mview(*model), SPHERE_MODEL_BOUND as int, MAT_MUL_BOUND as int);
        lemma_mat_bounded_widen(mview(*view), SPHERE_MAT_BOUND as int, MAT_MUL_BOUND as int);
    }
    let mv = mult_matrix_4(model, view);
    proof {
        lemma_mm_bounded(
            mview(*model),
            mview(*view),
            SPHERE_MODEL_BOUND as int,
            SPHERE_MAT_BOUND as int,
        );
        assert(4 * ((SPHERE_MODEL_BOUND as int) * (SPHERE_MAT_BOUND as int)) / (SCALE as int) + 1
            == 137438953473);
        lemma_mat_bounded_widen(mview(mv), 137438953473, MAT_MUL_BOUND as int);
    }
    let perspective = perspective_matrix(persp_f, aspect, near, far);
    let mvp = mult_matrix_4(&mv, &perspective);
    (mv, mvp)
}

/// Component `i` of a transform applied to the homogeneous point
/// (x, y, z, 1), reading the storage column-major.
pub open spec fn transform_coord(m: Seq<int>, i: int, x: int, y: int, z: int) -> int {
    fx_mul(m[i], x) + fx_mul(m[4 + i], y) + fx_mul(m[8 + i], z) + m[12 + i]
}

/// One clip-space component of the transformed point.
fn transform_one(m: &Mat4, i: usize, x: i64, y: i64, z: i64) -> (r: i64)
    requires
        i < 4,
        mat_bounded(mview(*m), MAT_MUL_BOUND as int),
        -MAT_MUL_BOUND <= x <= MAT_MUL_BOUND,
        -MAT_MUL_BOUND <= y <= MAT_MUL_BOUND,
        -MAT_MUL_BOUND <= z <= MAT_MUL_BOUND,
    ensures
        r == transform_coord(mview(*m), i as int, x as int, y as int, z as int),
{
    proof {
        let mb = MAT_MUL_BOUND as int;
        assert(mview(*m)[i as int] == m.e@[i as int] as int);
        assert(mview(*m)[4 + i as int] == m.e@[4 + i as int] as int);
        assert(mview(*m)[8 + i as int] == m.e@[8 + i as int] as int);
        assert(mview(*m)[12 + i as int] == m.e@[12 + i as int] as int);
        lemma_fx_mul_fits(m.e@[i as int] as int, x as int, mb, mb);
        lemma_fx_mul_fits(m.e@[4 + i as int] as int, y as int, mb, mb);
        lemma_fx_mul_fits(m.e@[8 + i as int] as int, z as int, mb, mb);
        assert(3 * ((mb * mb) / (SCALE as int) + 1) + mb < i64::MAX);
    }
    let t0: i64 = mul_fx(m.e[i], x);
    let t1: i64 = mul_fx(m.e[4 + i], y);
    let t2: i64 = mul_fx(m.e[8 + i], z);
    t0 + t1 + t2 + m.e[12 + i]
}

/// Applies a transform to the homogeneous point (x, y, z, 1), yielding
/// the four clip-space components.
pub fn transform_point(m: &Mat4, x: i64, y: i64, z: i64) -> (r: (i64, i64, i64, i64))
    requires
        mat_bounded(mview(*m), MAT_MUL_BOUND as int),
        -MAT_MUL_BOUND <= x <= MAT_MUL_BOUND,
        -MAT_MUL_BOUND <= y <= MAT_MUL_BOUND,
        -MAT_MUL_BOUND <= z <= MAT_MUL_BOUND,
    ensures
        r.0 == transform_coord(mview(*m), 0, x as int, y as int, z as int),
        r.1 == transform_coord(mview(*m), 1, x as int, y as int, z as int),
        r.2 == transform_coord(mview(*m), 2, x as int, y as int, z as int),
        r.3 == transform_coord(mview(*m), 3, x as int, y as int, z as int),
{
    (
        transform_one(m, 0, x, y, z),
        transform_one(m, 1, x, y, z),
        transform_one(m, 2, x, y, z),
        transform_one(m, 3, x, y, z),
    )
}

/// With an identity model and view, the model/view collapses to the
/// identity, the model/view/projection to the bare perspective, and the
/// point on the sphere's pole --- at (0, 0, radius) --- lands exactly
/// on the view axis: its clip-space x and y are zero, with no tolerance
/// needed.
pub proof fn lemma_pole_projection_centered(radius: int, f: int, aspect: int, near: int, far: int)
    ensures
        mm_spec(identity_spec(), identity_spec()) == identity_spec(),
        mm_spec(identity_spec(), perspective_spec(f, aspect, near, far)) == perspective_spec(
            f,
            aspect,
            near,
            far,
        ),
        transform_coord(perspective_spec(f, aspect, near, far), 0, 0, 0, radius) == 0,
        transform_coord(perspective_spec(f, aspect, near, far), 1, 0, 0, radius) == 0,
{
    assert(perspective_spec(f, aspect, near, far).len() == 16);
    lemma_mult_identity_left(identity_spec());
    lemma_mult_identity_left(perspective_spec(f, aspect, near, far));
    lemma_persp_upper_right_zero(f, aspect, near, far);
    lemma_transform_xy_zero(perspective_spec(f, aspect, near, far), radius);
}

/// The perspective's third and fourth columns hold nothing in their
/// first two rows.
proof fn lemma_persp_upper_right_zero(f: int, aspect: int, near: int, far: int)
    ensures
        perspective_spec(f, aspect, near, far).len() == 16,
        perspective_spec(f, aspect, near, far)[8] == 0,
        perspective_spec(f, aspect, near, far)[9] == 0,
        perspective_spec(f, aspect, near, far)[12] == 0,
        perspective_spec(f, aspect, near, far)[13] == 0,
{
}

/// A transform whose third and fourth columns are zero in their first
/// two rows keeps the clip-space x and y of (0, 0, z, 1) at zero.
proof fn lemma_transform_xy_zero(p: Seq<int>, z: int)
    requires
        p.len() == 16,
        p[8] == 0,
        p[12] == 0,
        p[9] == 0,
        p[13] == 0,
    ensures
        transform_coord(p, 0, 0, 0, z) == 0,
        transform_coord(p, 1, 0, 0, z) == 0,
{
    lemma_fx_mul_zero(p[0]);
    lemma_fx_mul_zero(p[4]);
    lemma_fx_mul_zero(p[1]);
    lemma_fx_mul_zero(p[5]);
    lemma_fx_mul_zero_left(z);
}

/// Multiplying by a zero operand gives zero.
proof fn lemma_fx_mul_zero(a: int)
    ensures
        fx_mul(a, 0) == 0,
{
    assert(a * 0 == 0) by (nonlinear_arith);
    vstd::arithmetic::div_mod::lemma_div_of0(SCALE as int);
}

/// Multiplying zero by any operand gives zero.
proof fn lemma_fx_mul_zero_left(b: int)
    ensures
        fx_mul(0, b) == 0,
{
    assert(0 * b == 0) by (nonlinear_arith);
    vstd::arithmetic::div_mod::lemma_div_of0(SCALE as int);
}

/// Every entry of a sixteen-entry matrix whose array entries are each
/// within `b` is within `b`.
proof fn lemma_seq16_bounded(s: Seq<int>, b: int)
    requires
        s.len() == 16,
        forall|k: int| 0 <= k < 16 ==> -b <= #[trigger] s[k] <= b,
    ensures
        mat_bounded(s, b),
{
}

/// The quotient of a viewport difference by a canvas dimension stays
/// within 2^31.
proof fn lemma_viewport_div_bound(hi: int, lo: int, canvas: int)
    requires
        -VIEWPORT_BOUND <= hi <= VIEWPORT_BOUND,
        -VIEWPORT_BOUND <= lo <= VIEWPORT_BOUND,
        SCALE <= canvas,
    ensures
        -2147483648 <= fx_div(hi - lo, canvas) <= 2147483648,
{
    assert(-(2147483648 * canvas) <= (hi - lo) * SCALE <= 2147483648 * canvas)
        by (nonlinear_arith)
        requires
            -VIEWPORT_BOUND <= hi <= VIEWPORT_BOUND,
            -VIEWPORT_BOUND <= lo <= VIEWPORT_BOUND,
            SCALE <= canvas,
            VIEWPORT_BOUND == 1073741824,
            SCALE == 65536,
    ;
    lemma_tdiv_in_range((hi - lo) * SCALE, canvas, 2147483648);
}

/// The quotient of a doubled viewport bound (or a canvas width) by a
/// canvas dimension stays within 2^31.
proof fn lemma_viewport_ratio_bound(num: int, canvas: int)
    requires
        -(2 * VIEWPORT_BOUND) <= num <= 2 * VIEWPORT_BOUND,
        SCALE <= canvas,
    ensures
        -2147483648 <= fx_div(num, canvas) <= 2147483648,
{
    assert(-(2147483648 * canvas) <= num * SCALE <= 2147483648 * canvas) by (nonlinear_arith)
        requires
            -(2 * VIEWPORT_BOUND) <= num <= 2 * VIEWPORT_BOUND,
            SCALE <= canvas,
            VIEWPORT_BOUND == 1073741824,
            SCALE == 65536,
    ;
    lemma_tdiv_in_range(num * SCALE, canvas, 2147483648);
}

/// Doubling in fixed point is exact: `2 * x` at scale.
proof fn lemma_two_times_exact(x: int)
    requires
        -VIEWPORT_BOUND <= x <= VIEWPORT_BOUND,
    ensures
        fx_mul(2 * SCALE, x) == 2 * x,
        -(i64::MAX * SCALE) <= (2 * SCALE) * x <= i64::MAX * SCALE,
{
    assert((2 * SCALE) * x == (2 * x) * SCALE && -(i64::MAX * SCALE) <= (2 * SCALE) * x
        <= i64::MAX * SCALE) by (nonlinear_arith)
        requires
            -VIEWPORT_BOUND <= x <= VIEWPORT_BOUND,
            VIEWPORT_BOUND == 1073741824,
            SCALE == 65536,
    ;
    lemma_tdiv_exact(2 * x, SCALE as int);
}

/// A canvas at least one pixel wide, against a canvas at most 32768
/// pixels tall, gives an aspect ratio of at least two unit steps.
proof fn lemma_aspect_at_least_two(cw: int, ch: int)
    requires
        SCALE <= cw <= CANVAS_BOUND,
        SCALE <= ch <= CANVAS_BOUND,
    ensures
        2 <= fx_div(cw, ch),
{
    assert(ch * 2 <= cw * SCALE) by (nonlinear_arith)
        requires
            SCALE <= cw,
            ch <= CANVAS_BOUND,
            CANVAS_BOUND == 2147483648,
            SCALE == 65536,
    ;
    lemma_div_is_ordered(ch * 2, cw * SCALE, ch);
    vstd::arithmetic::div_mod::lemma_div_multiples_vanish(2, ch);
    assert(ch * 2 == ch * 2);
    assert((ch * 2) / ch == 2);
    vstd::arithmetic::div_mod::lemma_div_pos_is_pos(cw * SCALE, ch);
}

} // verus!
