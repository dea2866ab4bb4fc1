//! Per-frame render decisions.
//!
//! A render program owns its mesh and its fixed model and view
//! transforms; each frame it turns the current [`AppState`] (plus the
//! trigonometric values the caller evaluates) into a frame plan: the
//! transforms to push as uniforms, the lighting constants, and whether
//! a second wireframe pass is drawn.  An unverified shell only has to
//! copy the plan onto the GPU.

use crate::fixed::{div_fx, fx_div, FX_DIV_BOUND, SCALE, TRIG_BOUND};
use crate::matrix::{
    identity, identity_spec, lemma_mat_bounded_widen, lemma_mm_bounded, mat_bounded, mm_spec,
    mult_matrix_4, mview, rotation_x_matrix, rotation_x_spec, rotation_z_matrix,
    rotation_z_spec, scale_matrix, scale_spec, translation_matrix, translation_spec, Mat4,
    MAT_MUL_BOUND,
};
use crate::projection::{
    build_sphere_mvp, get_3d_projection_matrix, grid_projection_ok, grid_projection_spec,
    perspective_spec, PERSP_F_BOUND, SPHERE_MAT_BOUND, SPHERE_MODEL_BOUND, Z_FAR, Z_NEAR, Z_PLANE,
};
use crate::sphere::Sphere;
use crate::state::AppState;
use vstd::prelude::*;

verus! {

/// One fixed-point unit: full intensity for a color channel.
pub const ONE_FX: i64 = 65536;

/// Half intensity (0.5).
pub const HALF_FX: i64 = 32768;

/// The dim ambient term of the solid pass (one fifth, rounded to scale).
pub const AMBIENT_DIM: i64 = 13107;

/// The strong channel of the material colors (four fifths, rounded).
pub const STRONG_FX: i64 = 52429;

/// The x component of the diffuse light position (minus one half:
/// above the viewer's left shoulder).
pub const LIGHT_X: i64 = -32768;

/// The z component of the diffuse light position (three quarters).
pub const LIGHT_Z: i64 = 49152;

/// The slight outward scale of the wireframe pass, a touch over one, so
/// the lines sit clear of the solid surface.
pub const WIREFRAME_PUSH: i64 = 65602;

/// The divisor turning elapsed milliseconds into the model's rotation
/// angle about the z axis.
pub const SPIN_DIVISOR: i64 = 1500;

/// Everything one draw call needs beyond the shared lighting: the pass
/// color constants and the two transform uniforms.
pub struct DrawPass {
    pub ambient_light_color: [i64; 3],
    pub material_color: [i64; 3],
    pub model_view: Mat4,
    pub model_view_projection: Mat4,
}

/// A whole frame of the sphere program: shared lighting uniforms, the
/// solid pass, and the wireframe pass when enabled.
pub struct SphereFrame {
    pub diffuse_light_color: [i64; 3],
    pub diffuse_light_position: [i64; 3],
    pub opacity: i64,
    pub solid: DrawPass,
    pub wire: Option<DrawPass>,
}

/// The model's spin: elapsed time divided by [`SPIN_DIVISOR`]
/// milliseconds, in radians.
pub fn model_rotation_angle(time: i64) -> (r: i64)
    requires
        -FX_DIV_BOUND <= time <= FX_DIV_BOUND,
    ensures
        r == fx_div(time as int, (SPIN_DIVISOR * SCALE) as int),
{
    div_fx(time, SPIN_DIVISOR * SCALE)
}

/// The sphere's view transform: a rotation about x by the angle whose
/// cosine and sine are given, followed by a translation of [`Z_PLANE`]
/// along z.
pub fn sphere_view_transform(cos_a: i64, sin_a: i64) -> (r: Mat4)
    requires
        -TRIG_BOUND <= cos_a <= TRIG_BOUND,
        -TRIG_BOUND <= sin_a <= TRIG_BOUND,
    ensures
        mview(r) == mm_spec(
            rotation_x_spec(cos_a as int, -(sin_a as int)),
            translation_spec(0, 0, Z_PLANE as int),
        ),
        mat_bounded(mview(r), SPHERE_MAT_BOUND as int),
{
    // The view rotation's sine sign is the opposite of the grid
    // viewport's x-rotation layout, so the sine goes in negated.
    let rot = rotation_x_matrix(cos_a, -sin_a);
    let t = translation_matrix(0, 0, Z_PLANE);
    proof {
        lemma_mat16_bounded(mview(rot), TRIG_BOUND as int);
        lemma_mat16_bounded(mview(t), 262144);
        lemma_mat_bounded_widen(mview(rot), TRIG_BOUND as int, MAT_MUL_BOUND as int);
        lemma_mat_bounded_widen(mview(t), 262144, MAT_MUL_BOUND as int);
    }
    let r = mult_matrix_4(&rot, &t);
    proof {
        lemma_mm_bounded(mview(rot), mview(t), TRIG_BOUND as int, 262144);
        assert(4 * ((TRIG_BOUND as int) * 262144) / (SCALE as int) + 1 <= SPHERE_MAT_BOUND as int);
        lemma_mat_bounded_widen(
            mview(r),
            4 * ((TRIG_BOUND as int) * 262144) / (SCALE as int) + 1,
            SPHERE_MAT_BOUND as int,
        );
    }
    r
}

/// A ready sphere render program: its mesh, its fixed model and view
/// transforms, and whether the wireframe overlay is drawn.  Once built
/// it only ever reads these fields.
pub struct SphereProgram {
    pub sphere: Sphere,
    pub model_transform: Mat4,
    pub view_transform: Mat4,
    pub wireframe: bool,
}

impl SphereProgram {
    /// The transforms stay inside the program bound and the mesh is a
    /// valid tessellation.
    pub open spec fn wf(self) -> bool {
        &&& self.sphere.dims_ok()
        &&& mat_bounded(mview(self.model_transform), SPHERE_MAT_BOUND as int)
        &&& mat_bounded(mview(self.view_transform), SPHERE_MAT_BOUND as int)
    }

    /// Builds the program around a tessellated sphere: the model
    /// transform starts as the identity and the view transform is
    /// given (see [`sphere_view_transform`]).
    pub fn new(sphere: Sphere, view_transform: Mat4, wireframe: bool) -> (p: SphereProgram)
        requires
            sphere.dims_ok(),
            mat_bounded(mview(view_transform), SPHERE_MAT_BOUND as int),
        ensures
            p.wf(),
            p.sphere == sphere,
            mview(p.model_transform) == identity_spec(),
            p.view_transform == view_transform,
            p.wireframe == wireframe,
    {
        let model = identity();
        proof {
            lemma_mat16_bounded(mview(model), SCALE as int);
            lemma_mat_bounded_widen(mview(model), SCALE as int, SPHERE_MAT_BOUND as int);
        }
        SphereProgram { sphere, model_transform: model, view_transform, wireframe }
    }
}

/// The solid pass's model transform: the program's own model transform
/// spun about z by the angle whose cosine and sine are given.
pub open spec fn solid_model_spec(p: SphereProgram, c: int, s: int) -> Seq<int> {
    mm_spec(rotation_z_spec(c, s), mview(p.model_transform))
}

/// The model/view of a pass whose model storage is `model`: the view
/// applied after it.
pub open spec fn pass_mv_spec(p: SphereProgram, model: Seq<int>) -> Seq<int> {
    mm_spec(model, mview(p.view_transform))
}

/// The model/view/projection of a pass: the perspective for the given
/// focal scalar and aspect ratio applied last.
pub open spec fn pass_mvp_spec(mv: Seq<int>, f: int, aspect: int) -> Seq<int> {
    mm_spec(mv, perspective_spec(f, aspect, Z_NEAR as int, Z_FAR as int))
}

impl SphereProgram {
    /// Computes one frame: the solid pass always, the wireframe pass
    /// exactly when the overlay is enabled, with its geometry pushed
    /// slightly outward by [`WIREFRAME_PUSH`] to stay clear of the
    /// solid surface.  The caller evaluates the cosine and sine of the
    /// model angle (see [`model_rotation_angle`]) and the perspective
    /// focal scalar; everything else is decided here.
    pub fn render_frame(&self, cos_t: i64, sin_t: i64, persp_f: i64, aspect: i64) -> (r:
        SphereFrame)
        requires
            self.wf(),
            -TRIG_BOUND <= cos_t <= TRIG_BOUND,
            -TRIG_BOUND <= sin_t <= TRIG_BOUND,
            -PERSP_F_BOUND <= persp_f <= PERSP_F_BOUND,
            2 <= aspect,
        ensures
            r.diffuse_light_color@ == seq![ONE_FX, ONE_FX, ONE_FX],
            r.diffuse_light_position@ == seq![LIGHT_X, HALF_FX, LIGHT_Z],
            r.opacity == ONE_FX,
            r.solid.ambient_light_color@ == seq![AMBIENT_DIM, AMBIENT_DIM, AMBIENT_DIM],
            r.solid.material_color@ == seq![HALF_FX, HALF_FX, STRONG_FX],
            mview(r.solid.model_view) == pass_mv_spec(
                *self,
                solid_model_spec(*self, cos_t as int, sin_t as int),
            ),
            mview(r.solid.model_view_projection) == pass_mvp_spec(
                pass_mv_spec(*self, solid_model_spec(*self, cos_t as int, sin_t as int)),
                persp_f as int,
                aspect as int,
            ),
            (r.wire is Some) <==> self.wireframe,
            (r.wire matches Some(w) ==> {
                let wire_model = mm_spec(
                    scale_spec(
                        WIREFRAME_PUSH as int,
                        WIREFRAME_PUSH as int,
                        WIREFRAME_PUSH as int,
                    ),
                    solid_model_spec(*self, cos_t as int, sin_t as int),
                );
                &&& w.ambient_light_color@ == seq![ONE_FX, ONE_FX, ONE_FX]
                &&& w.material_color@ == seq![HALF_FX, STRONG_FX, HALF_FX]
                &&& mview(w.model_view) == pass_mv_spec(*self, wire_model)
                &&& mview(w.model_view_projection) == pass_mvp_spec(
                    pass_mv_spec(*self, wire_model),
                    persp_f as int,
                    aspect as int,
                )
            }),
    {
        let ghost tb = TRIG_BOUND as int;
        let ghost smb = SPHERE_MAT_BOUND as int;
        let ghost sc = SCALE as int;
        // Spin the model about z by the current angle.
        let rot_z = rotation_z_matrix(cos_t, sin_t);
        proof {
            lemma_mat16_bounded(mview(rot_z), tb);
            lemma_mat_bounded_widen(mview(rot_z), tb, MAT_MUL_BOUND as int);
            lemma_mat_bounded_widen(mview(self.model_transform), smb, MAT_MUL_BOUND as int);
        }
        let solid_model = mult_matrix_4(&rot_z, &self.model_transform);
        let ghost b_solid = 4 * (tb * smb) / sc + 1;
        proof {
            lemma_mm_bounded(mview(rot_z), mview(self.model_transform), tb, smb);
            assert(b_solid <= SPHERE_MODEL_BOUND as int);
            lemma_mat_bounded_widen(mview(solid_model), b_solid, SPHERE_MODEL_BOUND as int);
        }
        let (mv, mvp) = build_sphere_mvp(
            &solid_model,
            &self.view_transform,
            persp_f,
            aspect,
            Z_NEAR,
            Z_FAR,
        );
        let solid = DrawPass {
            ambient_light_color: [AMBIENT_DIM, AMBIENT_DIM, AMBIENT_DIM],
            material_color: [HALF_FX, HALF_FX, STRONG_FX],
            model_view: mv,
            model_view_projection: mvp,
        };
        let wire: Option<DrawPass> = if self.wireframe {
            // Push the wireframe a little outward to prevent z-fighting.
            let push = scale_matrix(WIREFRAME_PUSH, WIREFRAME_PUSH, WIREFRAME_PUSH);
            proof {
                lemma_mat16_bounded(mview(push), 2 * SCALE);
                lemma_mat_bounded_widen(mview(push), 2 * SCALE, MAT_MUL_BOUND as int);
                lemma_mat_bounded_widen(mview(solid_model), b_solid, MAT_MUL_BOUND as int);
            }
            let wire_model = mult_matrix_4(&push, &solid_model);
            let ghost b_wire = 4 * (2 * sc * b_solid) / sc + 1;
            proof {
                lemma_mm_bounded(mview(push), mview(solid_model), 2 * sc, b_solid);
                assert(b_wire <= SPHERE_MODEL_BOUND as int);
                lemma_mat_bounded_widen(mview(wire_model), b_wire, SPHERE_MODEL_BOUND as int);
            }
            let (wire_mv, wire_mvp) = build_sphere_mvp(
                &wire_model,
                &self.view_transform,
                persp_f,
                aspect,
                Z_NEAR,
                Z_FAR,
            );
            Some(
                DrawPass {
                    ambient_light_color: [ONE_FX, ONE_FX, ONE_FX],
                    material_color: [HALF_FX, STRONG_FX, HALF_FX],
                    model_view: wire_mv,
                    model_view_projection: wire_mvp,
                },
            )
        } else {
            None
        };
        let r = SphereFrame {
            diffuse_light_color: [ONE_FX, ONE_FX, ONE_FX],
            diffuse_light_position: [LIGHT_X, HALF_FX, LIGHT_Z],
            opacity: ONE_FX,
            solid,
            wire,
        };
        proof {
            assert(r.diffuse_light_color@ =~= seq![ONE_FX, ONE_FX, ONE_FX]);
            assert(r.diffuse_light_position@ =~= seq![LIGHT_X, HALF_FX, LIGHT_Z]);
            assert(r.solid.ambient_light_color@ =~= seq![AMBIENT_DIM, AMBIENT_DIM, AMBIENT_DIM]);
            assert(r.solid.material_color@ =~= seq![HALF_FX, HALF_FX, STRONG_FX]);
            if r.wire is Some {
                assert(r.wire->Some_0.ambient_light_color@ =~= seq![ONE_FX, ONE_FX, ONE_FX]);
                assert(r.wire->Some_0.material_color@ =~= seq![HALF_FX, STRONG_FX, HALF_FX]);
            }
        }
        r
    }
}

/// One frame of the grid program: the single projection uniform and the
/// opacity, or nothing when the current viewport pushes the transform
/// out of range and the frame is skipped.
pub struct GridFrame {
    pub projection: Mat4,
    pub opacity: i64,
}

/// Computes the grid's frame from the shared state: the projection from
/// the viewport bounds, canvas size and the two rotation angles (whose
/// cosines and sines the caller evaluates), and the constant opacity.
pub fn graph_frame(
    state: &AppState,
    cos_x: i64,
    sin_x: i64,
    cos_y: i64,
    sin_y: i64,
    persp_f: i64,
) -> (r: Option<GridFrame>)
    requires
        state.wf(),
        -TRIG_BOUND <= cos_x <= TRIG_BOUND,
        -TRIG_BOUND <= sin_x <= TRIG_BOUND,
        -TRIG_BOUND <= cos_y <= TRIG_BOUND,
        -TRIG_BOUND <= sin_y <= TRIG_BOUND,
        -PERSP_F_BOUND <= persp_f <= PERSP_F_BOUND,
    ensures
        (r is Some) <==> grid_projection_ok(
            state.control_bottom as int,
            state.control_top as int,
            state.control_left as int,
            state.control_right as int,
            state.canvas_height as int,
            state.canvas_width as int,
            cos_x as int,
            sin_x as int,
            cos_y as int,
            sin_y as int,
        ),
        (r matches Some(f) ==> mview(f.projection) == grid_projection_spec(
            state.control_bottom as int,
            state.control_top as int,
            state.control_left as int,
            state.control_right as int,
            state.canvas_height as int,
            state.canvas_width as int,
            cos_x as int,
            sin_x as int,
            cos_y as int,
            sin_y as int,
            persp_f as int,
        ) && f.opacity == ONE_FX),
{
    let projection = get_3d_projection_matrix(
        state.control_bottom,
        state.control_top,
        state.control_left,
        state.control_right,
        state.canvas_height,
        state.canvas_width,
        cos_x,
        sin_x,
        cos_y,
        sin_y,
        persp_f,
    );
    match projection {
        Some(m) => Some(GridFrame { projection: m, opacity: ONE_FX }),
        None => None,
    }
}

/// Every entry of a sixteen-entry matrix whose array entries are each
/// within `b` is within `b`.
proof fn lemma_mat16_bounded(s: Seq<int>, b: int)
    requires
        s.len() == 16,
        forall|k: int| 0 <= k < 16 ==> -b <= #[trigger] s[k] <= b,
    ensures
        mat_bounded(s, b),
{
}

} // verus!
