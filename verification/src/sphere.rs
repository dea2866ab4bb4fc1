//! UV-sphere tessellation.
//!
//! A sphere of a given radius and angular resolution is swept into
//! `v_sectors` latitude bands and `h_sectors` longitude bands.  The
//! vertex lattice has one row per latitude step and one column per
//! longitude step, both ends included, so `(v_sectors + 1) *
//! (h_sectors + 1)` vertices in all.  Each quad cell of the lattice is
//! triangulated, except that the first and last rows collapse into
//! single triangles at the poles, and a wireframe edge list is laid
//! down alongside.
//!
//! The trigonometric values for the band angles cannot be produced
//! here; the caller passes them in as fixed-point tables, one entry per
//! band boundary, and every vertex coordinate is specified exactly in
//! terms of those tables.

use crate::fixed::{
    div_fx, fx_div, fx_mul, lemma_fx_mul_fits, lemma_tdiv_in_range, mul_fx, tdiv, trig_ok, SCALE,
    TRIG_BOUND,
};
use crate::matrix::MAT_MUL_BOUND;
use vstd::arithmetic::div_mod::lemma_fundamental_div_mod_converse;
use vstd::prelude::*;

verus! {

/// Upper bound on the number of latitude or longitude bands; keeps every
/// index and every vector length comfortably inside `u32` and `usize`.
pub const MAX_SECTORS: u32 = 20000;

/// The contents of an index vector as unbounded integers.
pub open spec fn iview(s: Seq<u32>) -> Seq<int> {
    s.map_values(|x: u32| x as int)
}

/// Number of vertices in the lattice.
pub open spec fn vertex_count(vs: int, hs: int) -> int {
    (vs + 1) * (hs + 1)
}

/// The face-triangle indices a single lattice cell contributes.  Cell
/// (`v`, `h`) has corners top-left, top-right, bottom-left and
/// bottom-right; the first row emits only its lower triangle and the last
/// row only its upper one, so no zero-area triangle is emitted at a pole.
pub open spec fn face_cell(vs: int, hs: int, v: int, h: int) -> Seq<int> {
    let tl = v * (hs + 1) + h;
    let tr = tl + 1;
    let bl = (v + 1) * (hs + 1) + h;
    let br = bl + 1;
    (if v != 0 {
        seq![tl, bl, tr]
    } else {
        Seq::<int>::empty()
    }) + (if v != vs - 1 {
        seq![bl, br, tr]
    } else {
        Seq::<int>::empty()
    })
}

/// The face indices of the first `h` cells of row `v`.
pub open spec fn face_row(vs: int, hs: int, v: int, h: int) -> Seq<int>
    decreases h,
{
    if h <= 0 {
        Seq::<int>::empty()
    } else {
        face_row(vs, hs, v, h - 1) + face_cell(vs, hs, v, h - 1)
    }
}

/// The face indices of the first `v` whole rows.
pub open spec fn face_rows(vs: int, hs: int, v: int) -> Seq<int>
    decreases v,
{
    if v <= 0 {
        Seq::<int>::empty()
    } else {
        face_rows(vs, hs, v - 1) + face_row(vs, hs, v - 1, hs)
    }
}

/// All face-triangle indices of the sphere.
pub open spec fn face_indices_spec(vs: int, hs: int) -> Seq<int> {
    face_rows(vs, hs, vs)
}

/// The wireframe indices a single cell contributes: always its left
/// (vertical) edge, and its top (horizontal) edge on every row but the
/// first, where all lattice points coincide at the pole.
pub open spec fn wire_cell(vs: int, hs: int, v: int, h: int) -> Seq<int> {
    let tl = v * (hs + 1) + h;
    let tr = tl + 1;
    let bl = (v + 1) * (hs + 1) + h;
    seq![tl, bl] + (if v != 0 {
        seq![tl, tr]
    } else {
        Seq::<int>::empty()
    })
}

/// The wireframe indices of the first `h` cells of row `v`.
pub open spec fn wire_row(vs: int, hs: int, v: int, h: int) -> Seq<int>
    decreases h,
{
    if h <= 0 {
        Seq::<int>::empty()
    } else {
        wire_row(vs, hs, v, h - 1) + wire_cell(vs, hs, v, h - 1)
    }
}

/// The wireframe indices of the first `v` whole rows.
pub open spec fn wire_rows(vs: int, hs: int, v: int) -> Seq<int>
    decreases v,
{
    if v <= 0 {
        Seq::<int>::empty()
    } else {
        wire_rows(vs, hs, v - 1) + wire_row(vs, hs, v - 1, hs)
    }
}

/// All wireframe indices of the sphere.
pub open spec fn wireframe_indices_spec(vs: int, hs: int) -> Seq<int> {
    wire_rows(vs, hs, vs)
}

/// The x (and, by the sweep's own formula, also the y) coordinate of
/// lattice point `k`: the band hypotenuse `radius * cos(v_angle)` times
/// the sine of the horizontal angle.  Both horizontal axes use the same
/// sine term; that asymmetry is part of this sweep and is preserved
/// exactly.
pub open spec fn vert_x(radius: int, cv: Seq<i64>, sh: Seq<i64>, hs: int, k: int) -> int {
    fx_mul(fx_mul(radius, cv[k / (hs + 1)] as int), sh[k % (hs + 1)] as int)
}

/// The z coordinate of lattice point `k`: `radius * sin(v_angle)`.
pub open spec fn vert_z(radius: int, sv: Seq<i64>, hs: int, k: int) -> int {
    fx_mul(radius, sv[k / (hs + 1)] as int)
}

/// A coordinate scaled by `1 / radius`, as the normal vectors are.
pub open spec fn norm_val(x: int, radius: int) -> int {
    fx_mul(x, fx_div(SCALE as int, radius))
}

/// The whole generated mesh, pinned down entry by entry: vertex and
/// normal coordinates in terms of the trigonometric tables, and both
/// index lists equal to their specifications.
pub open spec fn mesh_ok(s: Sphere, sv: Seq<i64>, cv: Seq<i64>, sh: Seq<i64>) -> bool {
    let vs = s.v_sectors as int;
    let hs = s.h_sectors as int;
    let r = s.radius as int;
    &&& s.vertices@.len() == 3 * vertex_count(vs, hs)
    &&& s.normals@.len() == 3 * vertex_count(vs, hs)
    &&& (forall|k: int|
        0 <= k < vertex_count(vs, hs) ==> {
            &&& s.vertices@[3 * k] == #[trigger] vert_x(r, cv, sh, hs, k)
            &&& s.vertices@[3 * k + 1] == vert_x(r, cv, sh, hs, k)
            &&& s.vertices@[3 * k + 2] == vert_z(r, sv, hs, k)
            &&& s.normals@[3 * k] == norm_val(vert_x(r, cv, sh, hs, k), r)
            &&& s.normals@[3 * k + 1] == norm_val(vert_x(r, cv, sh, hs, k), r)
            &&& s.normals@[3 * k + 2] == norm_val(vert_z(r, sv, hs, k), r)
        })
    &&& iview(s.face_indices@) == face_indices_spec(vs, hs)
    &&& iview(s.wireframe_indices@) == wireframe_indices_spec(vs, hs)
}

/// A tessellated sphere: the lattice dimensions, the flattened vertex
/// and normal coordinates (fixed-point, three per lattice point), and
/// the two index lists.  Vertices and normals are empty until
/// [`Sphere::recalculate`] fills them.
pub struct Sphere {
    pub radius: i64,
    pub v_sectors: u32,
    pub h_sectors: u32,
    pub vertices: Vec<i64>,
    pub normals: Vec<i64>,
    pub face_indices: Vec<u32>,
    pub wireframe_indices: Vec<u32>,
}

impl Sphere {
    /// The dimensions are in range for tessellation.
    pub open spec fn dims_ok(self) -> bool {
        &&& 2 <= self.v_sectors <= MAX_SECTORS
        &&& 3 <= self.h_sectors <= MAX_SECTORS
        &&& 0 < self.radius <= crate::matrix::MAT_MUL_BOUND
    }

    /// A sphere with the derived band counts and no mesh data yet.  At
    /// least two latitude bands keep the shape from being a flat disc,
    /// and at least three longitude bands keep it from being a two-sided
    /// sliver, so the resolution only ever adds bands.
    pub fn new(radius: i64, resolution: u32) -> (s: Sphere)
        requires
            0 < radius <= crate::matrix::MAT_MUL_BOUND,
            resolution <= MAX_SECTORS - 3,
        ensures
            s.radius == radius,
            s.v_sectors == 2 + resolution,
            s.h_sectors == 3 + resolution,
            s.dims_ok(),
            s.vertices@ =~= Seq::<i64>::empty(),
            s.normals@ =~= Seq::<i64>::empty(),
            s.face_indices@ =~= Seq::<u32>::empty(),
            s.wireframe_indices@ =~= Seq::<u32>::empty(),
    {
        Sphere {
            radius,
            v_sectors: 2 + resolution,
            h_sectors: 3 + resolution,
            vertices: Vec::new(),
            normals: Vec::new(),
            face_indices: Vec::new(),
            wireframe_indices: Vec::new(),
        }
    }

    /// Fills the mesh from the trigonometric tables: `sin_v` and `cos_v`
    /// hold the sine and cosine of each latitude angle (from the top
    /// pole down), `sin_h` the sine of each longitude angle.  Any
    /// previous mesh data is replaced.
    pub fn recalculate(&mut self, sin_v: &Vec<i64>, cos_v: &Vec<i64>, sin_h: &Vec<i64>)
        requires
            old(self).dims_ok(),
            sin_v@.len() == old(self).v_sectors + 1,
            cos_v@.len() == old(self).v_sectors + 1,
            sin_h@.len() == old(self).h_sectors + 1,
            trig_ok(sin_v@),
            trig_ok(cos_v@),
            trig_ok(sin_h@),
        ensures
            final(self).radius == old(self).radius,
            final(self).v_sectors == old(self).v_sectors,
            final(self).h_sectors == old(self).h_sectors,
            final(self).dims_ok(),
            mesh_ok(*final(self), sin_v@, cos_v@, sin_h@),
    {
        let (vertices, normals) = build_vertices(
            self.radius,
            self.v_sectors,
            self.h_sectors,
            sin_v,
            cos_v,
            sin_h,
        );
        let (face_indices, wireframe_indices) = build_indices(self.v_sectors, self.h_sectors);
        self.vertices = vertices;
        self.normals = normals;
        self.face_indices = face_indices;
        self.wireframe_indices = wireframe_indices;
    }
}

/// Builds a sphere and fills its mesh in one step.
pub fn generate_sphere(radius: i64, resolution: u32, sin_v: &Vec<i64>, cos_v: &Vec<i64>, sin_h: &Vec<i64>) -> (s: Sphere)
    requires
        0 < radius <= MAT_MUL_BOUND,
        resolution <= MAX_SECTORS - 3,
        sin_v@.len() == 2 + resolution + 1,
        cos_v@.len() == 2 + resolution + 1,
        sin_h@.len() == 3 + resolution + 1,
        trig_ok(sin_v@),
        trig_ok(cos_v@),
        trig_ok(sin_h@),
    ensures
        s.radius == radius,
        s.v_sectors == 2 + resolution,
        s.h_sectors == 3 + resolution,
        s.dims_ok(),
        mesh_ok(s, sin_v@, cos_v@, sin_h@),
{
    let mut s = Sphere::new(radius, resolution);
    s.recalculate(sin_v, cos_v, sin_h);
    s
}

/// Computes the vertex and normal coordinate vectors, walking the
/// lattice row-major from the top pole.
fn build_vertices(
    radius: i64,
    vs: u32,
    hs: u32,
    sin_v: &Vec<i64>,
    cos_v: &Vec<i64>,
    sin_h: &Vec<i64>,
) -> (r: (Vec<i64>, Vec<i64>))
    requires
        0 < radius <= MAT_MUL_BOUND,
        2 <= vs <= MAX_SECTORS,
        3 <= hs <= MAX_SECTORS,
        sin_v@.len() == vs + 1,
        cos_v@.len() == vs + 1,
        sin_h@.len() == hs + 1,
        trig_ok(sin_v@),
        trig_ok(cos_v@),
        trig_ok(sin_h@),
    ensures
        r.0@.len() == 3 * vertex_count(vs as int, hs as int),
        r.1@.len() == 3 * vertex_count(vs as int, hs as int),
        forall|k: int|
            0 <= k < vertex_count(vs as int, hs as int) ==> {
                &&& r.0@[3 * k] == #[trigger] vert_x(radius as int, cos_v@, sin_h@, hs as int, k)
                &&& r.0@[3 * k + 1] == vert_x(radius as int, cos_v@, sin_h@, hs as int, k)
                &&& r.0@[3 * k + 2] == vert_z(radius as int, sin_v@, hs as int, k)
                &&& r.1@[3 * k] == norm_val(vert_x(radius as int, cos_v@, sin_h@, hs as int, k), radius as int)
                &&& r.1@[3 * k + 1] == norm_val(vert_x(radius as int, cos_v@, sin_h@, hs as int, k), radius as int)
                &&& r.1@[3 * k + 2] == norm_val(vert_z(radius as int, sin_v@, hs as int, k), radius as int)
            },
{
    // Scale for normalizing the vertex coordinates: 1 / radius.
    let scale: i64 = div_fx(SCALE, radius);
    proof {
        assert(fx_div(SCALE as int, radius as int) == tdiv(
            (SCALE as int) * (SCALE as int),
            radius as int,
        ));
        assert((SCALE as int) * (SCALE as int) <= 4294967296 * (radius as int))
            by (nonlinear_arith)
            requires
                1 <= radius,
                SCALE == 65536,
        ;
        lemma_tdiv_in_range((SCALE as int) * (SCALE as int), radius as int, 4294967296);
    }
    let mut vertices: Vec<i64> = Vec::new();
    let mut normals: Vec<i64> = Vec::new();
    let mut v: u32 = 0;
    while v <= vs
        invariant
            0 < radius <= MAT_MUL_BOUND,
            2 <= vs <= MAX_SECTORS,
            3 <= hs <= MAX_SECTORS,
            sin_v@.len() == vs + 1,
            cos_v@.len() == vs + 1,
            sin_h@.len() == hs + 1,
            trig_ok(sin_v@),
            trig_ok(cos_v@),
            trig_ok(sin_h@),
            -4294967296 <= scale <= 4294967296,
            scale == fx_div(SCALE as int, radius as int),
            v <= vs + 1,
            vertices@.len() == 3 * (v * (hs + 1)),
            normals@.len() == 3 * (v * (hs + 1)),
            forall|k: int|
                0 <= k < v * (hs + 1) ==> {
                    &&& vertices@[3 * k] == #[trigger] vert_x(
                        radius as int,
                        cos_v@,
                        sin_h@,
                        hs as int,
                        k,
                    )
                    &&& vertices@[3 * k + 1] == vert_x(radius as int, cos_v@, sin_h@, hs as int, k)
                    &&& vertices@[3 * k + 2] == vert_z(radius as int, sin_v@, hs as int, k)
                    &&& normals@[3 * k] == norm_val(
                        vert_x(radius as int, cos_v@, sin_h@, hs as int, k),
                        radius as int,
                    )
                    &&& normals@[3 * k + 1] == norm_val(
                        vert_x(radius as int, cos_v@, sin_h@, hs as int, k),
                        radius as int,
                    )
                    &&& normals@[3 * k + 2] == norm_val(
                        vert_z(radius as int, sin_v@, hs as int, k),
                        radius as int,
                    )
                },
        decreases vs + 1 - v,
    {
        proof {
            lemma_fx_mul_fits(
                radius as int,
                sin_v@[v as int] as int,
                MAT_MUL_BOUND as int,
                TRIG_BOUND as int,
            );
            lemma_fx_mul_fits(
                radius as int,
                cos_v@[v as int] as int,
                MAT_MUL_BOUND as int,
                TRIG_BOUND as int,
            );
        }
        let z: i64 = mul_fx(radius, sin_v[v as usize]);
        let hypot: i64 = mul_fx(radius, cos_v[v as usize]);
        proof {
            lemma_fx_mul_fits(z as int, scale as int, 549755813889, 4294967296);
        }
        let z_norm: i64 = mul_fx(z, scale);
        let mut h: u32 = 0;
        while h <= hs
            invariant
                0 < radius <= MAT_MUL_BOUND,
                2 <= vs <= MAX_SECTORS,
                3 <= hs <= MAX_SECTORS,
                sin_v@.len() == vs + 1,
                cos_v@.len() == vs + 1,
                sin_h@.len() == hs + 1,
                trig_ok(sin_v@),
                trig_ok(cos_v@),
                trig_ok(sin_h@),
                -4294967296 <= scale <= 4294967296,
                scale == fx_div(SCALE as int, radius as int),
                v <= vs,
                h <= hs + 1,
                -549755813889 <= z <= 549755813889,
                -549755813889 <= hypot <= 549755813889,
                z == fx_mul(radius as int, sin_v@[v as int] as int),
                hypot == fx_mul(radius as int, cos_v@[v as int] as int),
                z_norm == fx_mul(z as int, scale as int),
                vertices@.len() == 3 * (v * (hs + 1) + h),
                normals@.len() == 3 * (v * (hs + 1) + h),
                forall|k: int|
                    0 <= k < v * (hs + 1) + h ==> {
                        &&& vertices@[3 * k] == #[trigger] vert_x(
                            radius as int,
                            cos_v@,
                            sin_h@,
                            hs as int,
                            k,
                        )
                        &&& vertices@[3 * k + 1] == vert_x(
                            radius as int,
                            cos_v@,
                            sin_h@,
                            hs as int,
                            k,
                        )
                        &&& vertices@[3 * k + 2] == vert_z(radius as int, sin_v@, hs as int, k)
                        &&& normals@[3 * k] == norm_val(
                            vert_x(radius as int, cos_v@, sin_h@, hs as int, k),
                            radius as int,
                        )
                        &&& normals@[3 * k + 1] == norm_val(
                            vert_x(radius as int, cos_v@, sin_h@, hs as int, k),
                            radius as int,
                        )
                        &&& normals@[3 * k + 2] == norm_val(
                            vert_z(radius as int, sin_v@, hs as int, k),
                            radius as int,
                        )
                    },
            decreases hs + 1 - h,
        {
            proof {
                lemma_fx_mul_fits(
                    hypot as int,
                    sin_h@[h as int] as int,
                    549755813889,
                    TRIG_BOUND as int,
                );
            }
            let x: i64 = mul_fx(hypot, sin_h[h as usize]);
            proof {
                lemma_fx_mul_fits(x as int, scale as int, 1099511627779, 4294967296);
            }
            let x_norm: i64 = mul_fx(x, scale);
            let ghost k0: int = v * (hs + 1) + h;
            proof {
                assert(3 * (k0 + 1) <= 3 * ((vs + 1) * (hs + 1))) by (nonlinear_arith)
                    requires
                        k0 == v * (hs + 1) + h,
                        v <= vs,
                        h <= hs,
                        0 <= v,
                        0 <= h,
                ;
                assert(3 * ((vs + 1) * (hs + 1)) <= 3 * 20001 * 20001) by (nonlinear_arith)
                    requires
                        vs <= 20000,
                        hs <= 20000,
                        2 <= vs,
                        3 <= hs,
                ;
            }
            vertices.push(x);
            vertices.push(x);
            vertices.push(z);
            normals.push(x_norm);
            normals.push(x_norm);
            normals.push(z_norm);
            proof {
                lemma_fundamental_div_mod_converse(k0, hs as int + 1, v as int, h as int);
                assert(vert_x(radius as int, cos_v@, sin_h@, hs as int, k0) == fx_mul(
                    hypot as int,
                    sin_h@[h as int] as int,
                ));
                assert(vert_z(radius as int, sin_v@, hs as int, k0) == z);
                assert(vertices@[3 * k0] == x);
                assert(vertices@[3 * k0 + 1] == x);
                assert(vertices@[3 * k0 + 2] == z);
                assert(normals@[3 * k0] == x_norm);
                assert(normals@[3 * k0 + 1] == x_norm);
                assert(normals@[3 * k0 + 2] == z_norm);
            }
            h = h + 1;
        }
        proof {
            assert(v * (hs + 1) + (hs + 1) == (v + 1) * (hs + 1)) by (nonlinear_arith);
        }
        v = v + 1;
    }
    proof {
        assert((vs + 1) * (hs + 1) == vertex_count(vs as int, hs as int));
    }
    (vertices, normals)
}

/// Number of face indices one cell of row `v` contributes: three for a
/// pole row (one triangle), six otherwise (two).
pub open spec fn face_cell_len(vs: int, v: int) -> int {
    (if v != 0 {
        3int
    } else {
        0int
    }) + (if v != vs - 1 {
        3int
    } else {
        0int
    })
}

/// Number of wireframe indices one cell of row `v` contributes: the
/// vertical edge always, the horizontal edge on every row but the first.
pub open spec fn wire_cell_len(v: int) -> int {
    2int + (if v != 0 {
        2int
    } else {
        0int
    })
}

proof fn lemma_face_row_len(vs: int, hs: int, v: int, h: int)
    requires
        0 <= h,
    ensures
        face_row(vs, hs, v, h).len() == h * face_cell_len(vs, v),
    decreases h,
{
    if h == 0 {
        assert(h * face_cell_len(vs, v) == 0) by (nonlinear_arith)
            requires
                h == 0,
        ;
    } else {
        lemma_face_row_len(vs, hs, v, h - 1);
        assert(face_cell(vs, hs, v, h - 1).len() == face_cell_len(vs, v));
        assert(h * face_cell_len(vs, v) == (h - 1) * face_cell_len(vs, v) + face_cell_len(vs, v))
            by (nonlinear_arith);
    }
}

proof fn lemma_wire_row_len(vs: int, hs: int, v: int, h: int)
    requires
        0 <= h,
    ensures
        wire_row(vs, hs, v, h).len() == h * wire_cell_len(v),
    decreases h,
{
    if h == 0 {
        assert(h * wire_cell_len(v) == 0) by (nonlinear_arith)
            requires
                h == 0,
        ;
    } else {
        lemma_wire_row_len(vs, hs, v, h - 1);
        assert(wire_cell(vs, hs, v, h - 1).len() == wire_cell_len(v));
        assert(h * wire_cell_len(v) == (h - 1) * wire_cell_len(v) + wire_cell_len(v))
            by (nonlinear_arith);
    }
}

proof fn lemma_face_rows_len(vs: int, hs: int, v: int)
    requires
        2 <= vs,
        0 < hs,
        0 <= v <= vs,
    ensures
        face_rows(vs, hs, v).len() == if v == 0 {
            0int
        } else if v < vs {
            6 * hs * v - 3 * hs
        } else {
            6 * hs * vs - 6 * hs
        },
    decreases v,
{
    if v > 0 {
        lemma_face_rows_len(vs, hs, v - 1);
        lemma_face_row_len(vs, hs, v - 1, hs);
        if v - 1 == 0 {
            assert(hs * face_cell_len(vs, 0) == 3 * hs && 6 * hs * 1 - 3 * hs == 3 * hs)
                by (nonlinear_arith)
                requires
                    2 <= vs,
            ;
        } else if v - 1 < vs - 1 {
            assert(hs * face_cell_len(vs, v - 1) == 6 * hs) by (nonlinear_arith)
                requires
                    0 < v - 1 < vs - 1,
            ;
            assert(6 * hs * (v - 1) - 3 * hs + 6 * hs == 6 * hs * v - 3 * hs) by (nonlinear_arith);
        } else {
            assert(hs * face_cell_len(vs, v - 1) == 3 * hs) by (nonlinear_arith)
                requires
                    v - 1 == vs - 1,
                    2 <= vs,
            ;
            assert(6 * hs * (vs - 1) - 3 * hs + 3 * hs == 6 * hs * vs - 6 * hs)
                by (nonlinear_arith);
        }
    }
}

proof fn lemma_wire_rows_len(vs: int, hs: int, v: int)
    requires
        2 <= vs,
        0 < hs,
        0 <= v <= vs,
    ensures
        wire_rows(vs, hs, v).len() == if v == 0 {
            0int
        } else {
            4 * hs * v - 2 * hs
        },
    decreases v,
{
    if v > 0 {
        lemma_wire_rows_len(vs, hs, v - 1);
        lemma_wire_row_len(vs, hs, v - 1, hs);
        if v - 1 == 0 {
            assert(hs * wire_cell_len(0) == 2 * hs && 4 * hs * 1 - 2 * hs == 2 * hs)
                by (nonlinear_arith);
        } else {
            assert(hs * wire_cell_len(v - 1) == 4 * hs) by (nonlinear_arith)
                requires
                    v - 1 != 0,
            ;
            assert(4 * hs * (v - 1) - 2 * hs + 4 * hs == 4 * hs * v - 2 * hs) by (nonlinear_arith);
        }
    }
}

/// The number of face indices: every row contributes six per cell except
/// the two pole rows, which contribute three per cell each.
pub proof fn lemma_face_index_count(vs: int, hs: int)
    requires
        2 <= vs,
        0 < hs,
    ensures
        face_indices_spec(vs, hs).len() == 6 * vs * hs - 6 * hs,
{
    lemma_face_rows_len(vs, hs, vs);
    assert(6 * hs * vs == 6 * vs * hs) by (nonlinear_arith);
}

/// The number of wireframe indices: two per cell plus two more on every
/// row but the first.
pub proof fn lemma_wireframe_index_count(vs: int, hs: int)
    requires
        2 <= vs,
        0 < hs,
    ensures
        wireframe_indices_spec(vs, hs).len() == 4 * vs * hs - 2 * hs,
{
    lemma_wire_rows_len(vs, hs, vs);
    assert(4 * hs * vs == 4 * vs * hs) by (nonlinear_arith);
}

proof fn lemma_cell_corner_bounds(vs: int, hs: int, v: int, h: int)
    requires
        2 <= vs,
        0 <= v < vs,
        0 <= h < hs,
    ensures
        0 <= v * (hs + 1) + h,
        (v + 1) * (hs + 1) + h + 1 < vertex_count(vs, hs),
        v * (hs + 1) + h + 1 < (v + 1) * (hs + 1),
{
    assert(0 <= v * (hs + 1) && (v + 1) * (hs + 1) + h + 1 < (vs + 1) * (hs + 1) && v * (hs + 1)
        + h + 1 < (v + 1) * (hs + 1)) by (nonlinear_arith)
        requires
            0 <= v,
            v < vs,
            0 <= h,
            h < hs,
    ;
}

proof fn lemma_face_cell_bounds(vs: int, hs: int, v: int, h: int)
    requires
        2 <= vs,
        0 <= v < vs,
        0 <= h < hs,
    ensures
        forall|i: int|
            0 <= i < face_cell(vs, hs, v, h).len() ==> 0 <= #[trigger] face_cell(vs, hs, v, h)[i]
                < vertex_count(vs, hs),
{
    lemma_cell_corner_bounds(vs, hs, v, h);
    let tl = v * (hs + 1) + h;
    let tr = tl + 1;
    let bl = (v + 1) * (hs + 1) + h;
    let br = bl + 1;
    let cell = face_cell(vs, hs, v, h);
    if v != 0 && v != vs - 1 {
        assert(cell =~= seq![tl, bl, tr, bl, br, tr]);
    } else if v == 0 {
        assert(cell =~= seq![bl, br, tr]);
    } else {
        assert(cell =~= seq![tl, bl, tr]);
    }
}

proof fn lemma_wire_cell_bounds(vs: int, hs: int, v: int, h: int)
    requires
        2 <= vs,
        0 <= v < vs,
        0 <= h < hs,
    ensures
        forall|i: int|
            0 <= i < wire_cell(vs, hs, v, h).len() ==> 0 <= #[trigger] wire_cell(vs, hs, v, h)[i]
                < vertex_count(vs, hs),
{
    lemma_cell_corner_bounds(vs, hs, v, h);
    let tl = v * (hs + 1) + h;
    let tr = tl + 1;
    let bl = (v + 1) * (hs + 1) + h;
    let cell = wire_cell(vs, hs, v, h);
    if v != 0 {
        assert(cell =~= seq![tl, bl, tl, tr]);
    } else {
        assert(cell =~= seq![tl, bl]);
    }
}

proof fn lemma_face_row_bounds(vs: int, hs: int, v: int, h: int)
    requires
        2 <= vs,
        0 <= v < vs,
        0 <= h <= hs,
    ensures
        forall|k: int|
            0 <= k < face_row(vs, hs, v, h).len() ==> 0 <= #[trigger] face_row(vs, hs, v, h)[k]
                < vertex_count(vs, hs),
    decreases h,
{
    if h > 0 {
        lemma_face_row_bounds(vs, hs, v, h - 1);
        lemma_face_cell_bounds(vs, hs, v, h - 1);
        let prev = face_row(vs, hs, v, h - 1);
        let cell = face_cell(vs, hs, v, h - 1);
        assert forall|k: int|
            0 <= k < face_row(vs, hs, v, h).len() implies 0 <= #[trigger] face_row(
            vs,
            hs,
            v,
            h,
        )[k] < vertex_count(vs, hs) by {
            assert(face_row(vs, hs, v, h) == prev + cell);
            if k < prev.len() {
                assert(face_row(vs, hs, v, h)[k] == prev[k]);
            } else {
                assert(face_row(vs, hs, v, h)[k] == cell[k - prev.len()]);
            }
        }
    }
}

proof fn lemma_wire_row_bounds(vs: int, hs: int, v: int, h: int)
    requires
        2 <= vs,
        0 <= v < vs,
        0 <= h <= hs,
    ensures
        forall|k: int|
            0 <= k < wire_row(vs, hs, v, h).len() ==> 0 <= #[trigger] wire_row(vs, hs, v, h)[k]
                < vertex_count(vs, hs),
    decreases h,
{
    if h > 0 {
        lemma_wire_row_bounds(vs, hs, v, h - 1);
        lemma_wire_cell_bounds(vs, hs, v, h - 1);
        let prev = wire_row(vs, hs, v, h - 1);
        let cell = wire_cell(vs, hs, v, h - 1);
        assert forall|k: int|
            0 <= k < wire_row(vs, hs, v, h).len() implies 0 <= #[trigger] wire_row(
            vs,
            hs,
            v,
            h,
        )[k] < vertex_count(vs, hs) by {
            assert(wire_row(vs, hs, v, h) == prev + cell);
            if k < prev.len() {
                assert(wire_row(vs, hs, v, h)[k] == prev[k]);
            } else {
                assert(wire_row(vs, hs, v, h)[k] == cell[k - prev.len()]);
            }
        }
    }
}

proof fn lemma_face_rows_bounds(vs: int, hs: int, v: int)
    requires
        2 <= vs,
        0 <= v <= vs,
        0 < hs,
    ensures
        forall|k: int|
            0 <= k < face_rows(vs, hs, v).len() ==> 0 <= #[trigger] face_rows(vs, hs, v)[k]
                < vertex_count(vs, hs),
    decreases v,
{
    if v > 0 {
        lemma_face_rows_bounds(vs, hs, v - 1);
        lemma_face_row_bounds(vs, hs, v - 1, hs);
        let prev = face_rows(vs, hs, v - 1);
        let row = face_row(vs, hs, v - 1, hs);
        assert forall|k: int|
            0 <= k < face_rows(vs, hs, v).len() implies 0 <= #[trigger] face_rows(vs, hs, v)[k]
            < vertex_count(vs, hs) by {
            assert(face_rows(vs, hs, v) == prev + row);
            if k < prev.len() {
                assert(face_rows(vs, hs, v)[k] == prev[k]);
            } else {
                assert(face_rows(vs, hs, v)[k] == row[k - prev.len()]);
            }
        }
    }
}

proof fn lemma_wire_rows_bounds(vs: int, hs: int, v: int)
    requires
        2 <= vs,
        0 <= v <= vs,
        0 < hs,
    ensures
        forall|k: int|
            0 <= k < wire_rows(vs, hs, v).len() ==> 0 <= #[trigger] wire_rows(vs, hs, v)[k]
                < vertex_count(vs, hs),
    decreases v,
{
    if v > 0 {
        lemma_wire_rows_bounds(vs, hs, v - 1);
        lemma_wire_row_bounds(vs, hs, v - 1, hs);
        let prev = wire_rows(vs, hs, v - 1);
        let row = wire_row(vs, hs, v - 1, hs);
        assert forall|k: int|
            0 <= k < wire_rows(vs, hs, v).len() implies 0 <= #[trigger] wire_rows(vs, hs, v)[k]
            < vertex_count(vs, hs) by {
            assert(wire_rows(vs, hs, v) == prev + row);
            if k < prev.len() {
                assert(wire_rows(vs, hs, v)[k] == prev[k]);
            } else {
                assert(wire_rows(vs, hs, v)[k] == row[k - prev.len()]);
            }
        }
    }
}

/// Every face index and every wireframe index addresses one of the
/// `(vs + 1) * (hs + 1)` lattice vertices.
pub proof fn lemma_sphere_index_bounds(vs: int, hs: int)
    requires
        2 <= vs,
        0 < hs,
    ensures
        forall|k: int|
            0 <= k < face_indices_spec(vs, hs).len() ==> 0 <= #[trigger] face_indices_spec(
                vs,
                hs,
            )[k] < vertex_count(vs, hs),
        forall|k: int|
            0 <= k < wireframe_indices_spec(vs, hs).len() ==> 0 <= #[trigger] wireframe_indices_spec(
                vs,
                hs,
            )[k] < vertex_count(vs, hs),
{
    lemma_face_rows_bounds(vs, hs, vs);
    lemma_wire_rows_bounds(vs, hs, vs);
}

/// The counts of a generated mesh, read off the mesh itself: three
/// coordinates per lattice vertex; six face indices per cell except on
/// the two pole rows, which emit three; the wireframe's vertical edge
/// everywhere and its horizontal edge on every row but the first; and
/// every index addressing a lattice vertex.
pub proof fn lemma_mesh_counts(s: Sphere, sv: Seq<i64>, cv: Seq<i64>, sh: Seq<i64>)
    requires
        s.dims_ok(),
        mesh_ok(s, sv, cv, sh),
    ensures
        s.vertices@.len() == 3 * vertex_count(s.v_sectors as int, s.h_sectors as int),
        s.face_indices@.len() == 6 * (s.v_sectors as int) * (s.h_sectors as int) - 6 * (
        s.h_sectors as int),
        s.wireframe_indices@.len() == 4 * (s.v_sectors as int) * (s.h_sectors as int) - 2 * (
        s.h_sectors as int),
        forall|k: int|
            0 <= k < s.face_indices@.len() ==> (#[trigger] s.face_indices@[k]) < vertex_count(
                s.v_sectors as int,
                s.h_sectors as int,
            ),
        forall|k: int|
            0 <= k < s.wireframe_indices@.len() ==> (#[trigger] s.wireframe_indices@[k])
                < vertex_count(s.v_sectors as int, s.h_sectors as int),
{
    let vs = s.v_sectors as int;
    let hs = s.h_sectors as int;
    lemma_face_index_count(vs, hs);
    lemma_wireframe_index_count(vs, hs);
    lemma_sphere_index_bounds(vs, hs);
    assert(iview(s.face_indices@).len() == s.face_indices@.len());
    assert(iview(s.wireframe_indices@).len() == s.wireframe_indices@.len());
    assert forall|k: int|
        0 <= k < s.face_indices@.len() implies (#[trigger] s.face_indices@[k]) < vertex_count(
        vs,
        hs,
    ) by {
        assert(iview(s.face_indices@)[k] == s.face_indices@[k] as int);
        assert(0 <= face_indices_spec(vs, hs)[k] < vertex_count(vs, hs));
    }
    assert forall|k: int|
        0 <= k < s.wireframe_indices@.len() implies (#[trigger] s.wireframe_indices@[k])
        < vertex_count(vs, hs) by {
        assert(iview(s.wireframe_indices@)[k] == s.wireframe_indices@[k] as int);
        assert(0 <= wireframe_indices_spec(vs, hs)[k] < vertex_count(vs, hs));
    }
}

/// Computes the face-triangle and wireframe index vectors, walking the
/// cells row-major and emitting each cell's contribution in order.
fn build_indices(vs: u32, hs: u32) -> (r: (Vec<u32>, Vec<u32>))
    requires
        2 <= vs <= MAX_SECTORS,
        3 <= hs <= MAX_SECTORS,
    ensures
        iview(r.0@) == face_indices_spec(vs as int, hs as int),
        iview(r.1@) == wireframe_indices_spec(vs as int, hs as int),
{
    let mut face: Vec<u32> = Vec::new();
    let mut wire: Vec<u32> = Vec::new();
    let mut v: u32 = 0;
    proof {
        assert(iview(face@) =~= face_rows(vs as int, hs as int, 0));
        assert(iview(wire@) =~= wire_rows(vs as int, hs as int, 0));
    }
    while v < vs
        invariant
            2 <= vs <= MAX_SECTORS,
            3 <= hs <= MAX_SECTORS,
            v <= vs,
            iview(face@) == face_rows(vs as int, hs as int, v as int),
            iview(wire@) == wire_rows(vs as int, hs as int, v as int),
        decreases vs - v,
    {
        proof {
            assert(v * (hs + 1) <= 20000 * 20001) by (nonlinear_arith)
                requires
                    v <= 20000,
                    hs <= 20000,
                    0 <= v,
                    0 <= hs,
            ;
            assert((v + 1) * (hs + 1) == v * (hs + 1) + (hs + 1)) by (nonlinear_arith);
        }
        let row_start: u32 = v * (hs + 1);
        let row_below: u32 = row_start + (hs + 1);
        let last_row: bool = v == vs - 1;
        let mut h: u32 = 0;
        while h < hs
            invariant
                2 <= vs <= MAX_SECTORS,
                3 <= hs <= MAX_SECTORS,
                v < vs,
                h <= hs,
                row_start == v * (hs + 1),
                row_below == (v + 1) * (hs + 1),
                row_start + (hs + 1) == row_below,
                row_start <= 20000 * 20001,
                row_below <= 20000 * 20001 + 20001,
                last_row == (v == vs - 1),
                iview(face@) == face_rows(vs as int, hs as int, v as int) + face_row(
                    vs as int,
                    hs as int,
                    v as int,
                    h as int,
                ),
                iview(wire@) == wire_rows(vs as int, hs as int, v as int) + wire_row(
                    vs as int,
                    hs as int,
                    v as int,
                    h as int,
                ),
            decreases hs - h,
        {
            let tl: u32 = row_start + h;
            let tr: u32 = tl + 1;
            let bl: u32 = row_below + h;
            let br: u32 = bl + 1;
            let ghost face0 = iview(face@);
            let ghost wire0 = iview(wire@);
            let ghost vi = v as int;
            let ghost hi = h as int;
            let ghost vsi = vs as int;
            let ghost hsi = hs as int;
            if v != 0 {
                face.push(tl);
                face.push(bl);
                face.push(tr);
            }
            if !last_row {
                face.push(bl);
                face.push(br);
                face.push(tr);
            }
            wire.push(tl);
            wire.push(bl);
            if v != 0 {
                wire.push(tl);
                wire.push(tr);
            }
            proof {
                assert(iview(face@) =~= face0 + face_cell(vsi, hsi, vi, hi));
                assert(iview(wire@) =~= wire0 + wire_cell(vsi, hsi, vi, hi));
                assert(face_row(vsi, hsi, vi, hi + 1) == face_row(vsi, hsi, vi, hi) + face_cell(
                    vsi,
                    hsi,
                    vi,
                    hi,
                ));
                assert(wire_row(vsi, hsi, vi, hi + 1) == wire_row(vsi, hsi, vi, hi) + wire_cell(
                    vsi,
                    hsi,
                    vi,
                    hi,
                ));
                assert(iview(face@) =~= face_rows(vsi, hsi, vi) + face_row(vsi, hsi, vi, hi + 1));
                assert(iview(wire@) =~= wire_rows(vsi, hsi, vi) + wire_row(vsi, hsi, vi, hi + 1));
            }
            h = h + 1;
        }
        proof {
            let vi = v as int;
            let vsi = vs as int;
            let hsi = hs as int;
            assert(face_rows(vsi, hsi, vi + 1) == face_rows(vsi, hsi, vi) + face_row(
                vsi,
                hsi,
                vi,
                hsi,
            ));
            assert(wire_rows(vsi, hsi, vi + 1) == wire_rows(vsi, hsi, vi) + wire_row(
                vsi,
                hsi,
                vi,
                hsi,
            ));
        }
        v = v + 1;
    }
    (face, wire)
}

} // verus!
