//! 4x4 matrices over fixed-point scalars.
//!
//! A matrix is a flat array of 16 entries in column-major storage:
//! entry (row `r`, column `c`) lives at `e[4*c + r]`, and a transform
//! is applied to column vectors.  [`mult_matrix_4`] combines two such
//! arrays so that the result applies its first argument's transform
//! first: `mult_matrix_4(a, b)` is the storage of the matrix product
//! `B * A`.  Every composition in the crate is written in that
//! application order.

use crate::fixed::{lemma_tdiv_exact, lemma_tdiv_in_range, tdiv, tdiv_i128, SCALE};
use vstd::prelude::*;

verus! {

/// A 4x4 matrix of fixed-point scalars, as a flat array of 16 entries
/// in column-major storage: entry (row `r`, column `c`) is `e[4*c + r]`.
pub struct Mat4 {
    pub e: [i64; 16],
}

/// The mathematical contents of a matrix: its entries as unbounded integers.
pub open spec fn mview(m: Mat4) -> Seq<int> {
    m.e@.map_values(|x: i64| x as int)
}

/// Every entry of `s` has magnitude at most `b`.
pub open spec fn mat_bounded(s: Seq<int>, b: int) -> bool {
    forall|k: int| 0 <= k < 16 ==> -b <= #[trigger] s[k] <= b
}

/// Entry `4*i + j` of the combined array: the dot product of entries
/// `a[4*i..4*i+4]` with the stride-four column `b[j], b[4+j], ...`,
/// truncated back to the fixed-point scale.  Read column-major, the
/// result is the storage of the product `B * A` (`a`'s transform is
/// applied first).
pub open spec fn mm_entry(a: Seq<int>, b: Seq<int>, i: int, j: int) -> int {
    tdiv(
        a[4 * i] * b[j] + a[4 * i + 1] * b[4 + j] + a[4 * i + 2] * b[8 + j] + a[4 * i + 3] * b[12
            + j],
        SCALE as int,
    )
}

/// The fixed-point combination of two matrices: the storage of `B * A`,
/// so the first argument's transform applies first.
pub open spec fn mm_spec(a: Seq<int>, b: Seq<int>) -> Seq<int> {
    Seq::new(16, |k: int| mm_entry(a, b, k / 4, k % 4))
}

/// The identity matrix (ones on the diagonal).
pub open spec fn identity_spec() -> Seq<int> {
    seq![
        SCALE as int, 0, 0, 0,
        0, SCALE as int, 0, 0,
        0, 0, SCALE as int, 0,
        0, 0, 0, SCALE as int,
    ]
}

/// A translation matrix: identity except for its fourth column, which
/// carries the offsets (entries 12 to 14 of the storage).
pub open spec fn translation_spec(tx: int, ty: int, tz: int) -> Seq<int> {
    seq![
        SCALE as int, 0, 0, 0,
        0, SCALE as int, 0, 0,
        0, 0, SCALE as int, 0,
        tx, ty, tz, SCALE as int,
    ]
}

/// A scale matrix: the three factors on the diagonal, one in the corner.
pub open spec fn scale_spec(sx: int, sy: int, sz: int) -> Seq<int> {
    seq![
        sx, 0, 0, 0,
        0, sy, 0, 0,
        0, 0, sz, 0,
        0, 0, 0, SCALE as int,
    ]
}

/// The identity matrix.
pub fn identity() -> (r: Mat4)
    ensures
        mview(r) == identity_spec(),
{
    let m = Mat4 {
        e: [
            SCALE, 0, 0, 0,
            0, SCALE, 0, 0,
            0, 0, SCALE, 0,
            0, 0, 0, SCALE,
        ],
    };
    proof {
        assert(mview(m) =~= identity_spec());
    }
    m
}

/// Builds the translation matrix for the given offsets.
pub fn translation_matrix(tx: i64, ty: i64, tz: i64) -> (r: Mat4)
    ensures
        mview(r) == translation_spec(tx as int, ty as int, tz as int),
{
    let m = Mat4 {
        e: [
            SCALE, 0, 0, 0,
            0, SCALE, 0, 0,
            0, 0, SCALE, 0,
            tx, ty, tz, SCALE,
        ],
    };
    proof {
        assert(mview(m) =~= translation_spec(tx as int, ty as int, tz as int));
    }
    m
}

/// Builds the scale matrix for the given factors.
pub fn scale_matrix(sx: i64, sy: i64, sz: i64) -> (r: Mat4)
    ensures
        mview(r) == scale_spec(sx as int, sy as int, sz as int),
{
    let m = Mat4 {
        e: [
            sx, 0, 0, 0,
            0, sy, 0, 0,
            0, 0, sz, 0,
            0, 0, 0, SCALE,
        ],
    };
    proof {
        assert(mview(m) =~= scale_spec(sx as int, sy as int, sz as int));
    }
    m
}

/// Rotation about the X axis from the cosine and sine of the angle (the
/// caller evaluates the trigonometry; the layout is fixed here).  The
/// grid viewport lays its sine down at entry 9 and its negation at
/// entry 6; the sphere's view rotation uses the same layout with the
/// sine negated.
pub open spec fn rotation_x_spec(c: int, s: int) -> Seq<int> {
    seq![
        SCALE as int, 0, 0, 0,
        0, c, -s, 0,
        0, s, c, 0,
        0, 0, 0, SCALE as int,
    ]
}

/// Rotation about the Y axis from the cosine and sine of the angle, in
/// the layout the grid viewport uses (sine at entry 2, negated at 8).
pub open spec fn rotation_y_spec(c: int, s: int) -> Seq<int> {
    seq![
        c, 0, s, 0,
        0, SCALE as int, 0, 0,
        -s, 0, c, 0,
        0, 0, 0, SCALE as int,
    ]
}

/// Rotation about the Z axis from the cosine and sine of the angle, in
/// the layout the sphere's spin uses (sine at entry 1, negated at 4).
pub open spec fn rotation_z_spec(c: int, s: int) -> Seq<int> {
    seq![
        c, s, 0, 0,
        -s, c, 0, 0,
        0, 0, SCALE as int, 0,
        0, 0, 0, SCALE as int,
    ]
}

/// Builds the rotation about X from a cosine/sine pair.
pub fn rotation_x_matrix(c: i64, s: i64) -> (r: Mat4)
    requires
        i64::MIN < s,
    ensures
        mview(r) == rotation_x_spec(c as int, s as int),
{
    let m = Mat4 {
        e: [
            SCALE, 0, 0, 0,
            0, c, -s, 0,
            0, s, c, 0,
            0, 0, 0, SCALE,
        ],
    };
    proof {
        assert(mview(m) =~= rotation_x_spec(c as int, s as int));
    }
    m
}

/// Builds the rotation about Y from a cosine/sine pair.
pub fn rotation_y_matrix(c: i64, s: i64) -> (r: Mat4)
    requires
        i64::MIN < s,
    ensures
        mview(r) == rotation_y_spec(c as int, s as int),
{
    let m = Mat4 {
        e: [
            c, 0, s, 0,
            0, SCALE, 0, 0,
            -s, 0, c, 0,
            0, 0, 0, SCALE,
        ],
    };
    proof {
        assert(mview(m) =~= rotation_y_spec(c as int, s as int));
    }
    m
}

/// Builds the rotation about Z from a cosine/sine pair.
pub fn rotation_z_matrix(c: i64, s: i64) -> (r: Mat4)
    requires
        i64::MIN < s,
    ensures
        mview(r) == rotation_z_spec(c as int, s as int),
{
    let m = Mat4 {
        e: [
            c, s, 0, 0,
            -s, c, 0, 0,
            0, 0, SCALE, 0,
            0, 0, 0, SCALE,
        ],
    };
    proof {
        assert(mview(m) =~= rotation_z_spec(c as int, s as int));
    }
    m
}

/// Entry-wise equality of two matrices.
pub fn mat_eq(a: &Mat4, b: &Mat4) -> (r: bool)
    ensures
        r <==> mview(*a) == mview(*b),
{
    let mut k: usize = 0;
    while k < 16
        invariant
            k <= 16,
            forall|i: int| 0 <= i < k ==> mview(*a)[i] == mview(*b)[i],
        decreases 16 - k,
    {
        if a.e[k] != b.e[k] {
            proof {
                assert(mview(*a)[k as int] != mview(*b)[k as int]);
            }
            return false;
        }
        k = k + 1;
    }
    proof {
        assert(mview(*a) =~= mview(*b));
    }
    true
}

/// Bound under which [`mult_matrix_4`] is free of overflow: 2^38 units,
/// that is, scalar values of magnitude up to 2^22.
pub const MAT_MUL_BOUND: i64 = 274877906944;

/// One entry of the product: the truncated dot product of row `i` of `a`
/// and column `j` of `b`.
fn mm_one(a: &Mat4, b: &Mat4, i: usize, j: usize) -> (r: i64)
    requires
        i < 4,
        j < 4,
        mat_bounded(mview(*a), MAT_MUL_BOUND as int),
        mat_bounded(mview(*b), MAT_MUL_BOUND as int),
    ensures
        r == mm_entry(mview(*a), mview(*b), i as int, j as int),
{
    proof {
        let av = mview(*a);
        let bv = mview(*b);
        let mb = MAT_MUL_BOUND as int;
        let ii = i as int;
        let jj = j as int;
        assert forall|p: int, q: int|
            0 <= p < 16 && 0 <= q < 16 implies -(mb * mb) <= #[trigger] ((a.e@[p] as int) * (
        b.e@[q] as int)) <= mb * mb by {
            let x = a.e@[p] as int;
            let y = b.e@[q] as int;
            assert(av[p] == x);
            assert(bv[q] == y);
            assert(-(mb * mb) <= x * y <= mb * mb) by (nonlinear_arith)
                requires
                    -mb <= x <= mb,
                    -mb <= y <= mb,
                    0 < mb,
            ;
        }
        assert(-(mb * mb) <= (a.e@[4 * ii] as int) * (b.e@[jj] as int) <= mb * mb);
        assert(-(mb * mb) <= (a.e@[4 * ii + 1] as int) * (b.e@[4 + jj] as int) <= mb * mb);
        assert(-(mb * mb) <= (a.e@[4 * ii + 2] as int) * (b.e@[8 + jj] as int) <= mb * mb);
        assert(-(mb * mb) <= (a.e@[4 * ii + 3] as int) * (b.e@[12 + jj] as int) <= mb * mb);
    }
    let p0: i128 = (a.e[4 * i] as i128) * (b.e[j] as i128);
    let p1: i128 = (a.e[4 * i + 1] as i128) * (b.e[4 + j] as i128);
    let p2: i128 = (a.e[4 * i + 2] as i128) * (b.e[8 + j] as i128);
    let p3: i128 = (a.e[4 * i + 3] as i128) * (b.e[12 + j] as i128);
    let s: i128 = p0 + p1 + p2 + p3;
    let q: i128 = tdiv_i128(s, SCALE as i128);
    proof {
        assert(4 * ((MAT_MUL_BOUND as int) * (MAT_MUL_BOUND as int)) <= i64::MAX * (SCALE as int));
        lemma_tdiv_in_range(s as int, SCALE as int, i64::MAX as int);
    }
    q as i64
}

/// The fixed-point combination of two matrices, entry layout and
/// summation order exactly as in [`mm_spec`]: the result applies `a`'s
/// transform first.
pub fn mult_matrix_4(a: &Mat4, b: &Mat4) -> (r: Mat4)
    requires
        mat_bounded(mview(*a), MAT_MUL_BOUND as int),
        mat_bounded(mview(*b), MAT_MUL_BOUND as int),
    ensures
        mview(r) == mm_spec(mview(*a), mview(*b)),
{
    let m = Mat4 {
        e: [
            mm_one(a, b, 0, 0), mm_one(a, b, 0, 1), mm_one(a, b, 0, 2), mm_one(a, b, 0, 3),
            mm_one(a, b, 1, 0), mm_one(a, b, 1, 1), mm_one(a, b, 1, 2), mm_one(a, b, 1, 3),
            mm_one(a, b, 2, 0), mm_one(a, b, 2, 1), mm_one(a, b, 2, 2), mm_one(a, b, 2, 3),
            mm_one(a, b, 3, 0), mm_one(a, b, 3, 1), mm_one(a, b, 3, 2), mm_one(a, b, 3, 3),
        ],
    };
    proof {
        assert(mview(m) =~= mm_spec(mview(*a), mview(*b)));
    }
    m
}

/// The product of a bounded pair of matrices is itself bounded: each entry
/// is a truncated sum of four products.
pub proof fn lemma_mm_bounded(a: Seq<int>, b: Seq<int>, ba: int, bb: int)
    requires
        a.len() == 16,
        b.len() == 16,
        0 <= ba,
        0 <= bb,
        mat_bounded(a, ba),
        mat_bounded(b, bb),
    ensures
        mat_bounded(mm_spec(a, b), 4 * (ba * bb) / (SCALE as int) + 1),
{
    let bd = 4 * (ba * bb) / (SCALE as int) + 1;
    assert forall|k: int| 0 <= k < 16 implies -bd <= #[trigger] mm_spec(a, b)[k] <= bd by {
        let i = k / 4;
        let j = k % 4;
        assert(0 <= i < 4 && 0 <= j < 4);
        let s = a[4 * i] * b[j] + a[4 * i + 1] * b[4 + j] + a[4 * i + 2] * b[8 + j] + a[4 * i + 3]
            * b[12 + j];
        assert forall|p: int, q: int|
            0 <= p < 16 && 0 <= q < 16 implies -(ba * bb) <= #[trigger] (a[p] * b[q]) <= ba
            * bb by {
            let x = a[p];
            let y = b[q];
            assert(-(ba * bb) <= x * y <= ba * bb) by (nonlinear_arith)
                requires
                    -ba <= x <= ba,
                    -bb <= y <= bb,
                    0 <= ba,
                    0 <= bb,
            ;
        }
        assert(-(ba * bb) <= a[4 * i] * b[j] <= ba * bb);
        assert(-(ba * bb) <= a[4 * i + 1] * b[4 + j] <= ba * bb);
        assert(-(ba * bb) <= a[4 * i + 2] * b[8 + j] <= ba * bb);
        assert(-(ba * bb) <= a[4 * i + 3] * b[12 + j] <= ba * bb);
        assert(0 <= ba * bb) by (nonlinear_arith)
            requires
                0 <= ba,
                0 <= bb,
        ;
        assert(-(4 * (ba * bb)) <= s <= 4 * (ba * bb));
        vstd::arithmetic::div_mod::lemma_fundamental_div_mod(4 * (ba * bb), SCALE as int);
        vstd::arithmetic::div_mod::lemma_mod_bound(4 * (ba * bb), SCALE as int);
        assert(4 * (ba * bb) <= bd * (SCALE as int)) by (nonlinear_arith)
            requires
                4 * (ba * bb) == (SCALE as int) * (4 * (ba * bb) / (SCALE as int)) + (4 * (ba
                    * bb)) % (SCALE as int),
                0 <= (4 * (ba * bb)) % (SCALE as int) < SCALE as int,
                bd == 4 * (ba * bb) / (SCALE as int) + 1,
                SCALE == 65536,
        ;
        lemma_tdiv_in_range(s, SCALE as int, bd);
    }
}

/// The product of two bounded matrices, with the result checked back
/// against the same bound so products can be chained: the entries of the
/// true product are returned exactly when they all fit.
pub fn mult_matrix_4_checked(a: &Mat4, b: &Mat4) -> (r: Option<Mat4>)
    requires
        mat_bounded(mview(*a), MAT_MUL_BOUND as int),
        mat_bounded(mview(*b), MAT_MUL_BOUND as int),
    ensures
        match r {
            Some(m) => mview(m) == mm_spec(mview(*a), mview(*b)) && mat_bounded(
                mview(m),
                MAT_MUL_BOUND as int,
            ),
            None => !mat_bounded(mm_spec(mview(*a), mview(*b)), MAT_MUL_BOUND as int),
        },
{
    let m = mult_matrix_4(a, b);
    let mut k: usize = 0;
    while k < 16
        invariant
            mview(m) == mm_spec(mview(*a), mview(*b)),
            forall|i: int|
                0 <= i < k ==> -(MAT_MUL_BOUND as int) <= #[trigger] mview(m)[i]
                    <= MAT_MUL_BOUND as int,
        decreases 16 - k,
    {
        if m.e[k] < -MAT_MUL_BOUND || m.e[k] > MAT_MUL_BOUND {
            proof {
                assert(mview(m)[k as int] == m.e@[k as int]);
                assert(!mat_bounded(mm_spec(mview(*a), mview(*b)), MAT_MUL_BOUND as int));
            }
            return None;
        }
        proof {
            assert(mview(m)[k as int] == m.e@[k as int]);
        }
        k = k + 1;
    }
    Some(m)
}

/// A bound on a matrix's entries also holds for any larger bound.
pub proof fn lemma_mat_bounded_widen(s: Seq<int>, b1: int, b2: int)
    requires
        mat_bounded(s, b1),
        b1 <= b2,
    ensures
        mat_bounded(s, b2),
{
    assert forall|k: int| 0 <= k < 16 implies -b2 <= #[trigger] s[k] <= b2 by {
        assert(-b1 <= s[k] <= b1);
    }
}

/// Multiplying by the identity on the left leaves a matrix unchanged.
pub proof fn lemma_mult_identity_left(m: Seq<int>)
    requires
        m.len() == 16,
    ensures
        mm_spec(identity_spec(), m) == m,
{
    assert forall|k: int| 0 <= k < 16 implies mm_spec(identity_spec(), m)[k] == m[k] by {
        let i = k / 4;
        let j = k % 4;
        assert(0 <= i < 4 && 0 <= j < 4);
        let id = identity_spec();
        assert(id[4 * i + i] == SCALE as int);
        let s = id[4 * i] * m[j] + id[4 * i + 1] * m[4 + j] + id[4 * i + 2] * m[8 + j] + id[4 * i
            + 3] * m[12 + j];
        assert(s == m[4 * i + j] * (SCALE as int)) by (nonlinear_arith)
            requires
                s == id[4 * i] * m[j] + id[4 * i + 1] * m[4 + j] + id[4 * i + 2] * m[8 + j] + id[4
                    * i + 3] * m[12 + j],
                0 <= i < 4,
                0 <= j < 4,
                id == identity_spec(),
                m.len() == 16,
        ;
        lemma_tdiv_exact(m[4 * i + j], SCALE as int);
        assert(4 * i + j == k);
    }
    assert(mm_spec(identity_spec(), m) =~= m);
}

/// Multiplying by the identity on the right leaves a matrix unchanged.
pub proof fn lemma_mult_identity_right(m: Seq<int>)
    requires
        m.len() == 16,
    ensures
        mm_spec(m, identity_spec()) == m,
{
    assert forall|k: int| 0 <= k < 16 implies mm_spec(m, identity_spec())[k] == m[k] by {
        let i = k / 4;
        let j = k % 4;
        assert(0 <= i < 4 && 0 <= j < 4);
        let id = identity_spec();
        let s = m[4 * i] * id[j] + m[4 * i + 1] * id[4 + j] + m[4 * i + 2] * id[8 + j] + m[4 * i
            + 3] * id[12 + j];
        assert(s == m[4 * i + j] * (SCALE as int)) by (nonlinear_arith)
            requires
                s == m[4 * i] * id[j] + m[4 * i + 1] * id[4 + j] + m[4 * i + 2] * id[8 + j] + m[4
                    * i + 3] * id[12 + j],
                0 <= i < 4,
                0 <= j < 4,
                id == identity_spec(),
                m.len() == 16,
        ;
        lemma_tdiv_exact(m[4 * i + j], SCALE as int);
        assert(4 * i + j == k);
    }
    assert(mm_spec(m, identity_spec()) =~= m);
}

/// A translation with no offset is the identity.
pub proof fn lemma_translation_zero_is_identity()
    ensures
        translation_spec(0, 0, 0) == identity_spec(),
{
    assert(translation_spec(0, 0, 0) =~= identity_spec());
}

/// Scaling by one on every axis is the identity.
pub proof fn lemma_scale_one_is_identity()
    ensures
        scale_spec(SCALE as int, SCALE as int, SCALE as int) == identity_spec(),
{
    assert(scale_spec(SCALE as int, SCALE as int, SCALE as int) =~= identity_spec());
}

} // verus!
