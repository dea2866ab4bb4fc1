//! Flat grid tessellation.
//!
//! An `n` by `n` grid of square cells spans the fixed square from -1 to
//! 1 on the X and Z axes, with Y left at zero; its `(n + 1) * (n + 1)`
//! vertex lattice is emitted row-major, and each cell is covered by two
//! counter-clockwise triangles.

use crate::fixed::{div_fx, fx_div, lemma_tdiv_exact, mul_fx, tdiv, SCALE};
use vstd::arithmetic::div_mod::lemma_fundamental_div_mod_converse;
use vstd::prelude::*;

verus! {

/// Largest accepted grid size: keeps every vertex index inside `u16`.
pub const MAX_GRID: usize = 254;

/// The contents of a `u16` index vector as unbounded integers.
pub open spec fn iview16(s: Seq<u16>) -> Seq<int> {
    s.map_values(|x: u16| x as int)
}

/// The side of one grid cell: the span of 2 whole units divided by the
/// cell count, both taken to fixed point first.
pub open spec fn grid_square(n: int) -> int {
    fx_div(2 * SCALE, n * SCALE)
}

/// Lattice coordinate `i` steps from the lower edge: `-1 + i * square`.
pub open spec fn grid_pos(i: int, sq: int) -> int {
    -(SCALE as int) + i * sq
}

/// The x coordinate of lattice point `k` (column `k % (n + 1)`).
pub open spec fn grid_vert_x(n: int, k: int) -> int {
    grid_pos(k % (n + 1), grid_square(n))
}

/// The z coordinate of lattice point `k` (row `k / (n + 1)`).
pub open spec fn grid_vert_z(n: int, k: int) -> int {
    grid_pos(k / (n + 1), grid_square(n))
}

/// The six indices covering grid cell (`z`, `x`): the lower-left
/// triangle, then the upper-right one, both counter-clockwise.
pub open spec fn grid_cell(n: int, z: int, x: int) -> Seq<int> {
    let tl = z * (n + 1) + x;
    let bl = (z + 1) * (n + 1) + x;
    let tr = tl + 1;
    let br = bl + 1;
    seq![tl, bl, br, tl, br, tr]
}

/// The indices of the first `x` cells of cell-row `z`.
pub open spec fn grid_row(n: int, z: int, x: int) -> Seq<int>
    decreases x,
{
    if x <= 0 {
        Seq::<int>::empty()
    } else {
        grid_row(n, z, x - 1) + grid_cell(n, z, x - 1)
    }
}

/// The indices of the first `z` whole cell-rows.
pub open spec fn grid_rows(n: int, z: int) -> Seq<int>
    decreases z,
{
    if z <= 0 {
        Seq::<int>::empty()
    } else {
        grid_rows(n, z - 1) + grid_row(n, z - 1, n)
    }
}

/// All triangle indices of the grid.
pub open spec fn grid_indices_spec(n: int) -> Seq<int> {
    grid_rows(n, n)
}

/// Generates positions and triangle indices for an `n` by `n` grid.
/// The positions come three per lattice point (x, y, z), row-major by
/// the z coordinate, y always zero; the indices cover each cell with
/// two triangles.
pub fn get_position_grid_n_by_n(n: usize) -> (r: (Vec<i64>, Vec<u16>))
    requires
        1 <= n <= MAX_GRID,
    ensures
        r.0@.len() == 3 * (n + 1) * (n + 1),
        forall|k: int|
            0 <= k < (n + 1) * (n + 1) ==> {
                &&& r.0@[3 * k] == #[trigger] grid_vert_x(n as int, k)
                &&& r.0@[3 * k + 1] == 0
                &&& r.0@[3 * k + 2] == grid_vert_z(n as int, k)
            },
        iview16(r.1@) == grid_indices_spec(n as int),
{
    let positions = build_grid_positions(n);
    let indices = build_grid_indices(n);
    (positions, indices)
}

fn build_grid_positions(n: usize) -> (r: Vec<i64>)
    requires
        1 <= n <= MAX_GRID,
    ensures
        r@.len() == 3 * (n + 1) * (n + 1),
        forall|k: int|
            0 <= k < (n + 1) * (n + 1) ==> {
                &&& r@[3 * k] == #[trigger] grid_vert_x(n as int, k)
                &&& r@[3 * k + 1] == 0
                &&& r@[3 * k + 2] == grid_vert_z(n as int, k)
            },
{
    let n_plus_one: usize = n + 1;
    // The grid spans 2 whole units; one cell spans 2 / n of them.
    let two: i64 = 2 * SCALE;
    let nfx: i64 = (n as i64) * SCALE;
    let square_size: i64 = div_fx(two, nfx);
    proof {
        assert(square_size == grid_square(n as int));
        assert(fx_div(2 * SCALE, (n as int) * SCALE) == tdiv(
            2 * SCALE * SCALE,
            (n as int) * SCALE,
        ));
        assert(2 * (SCALE as int) * SCALE <= (2 * SCALE) * ((n as int) * SCALE))
            by (nonlinear_arith)
            requires
                1 <= n,
                SCALE == 65536,
        ;
        crate::fixed::lemma_tdiv_in_range(2 * (SCALE as int) * SCALE, (n as int) * SCALE, 2 * SCALE);
    }
    let mut positions: Vec<i64> = Vec::new();
    let mut z: usize = 0;
    while z < n_plus_one
        invariant
            1 <= n <= MAX_GRID,
            n_plus_one == n + 1,
            -2 * SCALE <= square_size <= 2 * SCALE,
            square_size == grid_square(n as int),
            z <= n_plus_one,
            positions@.len() == 3 * (z * n_plus_one),
            forall|k: int|
                0 <= k < z * n_plus_one ==> {
                    &&& positions@[3 * k] == #[trigger] grid_vert_x(n as int, k)
                    &&& positions@[3 * k + 1] == 0
                    &&& positions@[3 * k + 2] == grid_vert_z(n as int, k)
                },
        decreases n_plus_one - z,
    {
        proof {
            assert((z as int) * SCALE * square_size == ((z as int) * square_size) * SCALE
                && -(i64::MAX * SCALE) <= (z as int) * SCALE * square_size <= i64::MAX * SCALE
                && -(255 * 2 * SCALE) <= (z as int) * square_size <= 255 * 2 * SCALE)
                by (nonlinear_arith)
                requires
                    0 <= z <= 255,
                    -2 * SCALE <= square_size <= 2 * SCALE,
                    SCALE == 65536,
            ;
        }
        let zstep: i64 = mul_fx((z as i64) * SCALE, square_size);
        proof {
            lemma_tdiv_exact((z as int) * square_size, SCALE as int);
            assert(zstep == (z as int) * square_size);
        }
        let zpos: i64 = -SCALE + zstep;
        proof {
            assert(zpos == grid_pos(z as int, square_size as int));
        }
        let mut x: usize = 0;
        while x < n_plus_one
            invariant
                1 <= n <= MAX_GRID,
                n_plus_one == n + 1,
                -2 * SCALE <= square_size <= 2 * SCALE,
                square_size == grid_square(n as int),
                z < n_plus_one,
                x <= n_plus_one,
                zpos == grid_pos(z as int, square_size as int),
                positions@.len() == 3 * (z * n_plus_one + x),
                forall|k: int|
                    0 <= k < z * n_plus_one + x ==> {
                        &&& positions@[3 * k] == #[trigger] grid_vert_x(n as int, k)
                        &&& positions@[3 * k + 1] == 0
                        &&& positions@[3 * k + 2] == grid_vert_z(n as int, k)
                    },
            decreases n_plus_one - x,
        {
            proof {
                assert((x as int) * SCALE * square_size == ((x as int) * square_size) * SCALE
                    && -(i64::MAX * SCALE) <= (x as int) * SCALE * square_size <= i64::MAX * SCALE
                    && -(255 * 2 * SCALE) <= (x as int) * square_size <= 255 * 2 * SCALE)
                    by (nonlinear_arith)
                    requires
                        0 <= x <= 255,
                        -2 * SCALE <= square_size <= 2 * SCALE,
                        SCALE == 65536,
                ;
            }
            let xstep: i64 = mul_fx((x as i64) * SCALE, square_size);
            proof {
                lemma_tdiv_exact((x as int) * square_size, SCALE as int);
                assert(xstep == (x as int) * square_size);
            }
            let xpos: i64 = -SCALE + xstep;
            proof {
                assert(xpos == grid_pos(x as int, square_size as int));
            }
            let ghost k0: int = z * n_plus_one + x;
            positions.push(xpos);
            positions.push(0);
            positions.push(zpos);
            proof {
                lemma_fundamental_div_mod_converse(k0, n as int + 1, z as int, x as int);
                assert(grid_vert_x(n as int, k0) == grid_pos(x as int, square_size as int));
                assert(grid_vert_z(n as int, k0) == grid_pos(z as int, square_size as int));
                assert(positions@[3 * k0] == xpos);
                assert(positions@[3 * k0 + 1] == 0i64);
                assert(positions@[3 * k0 + 2] == zpos);
            }
            x = x + 1;
        }
        proof {
            assert(z * n_plus_one + n_plus_one == (z + 1) * n_plus_one) by (nonlinear_arith);
        }
        z = z + 1;
    }
    proof {
        assert((z as int) * n_plus_one == (n + 1) * (n + 1));
        assert(3 * (n + 1) * (n + 1) == 3 * ((n + 1) * (n + 1))) by (nonlinear_arith);
        assert forall|k: int| 0 <= k < (n + 1) * (n + 1) implies {
            &&& positions@[3 * k] == #[trigger] grid_vert_x(n as int, k)
            &&& positions@[3 * k + 1] == 0
            &&& positions@[3 * k + 2] == grid_vert_z(n as int, k)
        } by {
            assert(0 <= k < (z as int) * n_plus_one);
        }
    }
    positions
}

fn build_grid_indices(n: usize) -> (r: Vec<u16>)
    requires
        1 <= n <= MAX_GRID,
    ensures
        iview16(r@) == grid_indices_spec(n as int),
{
    let n_plus_one: usize = n + 1;
    let mut indices: Vec<u16> = Vec::new();
    let mut z: usize = 0;
    proof {
        assert(iview16(indices@) =~= grid_rows(n as int, 0));
    }
    while z < n
        invariant
            1 <= n <= MAX_GRID,
            n_plus_one == n + 1,
            z <= n,
            iview16(indices@) == grid_rows(n as int, z as int),
        decreases n - z,
    {
        let mut x: usize = 0;
        while x < n
            invariant
                1 <= n <= MAX_GRID,
                n_plus_one == n + 1,
                z < n,
                x <= n,
                iview16(indices@) == grid_rows(n as int, z as int) + grid_row(
                    n as int,
                    z as int,
                    x as int,
                ),
            decreases n - x,
        {
            proof {
                assert(z * (n + 1) + x <= 253 * 255 + 253 && (z + 1) * (n + 1) + x + 1 <= 255
                    * 255 && (z + 1) * (n + 1) == z * (n + 1) + (n + 1)) by (nonlinear_arith)
                    requires
                        0 <= z < n,
                        0 <= x < n,
                        n <= 254,
                ;
            }
            let tl: u16 = (z * n_plus_one + x) as u16;
            let bl: u16 = tl + (n_plus_one as u16);
            let tr: u16 = tl + 1;
            let br: u16 = bl + 1;
            let ghost row0 = iview16(indices@);
            let ghost ni = n as int;
            let ghost zi = z as int;
            let ghost xi = x as int;
            indices.push(tl);
            indices.push(bl);
            indices.push(br);
            indices.push(tl);
            indices.push(br);
            indices.push(tr);
            proof {
                assert(iview16(indices@) =~= row0 + grid_cell(ni, zi, xi));
                assert(grid_row(ni, zi, xi + 1) == grid_row(ni, zi, xi) + grid_cell(ni, zi, xi));
                assert(iview16(indices@) =~= grid_rows(ni, zi) + grid_row(ni, zi, xi + 1));
            }
            x = x + 1;
        }
        proof {
            assert(grid_rows(n as int, z as int + 1) == grid_rows(n as int, z as int) + grid_row(
                n as int,
                z as int,
                n as int,
            ));
        }
        z = z + 1;
    }
    indices
}

/// The number of grid indices is six per cell.
pub proof fn lemma_grid_index_count(n: int)
    requires
        1 <= n,
    ensures
        grid_indices_spec(n).len() == 6 * n * n,
{
    lemma_grid_rows_len(n, n);
    assert(6 * n * n == (6 * n) * n) by (nonlinear_arith);
}

proof fn lemma_grid_row_len(n: int, z: int, x: int)
    requires
        0 <= x,
    ensures
        grid_row(n, z, x).len() == 6 * x,
    decreases x,
{
    if x > 0 {
        lemma_grid_row_len(n, z, x - 1);
    }
}

proof fn lemma_grid_rows_len(n: int, z: int)
    requires
        0 <= z,
        0 <= n,
    ensures
        grid_rows(n, z).len() == (6 * n) * z,
    decreases z,
{
    if z > 0 {
        lemma_grid_rows_len(n, z - 1);
        lemma_grid_row_len(n, z - 1, n);
        assert((6 * n) * z == (6 * n) * (z - 1) + 6 * n) by (nonlinear_arith);
    } else {
        assert((6 * n) * z == 0) by (nonlinear_arith)
            requires
                z == 0,
        ;
    }
}

/// Every grid index addresses one of the `(n + 1) * (n + 1)` lattice
/// vertices.
pub proof fn lemma_grid_index_bounds(n: int)
    requires
        1 <= n,
    ensures
        forall|k: int|
            0 <= k < grid_indices_spec(n).len() ==> 0 <= #[trigger] grid_indices_spec(n)[k] < (n
                + 1) * (n + 1),
{
    lemma_grid_rows_bounds(n, n);
}

proof fn lemma_grid_cell_bounds(n: int, z: int, x: int)
    requires
        0 <= z < n,
        0 <= x < n,
    ensures
        forall|i: int|
            0 <= i < grid_cell(n, z, x).len() ==> 0 <= #[trigger] grid_cell(n, z, x)[i] < (n + 1)
                * (n + 1),
{
    assert(0 <= z * (n + 1) && (z + 1) * (n + 1) + x + 1 < (n + 1) * (n + 1) && z * (n + 1) + x
        + 1 < (z + 1) * (n + 1)) by (nonlinear_arith)
        requires
            0 <= z,
            z < n,
            0 <= x,
            x < n,
    ;
    let tl = z * (n + 1) + x;
    let bl = (z + 1) * (n + 1) + x;
    assert(grid_cell(n, z, x) =~= seq![tl, bl, bl + 1, tl, bl + 1, tl + 1]);
}

proof fn lemma_grid_row_bounds(n: int, z: int, x: int)
    requires
        0 <= z < n,
        0 <= x <= n,
    ensures
        forall|k: int|
            0 <= k < grid_row(n, z, x).len() ==> 0 <= #[trigger] grid_row(n, z, x)[k] < (n + 1) * (
            n + 1),
    decreases x,
{
    if x > 0 {
        lemma_grid_row_bounds(n, z, x - 1);
        lemma_grid_cell_bounds(n, z, x - 1);
        let prev = grid_row(n, z, x - 1);
        let cell = grid_cell(n, z, x - 1);
        assert forall|k: int|
            0 <= k < grid_row(n, z, x).len() implies 0 <= #[trigger] grid_row(n, z, x)[k] < (n + 1)
            * (n + 1) by {
            assert(grid_row(n, z, x) == prev + cell);
            if k < prev.len() {
                assert(grid_row(n, z, x)[k] == prev[k]);
            } else {
                assert(grid_row(n, z, x)[k] == cell[k - prev.len()]);
            }
        }
    }
}

proof fn lemma_grid_rows_bounds(n: int, z: int)
    requires
        0 <= z <= n,
        1 <= n,
    ensures
        forall|k: int|
            0 <= k < grid_rows(n, z).len() ==> 0 <= #[trigger] grid_rows(n, z)[k] < (n + 1) * (n
                + 1),
    decreases z,
{
    if z > 0 {
        lemma_grid_rows_bounds(n, z - 1);
        lemma_grid_row_bounds(n, z - 1, n);
        let prev = grid_rows(n, z - 1);
        let row = grid_row(n, z - 1, n);
        assert forall|k: int|
            0 <= k < grid_rows(n, z).len() implies 0 <= #[trigger] grid_rows(n, z)[k] < (n + 1) * (
            n + 1) by {
            assert(grid_rows(n, z) == prev + row);
            if k < prev.len() {
                assert(grid_rows(n, z)[k] == prev[k]);
            } else {
                assert(grid_rows(n, z)[k] == row[k - prev.len()]);
            }
        }
    }
}

} // verus!
