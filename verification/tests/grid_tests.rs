use mvisual::grid::get_position_grid_n_by_n;

#[test]
fn two_by_two_grid_has_nine_vertices_and_24_indices() {
    let (positions, indices) = get_position_grid_n_by_n(2);
    assert_eq!(positions.len(), 27);
    assert_eq!(indices.len(), 24);
    // The center vertex (row 1, column 1) sits exactly at the origin.
    assert_eq!(positions[3 * 4], 0);
    assert_eq!(positions[3 * 4 + 1], 0);
    assert_eq!(positions[3 * 4 + 2], 0);
}

#[test]
fn two_by_two_grid_triangulation() {
    let (_, indices) = get_position_grid_n_by_n(2);
    let expected: Vec<u16> = vec![
        0, 3, 4, 0, 4, 1, 1, 4, 5, 1, 5, 2, 3, 6, 7, 3, 7, 4, 4, 7, 8, 4, 8, 5,
    ];
    assert_eq!(indices, expected);
}

#[test]
fn grid_spans_minus_one_to_one() {
    let (positions, _) = get_position_grid_n_by_n(2);
    // First lattice point: the (-1, 0, -1) corner.
    assert_eq!(positions[0], -65536);
    assert_eq!(positions[1], 0);
    assert_eq!(positions[2], -65536);
    // Last lattice point: the (1, 0, 1) corner.
    let last = 3 * 8;
    assert_eq!(positions[last], 65536);
    assert_eq!(positions[last + 2], 65536);
    // Every y coordinate is zero.
    for k in 0..9 {
        assert_eq!(positions[3 * k + 1], 0);
    }
}

#[test]
fn grid_index_count_is_six_per_cell() {
    for n in [1usize, 2, 3, 7, 10] {
        let (positions, indices) = get_position_grid_n_by_n(n);
        assert_eq!(positions.len(), 3 * (n + 1) * (n + 1));
        assert_eq!(indices.len(), 6 * n * n);
        let count = ((n + 1) * (n + 1)) as u16;
        for &i in indices.iter() {
            assert!(i < count);
        }
    }
}

#[test]
fn odd_cell_count_truncates_the_cell_side() {
    // 2 / 3 is not representable: the side is truncated toward zero,
    // and the far edge lands just short of one.
    let (positions, _) = get_position_grid_n_by_n(3);
    let side = 131072 / 3;
    assert_eq!(positions[3], -65536 + side);
    let last = 3 * 15;
    assert_eq!(positions[last], -65536 + 3 * side);
}
