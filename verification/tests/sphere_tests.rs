use mvisual::fixed::SCALE;
use mvisual::sphere::{generate_sphere, Sphere};

/// Plausible fixed-point tables for the band angles: exact sines and
/// cosines where the angle is a multiple of a right angle, rough values
/// elsewhere.  The contracts only need the tables to be bounded.
fn tables(v_sectors: u32, h_sectors: u32) -> (Vec<i64>, Vec<i64>, Vec<i64>) {
    let mut sin_v: Vec<i64> = Vec::new();
    let mut cos_v: Vec<i64> = Vec::new();
    let mut sin_h: Vec<i64> = Vec::new();
    for i in 0..(v_sectors + 1) {
        sin_v.push(65536 - (i as i64) * 131072 / (v_sectors as i64));
        cos_v.push(40000 + (i as i64 % 3) * 1000);
    }
    for i in 0..(h_sectors + 1) {
        sin_h.push(-30000 + (i as i64) * 777);
    }
    (sin_v, cos_v, sin_h)
}

#[test]
fn minimum_resolution_gives_two_and_three_bands() {
    let (sv, cv, sh) = tables(2, 3);
    let s = generate_sphere(SCALE, 0, &sv, &cv, &sh);
    assert_eq!(s.v_sectors, 2);
    assert_eq!(s.h_sectors, 3);
    assert_eq!(s.vertices.len(), 3 * 3 * 4);
    assert_eq!(s.normals.len(), 3 * 3 * 4);
}

#[test]
fn face_indices_at_minimum_resolution() {
    let (sv, cv, sh) = tables(2, 3);
    let s = generate_sphere(SCALE, 0, &sv, &cv, &sh);
    // Row 0 collapses to single triangles, row 1 is the last row.
    let expected: Vec<u32> = vec![
        4, 5, 1, 5, 6, 2, 6, 7, 3, 4, 8, 5, 5, 9, 6, 6, 10, 7,
    ];
    assert_eq!(s.face_indices, expected);
}

#[test]
fn wireframe_indices_at_minimum_resolution() {
    let (sv, cv, sh) = tables(2, 3);
    let s = generate_sphere(SCALE, 0, &sv, &cv, &sh);
    let expected: Vec<u32> = vec![
        0, 4, 1, 5, 2, 6, 4, 8, 4, 5, 5, 9, 5, 6, 6, 10, 6, 7,
    ];
    assert_eq!(s.wireframe_indices, expected);
}

#[test]
fn scenario_half_radius_resolution_thirty() {
    let (sv, cv, sh) = tables(32, 33);
    let s = generate_sphere(SCALE / 2, 30, &sv, &cv, &sh);
    assert_eq!(s.v_sectors, 32);
    assert_eq!(s.h_sectors, 33);
    assert_eq!(s.vertices.len(), 3 * 33 * 34);
    assert_eq!(s.vertices.len(), 3366);
    assert_eq!(s.face_indices.len(), 6138);
}

#[test]
fn face_index_count_formula_holds() {
    for resolution in [0u32, 1, 2, 5, 8] {
        let vs = 2 + resolution;
        let hs = 3 + resolution;
        let (sv, cv, sh) = tables(vs, hs);
        let s = generate_sphere(3 * SCALE, resolution, &sv, &cv, &sh);
        let vs = vs as usize;
        let hs = hs as usize;
        assert_eq!(s.vertices.len(), 3 * (vs + 1) * (hs + 1));
        assert_eq!(s.face_indices.len(), 6 * vs * hs - 6 * hs);
        assert_eq!(s.wireframe_indices.len(), 4 * vs * hs - 2 * hs);
    }
}

#[test]
fn every_index_addresses_a_vertex() {
    for resolution in [0u32, 1, 4, 7] {
        let vs = 2 + resolution;
        let hs = 3 + resolution;
        let (sv, cv, sh) = tables(vs, hs);
        let s = generate_sphere(SCALE, resolution, &sv, &cv, &sh);
        let count = ((vs + 1) * (hs + 1)) as u32;
        for &i in s.face_indices.iter() {
            assert!(i < count);
        }
        for &i in s.wireframe_indices.iter() {
            assert!(i < count);
        }
    }
}

#[test]
fn vertex_formula_uses_the_same_horizontal_term_twice() {
    // Unit radius and exact table values at the right angles.
    let sin_v: Vec<i64> = vec![65536, 0, -65536];
    let cos_v: Vec<i64> = vec![0, 65536, 0];
    let sin_h: Vec<i64> = vec![0, 56756, -9000, 65536];
    let s = generate_sphere(SCALE, 0, &sin_v, &cos_v, &sin_h);
    // Lattice point (v = 1, h = 1): hypotenuse is the full radius.
    let k = (1 * (3 + 1) + 1) as usize;
    assert_eq!(s.vertices[3 * k], 56756);
    assert_eq!(s.vertices[3 * k + 1], 56756);
    assert_eq!(s.vertices[3 * k + 2], 0);
    // The pole row (v = 0): no horizontal extent, z is the radius.
    assert_eq!(s.vertices[0], 0);
    assert_eq!(s.vertices[1], 0);
    assert_eq!(s.vertices[2], 65536);
    // Unit radius: normals coincide with the vertices.
    for i in 0..s.vertices.len() {
        assert_eq!(s.normals[i], s.vertices[i]);
    }
}

#[test]
fn normals_scale_vertices_by_inverse_radius() {
    let sin_v: Vec<i64> = vec![65536, 0, -65536];
    let cos_v: Vec<i64> = vec![0, 65536, 0];
    let sin_h: Vec<i64> = vec![0, 32768, -32768, 65536];
    // Radius two: normals are the vertex coordinates halved.
    let s = generate_sphere(2 * SCALE, 0, &sin_v, &cos_v, &sin_h);
    let k = (1 * (3 + 1) + 1) as usize;
    assert_eq!(s.vertices[3 * k], 65536);
    assert_eq!(s.normals[3 * k], 32768);
    assert_eq!(s.vertices[2], 131072);
    assert_eq!(s.normals[2], 65536);
}

#[test]
fn new_sphere_has_no_mesh_until_recalculated() {
    let s = Sphere::new(SCALE, 5);
    assert_eq!(s.v_sectors, 7);
    assert_eq!(s.h_sectors, 8);
    assert!(s.vertices.is_empty());
    assert!(s.normals.is_empty());
    assert!(s.face_indices.is_empty());
    assert!(s.wireframe_indices.is_empty());
}

#[test]
fn recalculate_replaces_previous_mesh() {
    let (sv, cv, sh) = tables(2, 3);
    let mut s = Sphere::new(SCALE, 0);
    s.recalculate(&sv, &cv, &sh);
    let first_len = s.face_indices.len();
    s.recalculate(&sv, &cv, &sh);
    assert_eq!(s.face_indices.len(), first_len);
    assert_eq!(s.vertices.len(), 3 * 3 * 4);
}
