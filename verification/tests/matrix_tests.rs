use mvisual::fixed::SCALE;
use mvisual::matrix::{
    identity, mat_eq, mult_matrix_4, mult_matrix_4_checked, scale_matrix, translation_matrix,
    Mat4,
};

fn sample_matrix() -> Mat4 {
    Mat4 {
        e: [
            65536, 2, -3, 40000, 5, -65536, 7, 8, 900, 10, 11, -12, 13, 14, -15, 16,
        ],
    }
}

#[test]
fn multiply_identity_on_left_leaves_matrix() {
    let id = identity();
    let m = sample_matrix();
    let product = mult_matrix_4(&id, &m);
    assert!(mat_eq(&product, &m));
}

#[test]
fn multiply_identity_on_right_leaves_matrix() {
    let id = identity();
    let m = sample_matrix();
    let product = mult_matrix_4(&m, &id);
    assert!(mat_eq(&product, &m));
}

#[test]
fn translation_of_zero_is_identity() {
    let t = translation_matrix(0, 0, 0);
    assert!(mat_eq(&t, &identity()));
}

#[test]
fn scale_of_one_is_identity() {
    let s = scale_matrix(SCALE, SCALE, SCALE);
    assert!(mat_eq(&s, &identity()));
}

#[test]
fn translations_compose_by_adding_offsets() {
    let a = translation_matrix(1 * SCALE, 2 * SCALE, 3 * SCALE);
    let b = translation_matrix(4 * SCALE, 5 * SCALE, -3 * SCALE);
    let product = mult_matrix_4(&a, &b);
    let expected = translation_matrix(5 * SCALE, 7 * SCALE, 0);
    assert!(mat_eq(&product, &expected));
}

#[test]
fn scales_compose_by_multiplying_factors() {
    let a = scale_matrix(2 * SCALE, 3 * SCALE, 4 * SCALE);
    let b = scale_matrix(5 * SCALE, 6 * SCALE, 7 * SCALE);
    let product = mult_matrix_4(&a, &b);
    let expected = scale_matrix(10 * SCALE, 18 * SCALE, 28 * SCALE);
    assert!(mat_eq(&product, &expected));
}

#[test]
fn multiplication_truncates_toward_zero() {
    // 1.5 * 1.5 = 2.25: representable exactly at this scale.
    let a = scale_matrix(98304, 98304, 98304);
    let product = mult_matrix_4(&a, &a);
    assert_eq!(product.e[0], 147456);
    // (-1/65536) * (1/65536) rounds to zero, not to minus one.
    let tiny = scale_matrix(-1, 1, 0);
    let tiny_product = mult_matrix_4(&tiny, &tiny);
    assert_eq!(tiny_product.e[0], 0);
}

#[test]
fn mat_eq_spots_a_differing_entry() {
    let m = sample_matrix();
    let mut other = sample_matrix();
    other.e[9] += 1;
    assert!(mat_eq(&m, &sample_matrix()));
    assert!(!mat_eq(&m, &other));
}

#[test]
fn checked_multiply_accepts_small_and_refuses_huge() {
    let m = sample_matrix();
    let id = identity();
    let ok = mult_matrix_4_checked(&id, &m);
    assert!(ok.is_some());
    assert!(mat_eq(&ok.unwrap(), &m));
    // Two matrices of large scales overflow the entry bound.
    let big = scale_matrix(274877906944, 274877906944, 274877906944);
    let over = mult_matrix_4_checked(&big, &big);
    assert!(over.is_none());
}
