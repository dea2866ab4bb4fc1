use mvisual::fixed::{div_fx, mul_fx, FX_DIV_BOUND, SCALE};

#[test]
fn whole_number_products_are_exact() {
    assert_eq!(mul_fx(2 * SCALE, 3 * SCALE), 6 * SCALE);
    assert_eq!(mul_fx(-2 * SCALE, 3 * SCALE), -6 * SCALE);
    assert_eq!(mul_fx(0, 12345), 0);
}

#[test]
fn fractional_products_truncate_toward_zero() {
    // A third of a unit squared: 1/9 rounds down at this scale.
    let third = SCALE / 3;
    assert_eq!(mul_fx(third, third), 7281);
    // The symmetric negative product truncates toward zero, not down.
    assert_eq!(mul_fx(-third, third), -7281);
    // The smallest positive scalars multiply to nothing.
    assert_eq!(mul_fx(1, 1), 0);
    assert_eq!(mul_fx(-1, 1), 0);
}

#[test]
fn quotients_match_their_definition() {
    assert_eq!(div_fx(6 * SCALE, 3 * SCALE), 2 * SCALE);
    assert_eq!(div_fx(SCALE, 2 * SCALE), SCALE / 2);
    assert_eq!(div_fx(-SCALE, 2 * SCALE), -SCALE / 2);
    assert_eq!(div_fx(SCALE, -2 * SCALE), -SCALE / 2);
    // One third of a unit, truncated.
    assert_eq!(div_fx(SCALE, 3 * SCALE), 21845);
}

#[test]
fn division_handles_the_largest_dividend() {
    let r = div_fx(FX_DIV_BOUND, SCALE);
    assert_eq!(r, FX_DIV_BOUND);
    let n = div_fx(-FX_DIV_BOUND, SCALE);
    assert_eq!(n, -FX_DIV_BOUND);
}
