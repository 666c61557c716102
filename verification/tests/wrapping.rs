use vec2d::wrap::{wrapping_difference, wrapping_product, wrapping_sum};

#[test]
fn sums_in_range_are_exact() {
    assert_eq!(wrapping_sum(2, 3), 5);
    assert_eq!(wrapping_sum(-2, -3), -5);
    assert_eq!(wrapping_sum(isize::MAX, isize::MIN), -1);
}

#[test]
fn sums_out_of_range_wrap() {
    assert_eq!(wrapping_sum(isize::MAX, 1), isize::MIN);
    assert_eq!(wrapping_sum(isize::MIN, -1), isize::MAX);
    assert_eq!(wrapping_sum(isize::MIN, isize::MIN), 0);
}

#[test]
fn differences_in_range_are_exact() {
    assert_eq!(wrapping_difference(2, 3), -1);
    assert_eq!(wrapping_difference(0, isize::MAX), isize::MIN + 1);
}

#[test]
fn differences_out_of_range_wrap() {
    assert_eq!(wrapping_difference(isize::MIN, 1), isize::MAX);
    assert_eq!(wrapping_difference(0, isize::MIN), isize::MIN);
    assert_eq!(wrapping_difference(isize::MAX, -1), isize::MIN);
}

#[test]
fn products_in_range_are_exact() {
    assert_eq!(wrapping_product(6, -7), -42);
    assert_eq!(wrapping_product(isize::MIN, 1), isize::MIN);
}

#[test]
fn products_out_of_range_wrap() {
    assert_eq!(wrapping_product(isize::MAX, 2), -2);
    assert_eq!(wrapping_product(isize::MIN, -1), isize::MIN);
    assert_eq!(wrapping_product(isize::MAX, isize::MAX), 1);
}
