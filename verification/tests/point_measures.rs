use vec2d::Point2;

#[test]
fn squared_length_of_small_points() {
    assert_eq!(Point2::new(0, 0).sqr_length(), 0);
    assert_eq!(Point2::new(3, 4).sqr_length(), 25);
    assert_eq!(Point2::new(-3, 4).sqr_length(), 25);
    assert_eq!(Point2::new(1, 1).sqr_length(), 2);
}

#[test]
fn squared_length_does_not_overflow() {
    let m = isize::MIN as i128;
    let expected = (m * m) as u128 * 2;
    assert_eq!(Point2::new(isize::MIN, isize::MIN).sqr_length(), expected);
    let n = isize::MAX as u128;
    assert_eq!(Point2::new(isize::MAX, 0).sqr_length(), n * n);
}

#[test]
fn distance_between_origin_and_three_four() {
    let d = Point2::new(0, 0) - Point2::new(3, 4);
    assert_eq!(d.sqr_length(), 25);
    assert_eq!((d.sqr_length() as f64).sqrt(), 5.0);
}

#[test]
fn dot_of_small_points() {
    assert_eq!(Point2::dot(Point2::new(1, 1), Point2::new(0, 2)), Some(2));
    assert_eq!(Point2::dot(Point2::new(2, 3), Point2::new(-5, 7)), Some(11));
    assert_eq!(Point2::dot(Point2::new(1, 0), Point2::new(0, 1)), Some(0));
}

#[test]
fn dot_does_not_depend_on_the_order() {
    let a = Point2::new(12, -7);
    let b = Point2::new(isize::MAX, isize::MIN);
    assert_eq!(Point2::dot(a, b), Point2::dot(b, a));
    let expected = 12 * (isize::MAX as i128) + (-7) * (isize::MIN as i128);
    assert_eq!(Point2::dot(a, b), Some(expected));
}

#[test]
fn dot_with_itself_is_the_squared_length() {
    let p = Point2::new(-11, 60);
    assert_eq!(Point2::dot(p, p), Some(p.sqr_length() as i128));
    assert_eq!(p.sqr_length(), 3721);
}

#[test]
fn dot_of_the_largest_negative_products() {
    let a = Point2::new(isize::MIN, isize::MIN);
    let b = Point2::new(isize::MAX, isize::MAX);
    let expected = 2 * (isize::MIN as i128) * (isize::MAX as i128);
    assert_eq!(Point2::dot(a, b), Some(expected));
}

#[test]
fn dot_above_the_widest_integer_is_none() {
    let a = Point2::new(isize::MIN, isize::MIN);
    let m = isize::MIN as i128;
    let exact_fits = m.checked_mul(m).and_then(|s| s.checked_add(s)).is_some();
    assert_eq!(Point2::dot(a, a).is_some(), exact_fits);
    assert_eq!(Point2::dot(a, Point2::new(isize::MIN, isize::MIN + 1)), Some(m * m + m * (m + 1)));
}
