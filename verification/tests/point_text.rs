use vec2d::decimal::{append_decimal, append_signed_decimal};
use vec2d::Point2;

#[test]
fn text_of_small_points() {
    assert_eq!(Point2::new(3, -4).to_string(), "x:3 y:-4");
    assert_eq!(Point2::new(0, 0).to_string(), "x:0 y:0");
    assert_eq!(Point2::new(-10, 120).to_string(), "x:-10 y:120");
}

#[test]
fn text_of_the_extreme_words() {
    let p = Point2::new(isize::MIN, isize::MAX);
    assert_eq!(p.to_string(), format!("x:{} y:{}", isize::MIN, isize::MAX));
}

#[test]
fn text_agrees_with_the_standard_notation() {
    for v in [0isize, 1, 9, 10, 11, 99, 100, 101, 12345, -1, -9, -10, -12345] {
        assert_eq!(Point2::new(v, -v).to_string(), format!("x:{} y:{}", v, -v));
    }
}

#[test]
fn decimal_is_appended_to_what_is_there() {
    let mut s = String::from("n=");
    append_decimal(&mut s, 0);
    assert_eq!(s, "n=0");
    append_decimal(&mut s, 907);
    assert_eq!(s, "n=0907");
    append_decimal(&mut s, u64::MAX);
    assert_eq!(s, "n=090718446744073709551615");
}

#[test]
fn signed_decimal_is_appended_to_what_is_there() {
    let mut s = String::new();
    append_signed_decimal(&mut s, -45);
    assert_eq!(s, "-45");
    append_signed_decimal(&mut s, 45);
    assert_eq!(s, "-4545");
    append_signed_decimal(&mut s, 0);
    assert_eq!(s, "-45450");
    let mut t = String::new();
    append_signed_decimal(&mut t, isize::MIN);
    assert_eq!(t, format!("{}", isize::MIN));
}
