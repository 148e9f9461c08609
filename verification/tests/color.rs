use raytracer::decimal::push_decimal;
use raytracer::pixel::Color;

fn decimal_of(n: u32) -> String {
    let mut out = String::new();
    push_decimal(&mut out, n);
    out
}

fn quantize(x: f64, y: f64, z: f64) -> Color {
    Color::saturating((255.999 * x) as i64, (255.999 * y) as i64, (255.999 * z) as i64)
}

#[test]
fn color_new() {
    let c = Color::new(255, 127, 0);
    let expected = Color { r: 255, g: 127, b: 0 };

    assert_eq!(c, expected);
}

#[test]
fn from() {
    let c = quantize(1.0, 0.5, 0.0);
    let expected = Color { r: 255, g: 127, b: 0 };

    assert_eq!(c, expected);
}

#[test]
fn quantize_black() {
    assert_eq!(quantize(0.0, 0.0, 0.0), Color::new(0, 0, 0));
}

#[test]
fn quantize_just_under_one() {
    assert_eq!(quantize(0.9999999, 0.9999999, 0.9999999), Color::new(255, 255, 255));
}

#[test]
fn saturating_keeps_values_in_range() {
    assert_eq!(Color::saturating(0, 128, 255), Color::new(0, 128, 255));
    assert_eq!(Color::saturating(1, 254, 17), Color::new(1, 254, 17));
}

#[test]
fn saturating_stops_at_the_ends() {
    assert_eq!(Color::saturating(-1, 256, 511), Color::new(0, 255, 255));
    assert_eq!(Color::saturating(i64::MIN, i64::MAX, -256), Color::new(0, 255, 0));
}

#[test]
fn color_text() {
    assert_eq!(Color::new(255, 127, 0).to_text(), "255 127 0");
    assert_eq!(Color::new(0, 0, 0).to_text(), "0 0 0");
    assert_eq!(Color::new(7, 10, 100).to_text(), "7 10 100");
}

#[test]
fn color_text_is_appended() {
    let mut out = String::from("x ");
    Color::new(1, 20, 255).push_text(&mut out);
    assert_eq!(out, "x 1 20 255");
}

#[test]
fn decimal_single_digits() {
    assert_eq!(decimal_of(0), "0");
    assert_eq!(decimal_of(5), "5");
    assert_eq!(decimal_of(9), "9");
}

#[test]
fn decimal_several_digits() {
    assert_eq!(decimal_of(10), "10");
    assert_eq!(decimal_of(225), "225");
    assert_eq!(decimal_of(1003), "1003");
    assert_eq!(decimal_of(u32::MAX), "4294967295");
}

#[test]
fn decimal_matches_std_formatting() {
    let mut n: u32 = 1;
    for _ in 0..200 {
        assert_eq!(decimal_of(n), format!("{}", n));
        n = n.wrapping_mul(2654435761).wrapping_add(12345);
    }
}
