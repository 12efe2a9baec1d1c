use raytracer_core::color::{Color, Intensity, quantize};

#[test]
fn test_default_color() {
    let c = Color::default();
    assert_eq!(c, Color { r: 0, g: 0, b: 0 });
    assert_eq!(c.to_line(), "0 0 0");
}

#[test]
fn test_quantize_black() {
    let zero = Intensity::zero();
    let c = Color::new(zero, zero, zero);
    assert_eq!(c.to_line(), "0 0 0");
}

#[test]
fn test_quantize_near_white() {
    // an intensity of 1 - 1e-6 already reaches channel 255
    let v = Intensity::new(999_999, 1_000_000);
    let c = Color::new(v, v, v);
    assert_eq!(c.to_line(), "255 255 255");
}

#[test]
fn test_quantize_half() {
    // 255.999 * 0.5 = 127.9995, truncated to 127
    let half = Intensity::new(1, 2);
    let c = Color::new(half, half, half);
    assert_eq!(c.to_line(), "127 127 127");
}

#[test]
fn test_quantize_exact_one() {
    // an intensity of exactly 1 yields 255, never 256
    assert_eq!(quantize(Intensity::new(1, 1)), 255);
}

#[test]
fn test_quantize_out_of_range() {
    // intensities above 1 are not clamped: 255.999 * 2 truncates to 511
    assert_eq!(quantize(Intensity::new(2, 1)), 511);
    let c = Color::new(Intensity::new(2, 1), Intensity::zero(), Intensity::zero());
    assert_eq!(c.to_line(), "511 0 0");
}

#[test]
fn test_quantize_various() {
    assert_eq!(quantize(Intensity::new(0, 1)), 0);
    // 255.999 / 4 = 63.99975
    assert_eq!(quantize(Intensity::new(1, 4)), 63);
    // 3 * 255.999 / 4 = 191.99925
    assert_eq!(quantize(Intensity::new(3, 4)), 191);
    // 255.999 / 255 = 1.0039...
    assert_eq!(quantize(Intensity::new(1, 255)), 1);
}

#[test]
fn test_color_equality() {
    // equality is exact and channel-wise; equal rationals quantize alike
    let a = Color::new(Intensity::new(1, 2), Intensity::zero(), Intensity::new(1, 1));
    let b = Color::new(Intensity::new(2, 4), Intensity::zero(), Intensity::new(3, 3));
    assert_eq!(a, b);
    assert_ne!(a, Color::default());
}
