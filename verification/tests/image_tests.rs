use raytracer_core::color::Color;
use raytracer_core::image::{pixel_color, render};

#[test]
fn test_render_two_by_two() {
    // the four pixels give (u, v) = (0,0), (1,0), (0,1), (1,1) in
    // row-major order, after the three header lines
    let lines = render(2, 2);
    let expected = vec![
        "P3", "2 2", "255", "0 0 0", "255 0 0", "0 255 0", "255 255 0",
    ];
    assert_eq!(lines, expected);
}

#[test]
fn test_render_three_by_two() {
    let lines = render(3, 2);
    let expected = vec![
        "P3", "3 2", "255",
        "0 0 0", "127 0 0", "255 0 0",
        "0 255 0", "127 255 0", "255 255 0",
    ];
    assert_eq!(lines, expected);
}

#[test]
fn test_render_idempotent() {
    // two runs with identical dimensions are byte-identical
    let first = render(16, 16);
    let second = render(16, 16);
    assert_eq!(first, second);
}

#[test]
fn test_render_channels_in_range() {
    let lines = render(16, 16);
    assert_eq!(lines.len(), 3 + 16 * 16);
    assert_eq!(lines[0], "P3");
    assert_eq!(lines[1], "16 16");
    assert_eq!(lines[2], "255");
    for line in lines.iter().skip(3) {
        let parts: Vec<&str> = line.split(' ').collect();
        assert_eq!(parts.len(), 3);
        for part in parts {
            let value: i32 = part.parse().unwrap();
            assert!(0 <= value && value <= 255);
        }
    }
}

#[test]
fn test_pixel_color_corners() {
    let w = 256;
    let h = 256;
    assert_eq!(pixel_color(0, 0, w, h), Color { r: 0, g: 0, b: 0 });
    assert_eq!(pixel_color(255, 0, w, h), Color { r: 255, g: 0, b: 0 });
    assert_eq!(pixel_color(0, 255, w, h), Color { r: 0, g: 255, b: 0 });
    assert_eq!(pixel_color(255, 255, w, h), Color { r: 255, g: 255, b: 0 });
    // near the middle: floor(255.999 * 128 / 255) = floor(128.501...) = 128
    assert_eq!(pixel_color(128, 0, w, h).r, 128);
}
