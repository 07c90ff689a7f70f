use tracer::canvas::Canvas;
use tracer::color::RGBAColor;

/// Mirrors the renderer's float-percentage color conversion: a channel
/// in `[0, 1]` becomes an 8-bit value, rounding and saturating.
fn from_percent(r: f64, g: f64, b: f64) -> RGBAColor {
    fn to_channel(f: f64) -> u8 {
        (f * 256.0).round() as u8
    }
    RGBAColor::new(to_channel(r), to_channel(g), to_channel(b), 255)
}

#[test]
fn mutate_pixel() {
    let mut p = Canvas::with_size(15, 15);
    p.set_pixel_color((0, 0), RGBAColor::from((12, 12, 12)));
    p.set_pixel_color((10, 10), RGBAColor::from((12, 12, 12)));
    p.set_pixel_color((2, 10), RGBAColor::from((12, 12, 12)));

    assert_ne!(p.get_color_at((0, 0)), p.get_color_at((1, 1)));
}

#[test]
fn basic_ppm() {
    let p = Canvas::with_size(0, 0);
    assert_eq!("P3\n0 0\n255\n", p.to_ppm());

    let p = Canvas::with_size(1, 1);
    assert_eq!("P3\n1 1\n255\n0 0 0\n", p.to_ppm());
}

#[test]
fn larger_ppm() {
    let p = Canvas::with_size(3, 5);
    let expected = "P3\n5 3\n255\n\
0 0 0 0 0 0 0 0 0 0 0 0 0 0 0\n\
0 0 0 0 0 0 0 0 0 0 0 0 0 0 0\n\
0 0 0 0 0 0 0 0 0 0 0 0 0 0 0\n";
    assert_eq!(expected, p.to_ppm());

    let mut p = Canvas::with_size(2, 11);
    for i in 0..p.height {
        for j in 0..p.width {
            p.set_pixel_color((i, j), from_percent(1.0, 0.8, 0.6));
        }
    }

    let expected = "P3\n11 2\n255\n\
255 205 154 255 205 154 255 205 154 255 205 154 255 205 154\n\
255 205 154 255 205 154 255 205 154 255 205 154 255 205 154\n\
255 205 154\n\
255 205 154 255 205 154 255 205 154 255 205 154 255 205 154\n\
255 205 154 255 205 154 255 205 154 255 205 154 255 205 154\n\
255 205 154\n";
    assert_eq!(expected, p.to_ppm());
}

#[test]
fn color_format_string() {
    assert_eq!(RGBAColor::new(0, 0, 0, 255).format_string(), "0 0 0");
    assert_eq!(RGBAColor::new(255, 205, 154, 255).format_string(), "255 205 154");
    assert_eq!(RGBAColor::new(7, 42, 199, 0).format_string(), "7 42 199");
}

#[test]
fn color_from_tuples() {
    assert_eq!(RGBAColor::from((1, 2, 3)), RGBAColor::new(1, 2, 3, 255));
    assert_eq!(RGBAColor::from((1, 2, 3, 4)), RGBAColor::new(1, 2, 3, 4));
}

#[test]
fn background_fills_every_pixel() {
    let c = RGBAColor::from((9, 8, 7));
    let p = Canvas::with_size(4, 6).background(c);
    for r in 0..4 {
        for k in 0..6 {
            assert_eq!(p.get_color_at((r, k)), Some(&c));
        }
    }
}

#[test]
fn get_color_out_of_range() {
    let p = Canvas::with_size(2, 3);
    assert_eq!(p.get_color_at((2, 0)), None);
    assert_eq!(p.get_color_at((0, 3)), None);
    assert!(p.get_color_at((1, 2)).is_some());
}

#[test]
fn ppm_wraps_before_seventy_columns() {
    let mut p = Canvas::with_size(1, 7);
    for j in 0..7 {
        p.set_pixel_color((0, j), RGBAColor::new(100, 100, 100, 255));
    }
    // Each pixel takes 11 characters plus a separator; the sixth pixel
    // would push the line past 70, so it starts a fresh line.
    let expected = "P3\n7 1\n255\n\
100 100 100 100 100 100 100 100 100 100 100 100 100 100 100\n\
100 100 100 100 100 100\n";
    assert_eq!(expected, p.to_ppm());
    for line in p.to_ppm().lines() {
        assert!(line.len() <= 70);
    }
}
