use rust_game::color::{Color, ColorU8};

#[test]
fn color_new() {
    let color = ColorU8::new(32, 64, 96, 128);
    assert_eq!(32, color.r());
    assert_eq!(64, color.g());
    assert_eq!(96, color.b());
    assert_eq!(128, color.a());
}

#[test]
fn color_new_rgb() {
    let color = ColorU8::new_rgb(32, 64, 128);
    assert_eq!(32, color.r());
    assert_eq!(64, color.g());
    assert_eq!(128, color.b());
    assert_eq!(255, color.a());
}

#[test]
fn color_new_gray() {
    let color = ColorU8::new_gray(128);
    assert_eq!(128, color.r());
    assert_eq!(128, color.g());
    assert_eq!(128, color.b());
    assert_eq!(255, color.a());
}

#[test]
fn color_set() {
    let mut color = ColorU8::new_gray(0);
    color.set_r(128);
    color.set_g(96);
    color.set_b(64);
    color.set_a(32);
    assert_eq!(ColorU8::new(128, 96, 64, 32), color);
}

#[test]
fn color_set_rgb() {
    let mut color = ColorU8::new_gray(128);
    color.set(&ColorU8::new(128, 96, 64, 32));
    assert_eq!(ColorU8::new(128, 96, 64, 32), color);
}

#[test]
fn color_from_hue() {
    let color = ColorU8::from_hue(180);
    assert_eq!(ColorU8::new(0, 255, 255, 255), color);
}

#[test]
fn color_from_hue_alpha() {
    let color = ColorU8::from_hue_alpha(180, 50);
    assert_eq!(ColorU8::new(0, 255, 255, 128), color);
}

#[test]
fn color_from_hsv() {
    let color = ColorU8::from_hsv(180, 100, 50);
    assert_eq!(ColorU8::new(0, 128, 128, 255), color);
}

#[test]
fn color_from_hsv_alpha() {
    let color = ColorU8::from_hsv_alpha(180, 100, 50, 50);
    assert_eq!(ColorU8::new(0, 128, 128, 128), color);
}

#[test]
fn color_from_hsl() {
    let color = ColorU8::from_hsl(180, 50, 50);
    assert_eq!(ColorU8::new(64, 191, 191, 255), color);
}

#[test]
fn color_from_hsl_alpha() {
    let color = ColorU8::from_hsl_alpha(180, 50, 50, 50);
    assert_eq!(ColorU8::new(64, 191, 191, 128), color);
}

#[test]
fn color_from_hue_red() {
    let color = ColorU8::from_hue(0);
    assert_eq!(ColorU8::new(255, 0, 0, 255), color);
}

#[test]
fn color_from_hue_wraps() {
    assert_eq!(ColorU8::from_hue(120), ColorU8::from_hue(480));
}

#[test]
fn color_from_hue_alpha_saturates() {
    let color = ColorU8::from_hue_alpha(0, 200);
    assert_eq!(255, color.a());
}

#[test]
fn color_from_hsv_zero_saturation_is_white() {
    let color = ColorU8::from_hsv(123, 0, 100);
    assert_eq!(ColorU8::new(255, 255, 255, 255), color);
}

#[test]
fn color_from_hsl_extremes() {
    assert_eq!(ColorU8::new(0, 0, 0, 255), ColorU8::from_hsl(200, 100, 0));
    assert_eq!(ColorU8::new(255, 255, 255, 255), ColorU8::from_hsl(200, 100, 100));
}
