use rust_game::animation::{ColorAnimation, HueCycle, HypotrochoidAnimation, ToColor};
use rust_game::color::{Color, ColorU8};
use rust_game::rect::Rect;
use rust_game::sprite::{ImageAnimation, RectAnimation};
use rust_game::surface::Surface;
use rust_game::surface_mock::SurfaceMock;

#[test]
fn hypotrochoid_first_call_is_exact_at_phase_zero() {
    // At angle zero both cosines are exactly one, so the center lands at
    // (center.x + (a - b) + h, center.y) with no rounding.
    let mut animation = HypotrochoidAnimation::new(0, 90000, (100, 100), (200, 35, 110));
    let rect = animation.update_rectangle(&Rect::new(0, 0, 10, 10));
    assert_eq!((370, 95, 10, 10), (rect.x, rect.y, rect.w, rect.h));
    assert_eq!((375, 100), rect.get_center());
}

#[test]
fn hypotrochoid_cursor_advances_after_use() {
    let mut animation = HypotrochoidAnimation::new(0, 90000, (0, 0), (200, 35, 110));
    let first = animation.update_rectangle(&Rect::new(0, 0, 2, 2));
    let second = animation.update_rectangle(&Rect::new(0, 0, 2, 2));
    assert_ne!((first.x, first.y), (second.x, second.y));
}

#[test]
fn hypotrochoid_n_steps_equal_shifted_start() {
    // Three calls advance the cursor by three steps: the fourth call agrees
    // with the first call of an animation started three steps later.
    let rect = Rect::new(0, 0, 8, 6);
    let mut walked = HypotrochoidAnimation::new(5000, 31000, (7, -3), (150, 52, 80));
    walked.update_rectangle(&rect);
    walked.update_rectangle(&rect);
    walked.update_rectangle(&rect);
    let fourth = walked.update_rectangle(&rect);
    let mut jumped = HypotrochoidAnimation::new(5000 + 3 * 31000, 31000, (7, -3), (150, 52, 80));
    let direct = jumped.update_rectangle(&rect);
    assert_eq!((direct.x, direct.y, direct.w, direct.h), (fourth.x, fourth.y, fourth.w, fourth.h));
}

#[test]
fn hypotrochoid_preserves_rect_size() {
    let mut animation = HypotrochoidAnimation::new(123000, 4567, (40, 50), (300, 7, 12));
    for (w, h) in [(0, 0), (1, 1), (10, 20), (-4, 9), (640, 480)] {
        let rect = animation.update_rectangle(&Rect::new(-3, 11, w, h));
        assert_eq!((w, h), (rect.w, rect.h));
    }
}

#[test]
fn hue_cycle_yields_hue_colors() {
    let mut strategy = HueCycle;
    assert_eq!(ColorU8::new(255, 0, 0, 255), strategy.get_color(0));
    assert_eq!(ColorU8::new(0, 255, 255, 255), strategy.get_color(180));
    assert_eq!(ColorU8::new(255, 0, 0, 255), strategy.get_color(360));
}

#[test]
fn color_animation_tints_with_current_frame() {
    let mut animation: ColorAnimation<HueCycle> = ColorAnimation::new(180, HueCycle);
    let source = SurfaceMock::new();
    let tinted = animation.transform_image(&source).unwrap();
    assert_eq!(ColorU8::new(0, 255, 255, 255), tinted.fill_color);
}

#[test]
fn color_animation_does_not_mutate_source() {
    let mut source = SurfaceMock::new();
    source.fill(&ColorU8::new_rgb(12, 34, 56)).unwrap();
    let color_before = source.fill_color;
    let blits_before = source.blit_positions.clone();
    let mut animation: ColorAnimation<HueCycle> = ColorAnimation::new(0, HueCycle);
    let _ = animation.transform_image(&source).unwrap();
    assert_eq!(color_before, source.fill_color);
    assert_eq!(blits_before, source.blit_positions);
}

#[test]
fn color_animation_frame_wraps_after_360_calls() {
    let mut animation: ColorAnimation<HueCycle> = ColorAnimation::new(0, HueCycle);
    let source = SurfaceMock::new();
    let first = animation.transform_image(&source).unwrap().fill_color;
    let mut last = first;
    for _ in 0..359 {
        last = animation.transform_image(&source).unwrap().fill_color;
    }
    // 360 calls made: the cursor is back at frame 0.
    assert_ne!(first, last);
    let wrapped = animation.transform_image(&source).unwrap().fill_color;
    assert_eq!(first, wrapped);
}
