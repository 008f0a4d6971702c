use std::sync::Arc;
use rust_game::context::ContextData;
use rust_game::draw_utility::DrawUtility;
use rust_game::error::GameError;
use rust_game::time::{Clock, TimeStd};

#[test]
fn enclosing_rectangle_spans_all_points() {
    let points = vec![(1, 5), (4, 2), (3, 3)];
    let rect = DrawUtility::tuple_vec_enclosing_rectangle(&points);
    assert_eq!((1, 2, 3, 3), (rect.x, rect.y, rect.w, rect.h));
}

#[test]
fn enclosing_rectangle_of_single_point_is_empty() {
    let points = vec![(-7, 9)];
    let rect = DrawUtility::tuple_vec_enclosing_rectangle(&points);
    assert_eq!((-7, 9, 0, 0), (rect.x, rect.y, rect.w, rect.h));
}

#[test]
fn transform_points_shifts_every_point() {
    let points = vec![(1, 2), (-3, 4)];
    let moved = DrawUtility::transform_points(&points, (10, -1));
    assert_eq!(vec![(11, 1), (7, 3)], moved);
}

#[test]
fn new_clock_has_no_frames() {
    let time = TimeStd::from(Arc::new(ContextData::new())).unwrap();
    let clock = time.new_clock();
    assert_eq!(0, clock.get_frames());
}

#[test]
fn frame_delay_when_ahead_of_schedule() {
    // After 3 frames at 100 fps, 30 ms should have passed; 10 ms did.
    assert_eq!(20, Clock::frame_delay_ms(3, 100, 10));
}

#[test]
fn frame_delay_when_behind_schedule() {
    // After 1 frame at 100 fps, 10 ms should have passed; 50 ms did.
    assert_eq!(0, Clock::frame_delay_ms(1, 100, 50));
}

#[test]
fn frame_delay_rounds_down() {
    assert_eq!(233, Clock::frame_delay_ms(7, 30, 0));
}

#[test]
fn backend_error_keeps_message() {
    let error = GameError::backend(String::from("pixel format mismatch"));
    assert!(matches!(error, GameError::Backend(_)));
    assert_eq!("pixel format mismatch", error.message());
}
