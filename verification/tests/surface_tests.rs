use rust_game::color::ColorU8;
use rust_game::surface::{BlendMode, Surface};
use rust_game::surface_mock::SurfaceMock;

#[test]
fn surface_test_fill() {
    let mut surface = SurfaceMock::new();
    surface.fill(&ColorU8::new_rgb(128, 32, 64)).unwrap();
}

#[test]
fn mock_fill_remembers_color() {
    let mut surface = SurfaceMock::new();
    surface.fill(&ColorU8::new_rgb(128, 32, 64)).unwrap();
    assert_eq!(ColorU8::new(128, 32, 64, 255), surface.fill_color);
}

#[test]
fn mock_modulate_takes_color() {
    let surface = SurfaceMock::new();
    let tinted = surface.modulate_surface_and_color(&ColorU8::new(1, 2, 3, 4)).unwrap();
    assert_eq!(ColorU8::new(1, 2, 3, 4), tinted.fill_color);
    assert_eq!(ColorU8::new_gray(0), surface.fill_color);
}

#[test]
fn mock_clone_copies_state() {
    let mut surface = SurfaceMock::new();
    surface.fill(&ColorU8::new_rgb(9, 8, 7)).unwrap();
    let copy = surface.clone_surface().unwrap();
    assert_eq!(surface.fill_color, copy.fill_color);
    assert_eq!(surface.blit_positions, copy.blit_positions);
    assert_eq!(surface.blit_modes, copy.blit_modes);
}

#[test]
fn mock_records_blits_in_order() {
    let mut dest = SurfaceMock::new();
    let src = SurfaceMock::new();
    dest.blit(&src, (3, 4), BlendMode::Blend).unwrap();
    dest.blit(&src, (-1, 2), BlendMode::Add).unwrap();
    assert_eq!(vec![(3, 4), (-1, 2)], dest.blit_positions);
    assert_eq!(vec![BlendMode::Blend, BlendMode::Add], dest.blit_modes);
}

#[test]
fn mock_geometry_is_empty() {
    let surface = SurfaceMock::new();
    assert_eq!(0, surface.get_width());
    assert_eq!(0, surface.get_height());
    assert_eq!((0, 0), surface.get_size());
    let rect = surface.get_rect();
    assert_eq!((0, 0), (rect.x, rect.y));
    assert_eq!((0, 0), (rect.w, rect.h));
}
