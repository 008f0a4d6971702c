use rust_game::animation::{ColorAnimation, HueCycle, HypotrochoidAnimation};
use rust_game::color::ColorU8;
use rust_game::rect::Rect;
use rust_game::sprite::{DefaultSprite, Group, Sprite, SpriteGroup};
use rust_game::surface::{BlendMode, Surface};
use rust_game::surface_mock::SurfaceMock;

type Tint = ColorAnimation<HueCycle>;
type Spr = DefaultSprite<SurfaceMock, Tint, HypotrochoidAnimation>;

fn static_sprite(center: (i32, i32)) -> Spr {
    DefaultSprite::new(SurfaceMock::new(), center)
}

#[test]
fn sprite_new_centers_rect() {
    let sprite = static_sprite((10, 20));
    let rect = sprite.rect();
    assert_eq!((10, 20, 0, 0), (rect.x, rect.y, rect.w, rect.h));
}

#[test]
fn sprite_kill_is_one_way() {
    let mut sprite = static_sprite((0, 0));
    assert!(!sprite.is_killed());
    sprite.kill();
    assert!(sprite.is_killed());
}

#[test]
fn sprite_set_rect_replaces_rect() {
    let mut sprite = static_sprite((0, 0));
    sprite.set_rect(Rect::new(1, 2, 3, 4));
    let rect = sprite.rect();
    assert_eq!((1, 2, 3, 4), (rect.x, rect.y, rect.w, rect.h));
}

#[test]
fn sprite_image_accessor() {
    let mut image = SurfaceMock::new();
    image.fill(&ColorU8::new_rgb(5, 6, 7)).unwrap();
    let sprite: Spr = DefaultSprite::new(image, (0, 0));
    assert_eq!(ColorU8::new(5, 6, 7, 255), sprite.image().fill_color);
}

#[test]
fn group_accessors_expose_sprites() {
    let mut group = Group::new(vec![static_sprite((1, 1)), static_sprite((2, 2))]);
    assert_eq!(2, group.sprites().len());
    group.sprites_mut().push(static_sprite((3, 3)));
    assert_eq!(3, group.sprites().len());
}

#[test]
fn group_update_removes_killed_sprites() {
    let sprites = vec![static_sprite((10, 10)), static_sprite((20, 20)), static_sprite((30, 30))];
    let mut group = Group::new(sprites);
    group.sprites_mut()[1].kill();
    group.update().unwrap();
    assert_eq!(2, group.sprites().len());
    let first = group.sprites()[0].rect();
    let second = group.sprites()[1].rect();
    assert_eq!((10, 10), (first.x, first.y));
    assert_eq!((30, 30), (second.x, second.y));
}

#[test]
fn group_update_keeps_unkilled_sprites() {
    let mut group = Group::new(vec![static_sprite((1, 1)), static_sprite((2, 2))]);
    group.update().unwrap();
    assert_eq!(2, group.sprites().len());
}

#[test]
fn group_update_removes_every_sprite_when_all_killed() {
    let mut group = Group::new(vec![static_sprite((1, 1)), static_sprite((2, 2))]);
    group.sprites_mut()[0].kill();
    group.sprites_mut()[1].kill();
    group.update().unwrap();
    assert_eq!(0, group.sprites().len());
}

#[test]
fn group_update_on_empty_group() {
    let mut group: Group<Spr> = Group::new(Vec::new());
    group.update().unwrap();
    assert_eq!(0, group.sprites().len());
}

#[test]
fn kill_one_of_three_scenario() {
    let sprites = vec![static_sprite((100, 0)), static_sprite((200, 0)), static_sprite((300, 0))];
    let mut group = Group::new(sprites);
    group.sprites_mut()[2].kill();
    group.update().unwrap();
    assert_eq!(2, group.sprites().len());
    for sprite in group.sprites().iter() {
        assert!(!sprite.is_killed());
        assert_ne!(300, sprite.rect().x);
    }
}

#[test]
fn group_draw_blits_once_per_sprite_in_insertion_order() {
    let sprites = vec![static_sprite((10, 10)), static_sprite((20, 20)), static_sprite((30, 30))];
    let mut group = Group::new(sprites);
    let mut dest = SurfaceMock::new();
    group.draw(&mut dest).unwrap();
    assert_eq!(vec![(10, 10), (20, 20), (30, 30)], dest.blit_positions);
    assert_eq!(vec![BlendMode::Blend, BlendMode::Blend, BlendMode::Blend], dest.blit_modes);
}

#[test]
fn group_draw_still_draws_killed_sprites_until_update() {
    let mut group = Group::new(vec![static_sprite((10, 10)), static_sprite((20, 20))]);
    group.sprites_mut()[0].kill();
    let mut dest = SurfaceMock::new();
    group.draw(&mut dest).unwrap();
    assert_eq!(vec![(10, 10), (20, 20)], dest.blit_positions);
    group.update().unwrap();
    let mut dest2 = SurfaceMock::new();
    group.draw(&mut dest2).unwrap();
    assert_eq!(vec![(20, 20)], dest2.blit_positions);
}

#[test]
fn group_draw_on_empty_group() {
    let mut group: Group<Spr> = Group::new(Vec::new());
    let mut dest = SurfaceMock::new();
    group.draw(&mut dest).unwrap();
    assert!(dest.blit_positions.is_empty());
}

#[test]
fn group_draw_uses_animated_image() {
    let tint: Tint = ColorAnimation::new(0, HueCycle);
    let sprite: Spr = DefaultSprite::new_animated(SurfaceMock::new(), Some(tint), None);
    let mut group = Group::new(vec![sprite]);
    let mut dest = SurfaceMock::new();
    group.draw(&mut dest).unwrap();
    assert_eq!(vec![(0, 0)], dest.blit_positions);
}

#[test]
fn static_sprite_keeps_rect_across_updates() {
    let sprite: Spr = DefaultSprite::new_animated(SurfaceMock::new(), None, None);
    let mut group = Group::new(vec![sprite]);
    let before = *group.sprites()[0].rect();
    group.update().unwrap();
    group.update().unwrap();
    group.update().unwrap();
    let after = group.sprites()[0].rect();
    assert_eq!((before.x, before.y, before.w, before.h), (after.x, after.y, after.w, after.h));
}

#[test]
fn four_phase_hypotrochoid_scenario() {
    let phases: [i64; 4] = [0, 90000, 180000, 270000];
    let mut sprites: Vec<Spr> = Vec::new();
    for phase in phases.iter() {
        let animation = HypotrochoidAnimation::new(*phase, 1000, (0, 0), (200, 35, 110));
        sprites.push(DefaultSprite::new_animated(SurfaceMock::new(), None, Some(animation)));
    }
    let mut group = Group::new(sprites);
    group.update().unwrap();
    let mut centers: Vec<(i32, i32)> = Vec::new();
    for sprite in group.sprites().iter() {
        centers.push(sprite.rect().get_center());
    }
    assert_eq!(4, centers.len());
    // The phase-zero sprite sits exactly at distance (a - b) + h along the x axis.
    assert_eq!((275, 0), centers[0]);
    for i in 0..4 {
        for j in (i + 1)..4 {
            assert_ne!(centers[i], centers[j]);
        }
        let dx = centers[i].0 as i64;
        let dy = centers[i].1 as i64;
        let dist2 = dx * dx + dy * dy;
        // Every hypotrochoid point lies between the radii |a - b| - h and
        // (a - b) + h from the curve center: 55 and 275 here, with a small
        // allowance for the sine approximation and pixel rounding.
        assert!(dist2 >= 50 * 50, "point {} too close: {}", i, dist2);
        assert!(dist2 <= 280 * 280, "point {} too far: {}", i, dist2);
    }
}
