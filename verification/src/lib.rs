//! A small 2D sprite framework: placement rectangles, RGBA colors, drawable
//! surfaces behind a capability trait, and a sprite/animation pipeline that
//! updates and draws groups of sprites as a batch.

pub mod animation;
pub mod canvas;
pub mod color;
pub mod context;
pub mod draw_utility;
pub mod error;
pub mod image;
pub mod rect;
pub mod sprite;
pub mod surface;
pub mod surface_mock;
pub mod time;
