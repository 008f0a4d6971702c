//! The drawing surface capability: a 2D pixel buffer that can report its
//! size, be cloned, be tinted by a color, be filled, and receive blits from
//! another surface of the same implementation.
//!
//! The pixel contents themselves belong to the backend. Each implementation
//! chooses a mathematical view of its observable state (`View::V`), and the
//! contracts here are stated over that view, the size, and `blit_log`, the
//! ordered record of the blits a surface has received — position, blend mode
//! and the view of the source, oldest first — so code driving any surface
//! implementation can be verified without knowing its pixels.

use vstd::prelude::*;
use crate::color::ColorU8;
use crate::error::GameError;
use crate::rect::Rect;

verus! {

/// How a blit composites source pixels over destination pixels. `Blend` is
/// standard alpha compositing; the sprite pipeline draws with it.
#[derive(Debug, PartialEq, Eq, Structural, Clone, Copy)]
pub enum BlendMode {
    Off,
    Blend,
    Add,
    Modulate,
    Multiply,
    MultiplyRGBA,
    Invalid,
}

/// One received blit: the position it was placed at, the blend mode it was
/// composited with, and the view of the surface that was blitted.
pub type BlitRecord<V> = ((i32, i32), BlendMode, V);

/// A drawable 2D pixel buffer.
pub trait Surface: View + Sized {
    /// The (width, height) of this surface.
    spec fn size_spec(&self) -> (u32, u32);

    /// The view of the surface that results from tinting every pixel of this
    /// one by `color`.
    spec fn modulated(&self, color: ColorU8) -> Self::V;

    /// The view of the surface that results from filling every pixel of this
    /// one with `color`.
    spec fn filled(&self, color: ColorU8) -> Self::V;

    /// The blits this surface has received, oldest first: position, blend
    /// mode, and the view of the source surface.
    spec fn blit_log(&self) -> Seq<BlitRecord<Self::V>>;

    fn get_width(&self) -> (w: u32)
        ensures
            w == self.size_spec().0,
    ;

    fn get_height(&self) -> (h: u32)
        ensures
            h == self.size_spec().1,
    ;

    fn get_size(&self) -> (s: (u32, u32))
        ensures
            s == self.size_spec(),
    ;

    /// The surface's own bounds as a rectangle at the origin.
    fn get_rect(&self) -> (r: Rect)
        ensures
            r.x == 0 && r.y == 0,
            r.w == self.size_spec().0 as i32,
            r.h == self.size_spec().1 as i32,
    ;

    /// An independent copy of this surface; fails only when the backend
    /// cannot allocate one.
    fn clone_surface(&self) -> (r: Result<Self, GameError>)
        ensures
            r matches Ok(s) ==> s@ == self@ && s.size_spec() == self.size_spec()
                && s.blit_log() == self.blit_log(),
    ;

    /// A copy of this surface with every pixel multiplied by `color`; fails
    /// only on a backend error.
    fn modulate_surface_and_color(&self, color: &ColorU8) -> (r: Result<Self, GameError>)
        ensures
            r matches Ok(s) ==> s@ == self.modulated(*color) && s.size_spec() == self.size_spec(),
    ;

    /// Fills the whole surface with `color`; fails only on a backend error,
    /// leaving the surface unchanged.
    fn fill(&mut self, color: &ColorU8) -> (r: Result<(), GameError>)
        ensures
            final(self).size_spec() == old(self).size_spec(),
            final(self).blit_log() == old(self).blit_log(),
            r matches Ok(_) ==> final(self)@ == old(self).filled(*color),
            r matches Err(_) ==> final(self)@ == old(self)@,
    ;

    /// Composites `source` onto this surface with its top-left corner at
    /// `position`, and returns the destination rectangle that was touched,
    /// clipped to this surface's bounds. A successful blit appends the
    /// position, the blend mode and the source's view to the blit record and
    /// never changes the size; a failed blit leaves the surface unchanged.
    fn blit(&mut self, source: &Self, position: (i32, i32), blend_mode: BlendMode) -> (r: Result<
        Rect,
        GameError,
    >)
        ensures
            final(self).size_spec() == old(self).size_spec(),
            r matches Ok(_) ==> final(self).blit_log() == old(self).blit_log().push(
                (position, blend_mode, source@),
            ),
            r matches Err(_) ==> final(self)@ == old(self)@ && final(self).blit_log() == old(
                self,
            ).blit_log(),
    ;
}

/// Construction of surfaces, offered by backends that can allocate them.
pub trait SurfaceBuilder: Surface {
    /// A fully transparent surface of the given size.
    fn new_surface_alpha(size: (u32, u32)) -> (r: Result<Self, GameError>)
        ensures
            r matches Ok(s) ==> s.size_spec() == size,
    ;

    /// A surface of the given size filled with `color`.
    fn new_surface_with_color(size: (u32, u32), color: &ColorU8) -> (r: Result<Self, GameError>)
        ensures
            r matches Ok(s) ==> s.size_spec() == size,
    ;
}

} // verus!
