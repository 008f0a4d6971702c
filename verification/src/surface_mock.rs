//! A surface double for exercising code that drives the `Surface`
//! capability: it has no pixels, remembers the last fill color, and records
//! every blit it receives, in order.

use vstd::prelude::*;
use crate::color::{Color, ColorRGBA, ColorU8};
use crate::error::GameError;
use crate::rect::Rect;
use crate::surface::{BlendMode, BlitRecord, Surface};

verus! {

/// What the mock remembers of itself: its fill color and the positions of
/// the blits it has received.
pub type MockView = (ColorU8, Seq<(i32, i32)>);

/// A pixel-free surface: size zero, one remembered fill color, the ordered
/// positions and blend modes of the blits it has received, and a ghost
/// record of those blits in full (position, blend mode, and the source's
/// view).
pub struct SurfaceMock {
    pub fill_color: ColorU8,
    pub blit_positions: Vec<(i32, i32)>,
    pub blit_modes: Vec<BlendMode>,
    pub blit_record: Ghost<Seq<BlitRecord<MockView>>>,
}

impl SurfaceMock {
    /// A mock filled with opaque black and with an empty blit record.
    pub fn new() -> (s: SurfaceMock)
        ensures
            s.fill_color.rgba_spec() == (0u8, 0u8, 0u8, 255u8),
            s.blit_positions@ == Seq::<(i32, i32)>::empty(),
            s.blit_modes@ == Seq::<BlendMode>::empty(),
            s.blit_log() == Seq::<BlitRecord<MockView>>::empty(),
    {
        SurfaceMock {
            fill_color: ColorRGBA::new_gray(0),
            blit_positions: Vec::new(),
            blit_modes: Vec::new(),
            blit_record: Ghost(Seq::empty()),
        }
    }
}

/// A copy of a vector of plain values with the same contents.
fn clone_copies<T: Copy>(v: &Vec<T>) -> (r: Vec<T>)
    ensures
        r@ == v@,
{
    let mut out: Vec<T> = Vec::new();
    let mut i: usize = 0;
    while i < v.len()
        invariant
            i <= v.len(),
            out@ == v@.subrange(0, i as int),
        decreases v.len() - i,
    {
        out.push(v[i]);
        proof {
            assert(out@ =~= v@.subrange(0, i + 1));
        }
        i += 1;
    }
    proof {
        assert(v@.subrange(0, v@.len() as int) =~= v@);
    }
    out
}

impl View for SurfaceMock {
    type V = MockView;

    open spec fn view(&self) -> MockView {
        (self.fill_color, self.blit_positions@)
    }
}

impl Surface for SurfaceMock {
    open spec fn size_spec(&self) -> (u32, u32) {
        (0u32, 0u32)
    }

    open spec fn modulated(&self, color: ColorU8) -> MockView {
        (color, self.blit_positions@)
    }

    open spec fn filled(&self, color: ColorU8) -> MockView {
        (color, self.blit_positions@)
    }

    open spec fn blit_log(&self) -> Seq<BlitRecord<MockView>> {
        self.blit_record@
    }

    fn get_width(&self) -> u32 {
        0
    }

    fn get_height(&self) -> u32 {
        0
    }

    fn get_size(&self) -> (u32, u32) {
        (0, 0)
    }

    fn get_rect(&self) -> Rect {
        Rect::new(0, 0, 0, 0)
    }

    fn clone_surface(&self) -> Result<Self, GameError> {
        Ok(SurfaceMock {
            fill_color: self.fill_color,
            blit_positions: clone_copies(&self.blit_positions),
            blit_modes: clone_copies(&self.blit_modes),
            blit_record: Ghost(self.blit_record@),
        })
    }

    fn modulate_surface_and_color(&self, color: &ColorU8) -> Result<Self, GameError> {
        Ok(SurfaceMock {
            fill_color: *color,
            blit_positions: clone_copies(&self.blit_positions),
            blit_modes: clone_copies(&self.blit_modes),
            blit_record: Ghost(self.blit_record@),
        })
    }

    fn fill(&mut self, color: &ColorU8) -> Result<(), GameError> {
        self.fill_color = *color;
        Ok(())
    }

    fn blit(&mut self, source: &Self, position: (i32, i32), blend_mode: BlendMode) -> Result<
        Rect,
        GameError,
    > {
        self.blit_positions.push(position);
        self.blit_modes.push(blend_mode);
        self.blit_record = Ghost(self.blit_record@.push((position, blend_mode, source@)));
        Ok(Rect::new(0, 0, 0, 0))
    }
}

} // verus!
