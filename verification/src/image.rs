//! The image-file capability: loading and saving surfaces, offered by
//! backends that can decode and encode image files.

use vstd::prelude::*;
use crate::error::GameError;
use crate::surface::Surface;

verus! {

/// Decoding and encoding of image files. Every operation touches the file
/// system through the backend and can fail with its error.
pub trait Image: Sized {
    /// The surface implementation loaded images use.
    type Surf: Surface;

    /// Decodes the image file at `path` into a surface.
    fn load(&self, path: &str) -> Result<Self::Surf, GameError>;

    /// Decodes an animation file at `path` into one surface per frame.
    fn load_frames(&self, path: &str) -> Result<Vec<Self::Surf>, GameError>;

    /// Encodes `surface` into the file at `path`.
    fn save(&self, surface: &Self::Surf, path: &str) -> Result<(), GameError>;

    /// Encodes `frames` into one animation file at `path`.
    fn save_frames(&self, frames: &Vec<Self::Surf>, path: &str) -> Result<(), GameError>;
}

} // verus!
