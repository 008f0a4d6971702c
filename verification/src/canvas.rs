//! The presentation capability: a window-backed surface that can be drawn
//! to and then shown.

use vstd::prelude::*;
use crate::error::GameError;
use crate::surface::Surface;

verus! {

/// A canvas owned by a backend: it hands out its drawing surface and
/// presents that surface in the backend's window on `update`.
pub trait Canvas: Sized {
    /// The surface implementation this canvas draws to.
    type Surf: Surface;

    /// The surface everything is drawn onto before being presented.
    fn get_surface(&mut self) -> &mut Self::Surf;

    /// Presents the current contents of the drawing surface.
    fn update(&mut self) -> Result<(), GameError>;
}

} // verus!
