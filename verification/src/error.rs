//! The error type surfaced by fallible backend operations.

use vstd::prelude::*;

verus! {

/// A failure reported by a drawing backend: an allocation that did not
/// succeed, a pixel-format mismatch, or a blit between incompatible surface
/// implementations. These are surfaced immediately and never retried.
#[derive(Debug)]
pub enum GameError {
    Backend(String),
}

impl GameError {
    /// A backend failure carrying the backend's own description.
    pub fn backend(message: String) -> (e: GameError)
        ensures
            e == GameError::Backend(message),
    {
        GameError::Backend(message)
    }

    /// The backend's description of what failed.
    pub fn message(&self) -> (m: &String)
        ensures
            *self matches GameError::Backend(s) && m@ == s@,
    {
        match self {
            GameError::Backend(s) => s,
        }
    }
}

} // verus!
