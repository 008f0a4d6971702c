//! Shared backend context data.

use vstd::prelude::*;

verus! {

#[verifier::external_type_specification]
#[verifier::external_body]
pub struct ExInstant(std::time::Instant);

/// Relies on `std::time::Instant::now`: an opaque monotonic timestamp.
/// Nothing is assumed about its value.
#[verifier::external_body]
pub(crate) fn instant_now() -> std::time::Instant {
    std::time::Instant::now()
}

/// Data every backend context carries: the moment it was initialized, which
/// anchors the tick counter of the time service.
pub struct ContextData {
    pub initialization_time: std::time::Instant,
}

impl ContextData {
    /// Context data anchored at the moment of this call.
    pub fn new() -> ContextData {
        ContextData { initialization_time: instant_now() }
    }
}

} // verus!
