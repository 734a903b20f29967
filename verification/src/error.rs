//! What can go wrong in the engine.

use vstd::prelude::*;

verus! {

/// The failures that the engine reports. A host input that nothing
/// recognises is no failure: it is ignored.
#[derive(Debug, Clone, Copy, PartialEq, Eq, Structural)]
pub enum EngineError {
    /// The host could not provide a surface to draw on.
    RenderSurfaceUnavailable,
    /// A listener of the given kind is attached already.
    ListenerAlreadyAttached,
}

} // verus!
