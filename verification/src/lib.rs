//! Screen, render and input coordination for a small text-grid interface.
//!
//! The engine owns which screen is active, renders a screen into a paint
//! tree on demand, maps host pointer and key events to grid cells and
//! actions, and keeps the set of attached listeners in step with the active
//! screen. The host draws what the engine hands out and feeds events back.

use vstd::prelude::*;
use crate::registry::EventKind;

pub use crate::dispatcher::{show_demo_screen, show_home_from_demo};

pub mod buttons;
pub mod demo;
pub mod dispatcher;
pub mod error;
pub mod geometry;
pub mod home;
pub mod layout;
pub mod registry;
pub mod render;
pub mod scene;
pub mod startup;
pub mod state;
pub mod transition;

verus! {

/// The top-level views; exactly one is active at any time.
#[derive(Debug, Clone, Copy, PartialEq, Eq, Structural)]
pub enum Screen {
    Startup,
    Home,
    Demo,
}

impl Screen {
    /// The screen needs a listener for `kind` while it is active: the home
    /// screen for pointer moves and pointer presses, the demo screen for
    /// keys, the startup screen for nothing.
    pub open spec fn spec_listens(&self, kind: EventKind) -> bool {
        match (*self, kind) {
            (Screen::Home, EventKind::PointerMove) => true,
            (Screen::Home, EventKind::PointerDown) => true,
            (Screen::Demo, EventKind::KeyDown) => true,
            _ => false,
        }
    }

    /// Whether the screen needs a listener for `kind` while it is active.
    #[verifier::when_used_as_spec(spec_listens)]
    pub fn listens(&self, kind: EventKind) -> (needed: bool)
        ensures
            needed == self.spec_listens(kind),
    {
        match (*self, kind) {
            (Screen::Home, EventKind::PointerMove) => true,
            (Screen::Home, EventKind::PointerDown) => true,
            (Screen::Demo, EventKind::KeyDown) => true,
            _ => false,
        }
    }
}

} // verus!
