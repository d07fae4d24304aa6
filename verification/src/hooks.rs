//! Window lifecycle events.
//!
//! The host installs an OS event hook that watches for window destruction
//! and posts one event per destroyed top-level window into a channel that
//! the control loop drains. Only the event value is the library's concern;
//! the hook itself, its callback and the channel belong to the host.

use vstd::prelude::*;

use crate::registry::WindowId;

verus! {

/// One window lifecycle notification delivered to the control loop.
#[derive(Clone, Copy, PartialEq, Eq, Structural, Debug)]
pub enum WindowEvent {
    /// The window was destroyed externally; if it owned a fullscreen space,
    /// the space must be reconciled.
    Destroyed(WindowId),
}

} // verus!
