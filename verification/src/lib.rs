//! Space lifecycle manager for a desktop environment with virtual desktops.
//!
//! The library keeps the bookkeeping that promotes a window into an isolated,
//! animated fullscreen space: a registry that maps each promoted window to its
//! original and its dedicated desktop, the transition plans that enter and
//! leave such a space, and the timeline of the visual switch animation with
//! its deferred desktop-switch action.
//!
//! All operations here are pure decisions over plain values. The host process
//! queries the operating system for a snapshot (current desktop, desktop
//! count, window state), asks this library for the resulting bookkeeping and
//! the ordered list of provider actions, and then performs those actions.

pub mod animation;
pub mod desktop;
pub mod hooks;
pub mod hotkey;
pub mod registry;
pub mod tray;
