//! Global hotkey events.
//!
//! A low-level keyboard hook runs on its own thread in the host process and
//! posts classified events to the control loop as plain message words. The
//! classification of a keystroke and the encoding of events into message
//! words are decisions, and they live here; installing the hook, reading key
//! state and posting messages stay with the host.

use vstd::prelude::*;

verus! {

/// Message identifier under which hotkey events are posted to the control
/// loop's message window: 100 above the OS's first user-defined message id
/// (0x0400).
pub const WM_HOTKEY_EVENT: u32 = 0x0400 + 100;

/// Virtual-key code of the left arrow key.
pub const VK_LEFT_CODE: u16 = 0x25;

/// Virtual-key code of the right arrow key.
pub const VK_RIGHT_CODE: u16 = 0x27;

/// Virtual-key code of the letter F key.
pub const KEY_F_CODE: u16 = 0x46;

/// A classified hotkey press.
#[derive(Clone, Copy, PartialEq, Eq, Structural, Debug)]
pub enum HotkeyEvent {
    /// Switch to the desktop on the left.
    SwitchLeft,
    /// Switch to the desktop on the right.
    SwitchRight,
    /// Enter or exit a fullscreen space for the active window.
    ToggleFullscreen,
}

/// The message word that carries an event.
pub open spec fn spec_event_wparam(e: HotkeyEvent) -> usize {
    match e {
        HotkeyEvent::SwitchLeft => 1,
        HotkeyEvent::SwitchRight => 2,
        HotkeyEvent::ToggleFullscreen => 3,
    }
}

/// The event a message word stands for, if any.
pub open spec fn spec_event_from_wparam(wparam: usize) -> Option<HotkeyEvent> {
    if wparam == 1 {
        Some(HotkeyEvent::SwitchLeft)
    } else if wparam == 2 {
        Some(HotkeyEvent::SwitchRight)
    } else if wparam == 3 {
        Some(HotkeyEvent::ToggleFullscreen)
    } else {
        None
    }
}

/// The hotkey that a keystroke stands for, if any: with the OS key held
/// down, the left arrow, the right arrow and the letter F are the three
/// hotkeys; everything else passes through.
pub open spec fn spec_hotkey_from_key(vk: u16, win_pressed: bool) -> Option<HotkeyEvent> {
    if !win_pressed {
        None
    } else if vk == VK_LEFT_CODE {
        Some(HotkeyEvent::SwitchLeft)
    } else if vk == VK_RIGHT_CODE {
        Some(HotkeyEvent::SwitchRight)
    } else if vk == KEY_F_CODE {
        Some(HotkeyEvent::ToggleFullscreen)
    } else {
        None
    }
}

impl HotkeyEvent {
    /// Decodes the event that was posted under [`WM_HOTKEY_EVENT`].
    pub fn from_wparam(wparam: usize) -> (r: Option<HotkeyEvent>)
        ensures
            r == spec_event_from_wparam(wparam),
    {
        match wparam {
            1 => Some(HotkeyEvent::SwitchLeft),
            2 => Some(HotkeyEvent::SwitchRight),
            3 => Some(HotkeyEvent::ToggleFullscreen),
            _ => None,
        }
    }

    /// Encodes the event for posting under [`WM_HOTKEY_EVENT`].
    pub fn to_wparam(self) -> (r: usize)
        ensures
            r == spec_event_wparam(self),
    {
        match self {
            HotkeyEvent::SwitchLeft => 1,
            HotkeyEvent::SwitchRight => 2,
            HotkeyEvent::ToggleFullscreen => 3,
        }
    }
}

/// Round trip: decoding an encoded event yields the event itself, so no
/// hotkey press is lost or confused on its way through the message queue.
pub proof fn lemma_wparam_round_trip(e: HotkeyEvent)
    ensures
        spec_event_from_wparam(spec_event_wparam(e)) == Some(e),
{
}

/// Classifies one keystroke seen by the keyboard hook.
pub fn hotkey_from_key(vk: u16, win_pressed: bool) -> (r: Option<HotkeyEvent>)
    ensures
        r == spec_hotkey_from_key(vk, win_pressed),
{
    if !win_pressed {
        None
    } else if vk == VK_LEFT_CODE {
        Some(HotkeyEvent::SwitchLeft)
    } else if vk == VK_RIGHT_CODE {
        Some(HotkeyEvent::SwitchRight)
    } else if vk == KEY_F_CODE {
        Some(HotkeyEvent::ToggleFullscreen)
    } else {
        None
    }
}

/// Whether the hook must swallow the keystroke instead of passing it on to
/// the system: the two switch hotkeys would otherwise also trigger the OS's
/// own window-snapping.
pub fn suppresses_key(event: HotkeyEvent) -> (r: bool)
    ensures
        r == (event == HotkeyEvent::SwitchLeft || event == HotkeyEvent::SwitchRight),
{
    match event {
        HotkeyEvent::SwitchLeft => true,
        HotkeyEvent::SwitchRight => true,
        HotkeyEvent::ToggleFullscreen => false,
    }
}

} // verus!
