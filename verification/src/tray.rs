//! Tray menu events and the default tray icon.
//!
//! The host owns the tray icon and its menu; the library contributes the
//! menu's event vocabulary and the pixel contents of the default icon, a
//! small blue square with a darker border.

use vstd::prelude::*;

verus! {

/// One tray menu choice made by the user.
#[derive(Clone, Copy, PartialEq, Eq, Structural, Debug)]
pub enum TrayEvent {
    /// Show desktop count and current desktop.
    ShowInfo,
    /// Show the contents of the space registry.
    ShowRegistry,
    /// Toggle verbose logging.
    ToggleDebug,
    /// Reload the configuration.
    Reload,
    /// Quit the program.
    Exit,
}

/// Side length of the default tray icon, in pixels.
pub const ICON_SIZE: usize = 16;

/// One byte of the default icon's RGBA image, at flat offset `i`: four bytes
/// per pixel, pixels in row-major order; border pixels are dark blue, inner
/// pixels light blue, all fully opaque.
pub open spec fn spec_icon_byte(i: int) -> u8 {
    let pixel = i / 4;
    let channel = i % 4;
    let x = pixel % 16;
    let y = pixel / 16;
    if x == 0 || x == 15 || y == 0 || y == 15 {
        if channel == 0 {
            0x00
        } else if channel == 1 {
            0x50
        } else if channel == 2 {
            0xA0
        } else {
            0xFF
        }
    } else {
        if channel == 0 {
            0x40
        } else if channel == 1 {
            0x80
        } else if channel == 2 {
            0xE0
        } else {
            0xFF
        }
    }
}

/// The flat offset of a pixel's channel decomposes back into the pixel's
/// coordinates and the channel.
proof fn lemma_icon_index(x: int, y: int, c: int)
    requires
        0 <= x < 16,
        0 <= y < 16,
        0 <= c < 4,
    ensures
        ((y * 16 + x) * 4 + c) / 4 == y * 16 + x,
        ((y * 16 + x) * 4 + c) % 4 == c,
        (y * 16 + x) % 16 == x,
        (y * 16 + x) / 16 == y,
{
    assert(((y * 16 + x) * 4 + c) / 4 == y * 16 + x) by (nonlinear_arith)
        requires
            0 <= x < 16,
            0 <= y < 16,
            0 <= c < 4,
    ;
    assert(((y * 16 + x) * 4 + c) % 4 == c) by (nonlinear_arith)
        requires
            0 <= x < 16,
            0 <= y < 16,
            0 <= c < 4,
    ;
    assert((y * 16 + x) % 16 == x) by (nonlinear_arith)
        requires
            0 <= x < 16,
            0 <= y < 16,
    ;
    assert((y * 16 + x) / 16 == y) by (nonlinear_arith)
        requires
            0 <= x < 16,
            0 <= y < 16,
    ;
}

/// Builds the RGBA image of the default tray icon: a 16 by 16 light blue
/// square with a dark blue one-pixel border, fully opaque.
pub fn create_default_icon() -> (rgba: Vec<u8>)
    ensures
        rgba@.len() == ICON_SIZE * ICON_SIZE * 4,
        forall|i: int| 0 <= i < rgba@.len() ==> rgba@[i] == spec_icon_byte(i),
{
    let mut rgba: Vec<u8> = Vec::new();
    let mut y: usize = 0;
    while y < ICON_SIZE
        invariant
            y <= ICON_SIZE,
            rgba@.len() == y * ICON_SIZE * 4,
            forall|i: int| 0 <= i < rgba@.len() ==> rgba@[i] == spec_icon_byte(i),
        decreases ICON_SIZE - y,
    {
        let mut x: usize = 0;
        while x < ICON_SIZE
            invariant
                y < ICON_SIZE,
                x <= ICON_SIZE,
                rgba@.len() == (y * ICON_SIZE + x) * 4,
                forall|i: int| 0 <= i < rgba@.len() ==> rgba@[i] == spec_icon_byte(i),
            decreases ICON_SIZE - x,
        {
            let is_border = x == 0 || x == ICON_SIZE - 1 || y == 0 || y == ICON_SIZE - 1;
            if is_border {
                rgba.push(0x00);
                rgba.push(0x50);
                rgba.push(0xA0);
                rgba.push(0xFF);
            } else {
                rgba.push(0x40);
                rgba.push(0x80);
                rgba.push(0xE0);
                rgba.push(0xFF);
            }
            proof {
                let base = (y * ICON_SIZE + x) * 4 as int;
                assert forall|i: int| base <= i < base + 4 implies rgba@[i] == spec_icon_byte(
                    i,
                ) by {
                    lemma_icon_index(x as int, y as int, i - base);
                }
            }
            x = x + 1;
        }
        y = y + 1;
    }
    rgba
}

} // verus!
