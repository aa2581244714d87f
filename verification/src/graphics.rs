use vstd::prelude::*;

verus! {

/// Width of the window, in pixels.
pub const WINDOW_WIDTH: u64 = 250;

/// Height of the window, in pixels.
pub const WINDOW_HEIGHT: u64 = WINDOW_WIDTH;

/// Height of a key cap, and width of a letter key, in pixels.
pub const PADDING_PIXELS: u64 = 10;

/// Distance of the keyboard from the left edge of the window, in pixels.
pub const KEYBOARD_LEFT: u64 = 4;

/// Distance of the top of the keyboard from the bottom edge of the window, in pixels.
pub const KEYBOARD_RISE: u64 = 95;

} // verus!
