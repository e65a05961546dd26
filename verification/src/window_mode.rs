//! Fullscreen toggling: the window mode the primary window must take when the
//! fullscreen key is pressed.

use vstd::prelude::*;

verus! {

/// The primary window's mode, as the toggle reads and sets it.
#[derive(Debug, Clone, Copy, PartialEq, Eq, Structural)]
pub enum WindowMode {
    Windowed,
    BorderlessFullscreen,
    SizedFullscreen,
    Fullscreen,
}

/// The mode after one frame of toggling: a fullscreen-key press switches a
/// window that is not borderless-fullscreen to borderless-fullscreen, and a
/// borderless-fullscreen one back to windowed.
pub open spec fn spec_toggle_fullscreen(fullscreen_key_just_pressed: bool, mode: WindowMode) -> WindowMode {
    if !fullscreen_key_just_pressed {
        mode
    } else if mode is BorderlessFullscreen {
        WindowMode::Windowed
    } else {
        WindowMode::BorderlessFullscreen
    }
}

/// The mode the primary window must take this frame.
pub fn toggle_fullscreen(fullscreen_key_just_pressed: bool, mode: &WindowMode) -> (next: WindowMode)
    ensures
        next == spec_toggle_fullscreen(fullscreen_key_just_pressed, *mode),
{
    if !fullscreen_key_just_pressed {
        *mode
    } else if matches!(*mode, WindowMode::BorderlessFullscreen) {
        WindowMode::Windowed
    } else {
        WindowMode::BorderlessFullscreen
    }
}

} // verus!
