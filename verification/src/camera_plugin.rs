//! The window side of the widget: what the fullscreen key does.

use vstd::prelude::*;

verus! {

/// How the window is shown.
#[derive(Clone, Copy, Debug, PartialEq, Eq, Structural)]
pub enum WindowMode {
    /// A window of its own size among the others.
    Windowed,
    /// A borderless window that covers the screen.
    BorderlessFullscreen,
    /// Fullscreen at the resolution closest to the window's size.
    SizedFullscreen,
    /// Fullscreen at the screen's largest resolution.
    Fullscreen,
}

/// The mode the window is in after the fullscreen key has been pressed in
/// `mode`: a window goes borderless fullscreen, anything else goes back to a
/// window.
pub open spec fn toggled(mode: WindowMode) -> WindowMode {
    if mode == WindowMode::Windowed {
        WindowMode::BorderlessFullscreen
    } else {
        WindowMode::Windowed
    }
}

/// Decides the window mode from the keyboard.
pub struct CameraPlugin;

impl CameraPlugin {
    /// The window mode for the coming frame. `key_just_pressed` says whether
    /// the fullscreen key went down since the last frame; if it did not, the
    /// mode stays.
    pub fn toggle_fullscreen(key_just_pressed: bool, mode: WindowMode) -> (next: WindowMode)
        ensures
            next == if key_just_pressed {
                toggled(mode)
            } else {
                mode
            },
    {
        if key_just_pressed {
            match mode {
                WindowMode::Windowed => WindowMode::BorderlessFullscreen,
                _ => WindowMode::Windowed,
            }
        } else {
            mode
        }
    }
}

/// The fullscreen key goes back and forth between a window and borderless
/// fullscreen: from either of the two, a second press gives the mode back.
/// From the other fullscreen modes the first press leads into that pair.
pub proof fn lemma_toggle_alternates(mode: WindowMode)
    ensures
        mode == WindowMode::Windowed || mode == WindowMode::BorderlessFullscreen ==> toggled(
            toggled(mode),
        ) == mode,
        toggled(mode) == WindowMode::Windowed || toggled(mode) == WindowMode::BorderlessFullscreen,
{
}

} // verus!
