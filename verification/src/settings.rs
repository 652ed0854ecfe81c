//! Spawn-time settings for a native window.
//!
//! A settings record is consulted exactly once, when a window is spawned: it
//! tells the host how to create the native window. Sizes are in whole
//! pixels.

use vstd::prelude::*;

verus! {

/// How the host should create a native window: initial size, whether the
/// user may resize it, and whether it carries native decorations.
#[derive(Clone, Copy, PartialEq, Eq, Debug, Structural)]
pub struct WindowSettings {
    /// Initial width in pixels.
    pub width: u32,
    /// Initial height in pixels.
    pub height: u32,
    /// Whether the user may resize the window.
    pub resizable: bool,
    /// Whether the window carries native decorations (title bar, borders).
    pub decorations: bool,
}

impl Default for WindowSettings {
    /// A plain resizable, decorated window of a modest size.
    fn default() -> (r: Self)
        ensures
            r == (WindowSettings { width: 640, height: 480, resizable: true, decorations: true }),
    {
        WindowSettings { width: 640, height: 480, resizable: true, decorations: true }
    }
}

} // verus!
