//! Request values the registry hands to its caller.
//!
//! The registry performs no window I/O itself: spawning yields an open
//! request and closing yields close requests, and the caller forwards these
//! unmodified to the host windowing system's execution mechanism. A batch
//! combines several close requests into one value the host treats as "do
//! all of these".

use vstd::prelude::*;

use crate::handle::WindowHandle;
use crate::settings::WindowSettings;

verus! {

/// A deferred instruction to the host: create a native window for `handle`
/// with the given settings.
#[derive(Clone, Copy, PartialEq, Eq, Debug, Structural)]
pub struct OpenRequest {
    /// The handle the host issued for the window being opened.
    pub handle: WindowHandle,
    /// How the native window should be created.
    pub settings: WindowSettings,
}

/// A deferred instruction to the host: close the native window registered
/// under `handle`.
#[derive(Clone, Copy, PartialEq, Eq, Debug, Structural)]
pub struct CloseRequest {
    /// The handle of the window to close.
    pub handle: WindowHandle,
}

/// Several close requests combined into one value, for the host to execute
/// as a group.
#[derive(PartialEq, Eq, Debug)]
pub struct CloseBatch {
    /// The individual close requests, one per window.
    pub requests: Vec<CloseRequest>,
}

} // verus!
