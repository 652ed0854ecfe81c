//! Opaque identifiers for live windows.
//!
//! Handles are issued by the host windowing subsystem, never by this
//! library: the registry only stores copies of them as keys. One reserved
//! value stands for the application's initial (main) window, which exists
//! before any registry does.

use vstd::prelude::*;

verus! {

/// An opaque, copyable, comparable identifier for a live window.
///
/// The host windowing subsystem assigns each newly created window a raw
/// number that is distinct from the raw number of every other window it has
/// created; this type carries that number and is read only through equality.
#[derive(Clone, Copy, PartialEq, Eq, Hash, Debug, Structural)]
pub struct WindowHandle {
    pub raw: u64,
}

/// The reserved handle of the application's main window.
pub open spec fn main_handle() -> WindowHandle {
    WindowHandle { raw: 0 }
}

impl WindowHandle {
    /// The reserved handle under which the application's initial window is
    /// registered.
    pub fn main() -> (r: WindowHandle)
        ensures
            r == main_handle(),
    {
        WindowHandle { raw: 0 }
    }
}

} // verus!
