//! Core of a desktop-wallpaper window backend.
//!
//! The library models the decision logic of a wallpaper renderer's window
//! subsystem: locating the desktop shell's hidden worker surface, keeping a
//! bidirectional registry of engine window ids and native window handles,
//! translating native window events into engine events, and deciding when the
//! embedded engine should tick under a configurable update-mode policy.
//!
//! All OS interaction (window creation, message sends, the event loop itself)
//! happens outside this crate; callers feed observed native data in as plain
//! values and carry the returned directives and actions back to the OS.

use vstd::prelude::*;

pub mod locator;
pub mod policy;
pub mod pump;
pub mod registry;
pub mod videomode;
pub mod window;

verus! {

/// Failures of the window backend. Native-API failures become one of these at
/// the boundary; no raw OS error code crosses into callers.
#[derive(Clone, Copy, Debug, PartialEq, Eq, Structural)]
pub enum BackendError {
    /// The expected desktop-shell window hierarchy is absent.
    SurfaceNotFound,
    /// The OS refused to create a native window.
    WindowCreationFailed,
    /// A native event referenced a handle the registry never registered, or
    /// one that has already been torn down.
    UnknownNativeHandle,
    /// A window command targeted an engine window id with no live native
    /// mapping.
    CommandOnMissingWindow,
}

} // verus!
