//! Visibility of the launcher's main surface.

use vstd::prelude::*;

verus! {

/// Where the main surface stands in its visible/hidden lifecycle.
#[derive(Clone, Copy, Debug, PartialEq, Eq, Structural)]
pub enum SurfaceState {
    /// The surface is on screen.
    Visible,
    /// No surface exists.
    Hidden,
    /// Activation was asked for; the surface appears with the next result list.
    WaitingToBeShown,
}

} // verus!
