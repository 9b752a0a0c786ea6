//! What the user interface can ask of the coordinator.

use vstd::prelude::*;

/// Activation actions.
pub mod activation;
/// Layer surface actions.
pub mod layer_surface;
/// Popup actions.
pub mod popup;
/// Session lock actions.
pub mod session_lock;
/// Window actions.
pub mod window;

verus! {

/// Everything the user interface can ask for on a surface.
#[derive(Debug, Clone, PartialEq, Eq)]
pub enum Action {
    /// Layer surface actions.
    LayerSurface(layer_surface::Action),
    /// Window actions.
    Window(window::Action),
    /// Popup actions.
    Popup(popup::Action),
    /// Activation actions.
    Activation(activation::Action),
    /// Session lock actions.
    SessionLock(session_lock::Action),
}

} // verus!
