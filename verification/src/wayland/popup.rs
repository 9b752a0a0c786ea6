use crate::shell::SctkPopupSettings;
use crate::window::Id;
use vstd::prelude::*;

verus! {

/// Popup actions.
#[derive(Debug, Clone, Copy, PartialEq, Eq)]
pub enum Action {
    /// Create a popup.
    Popup {
        /// What the popup is asked to be.
        popup: SctkPopupSettings,
    },
    /// Destroy a popup and every popup placed against it.
    Destroy {
        /// Id of the popup.
        id: Id,
    },
    /// Set the size of a popup.
    Size {
        /// Id of the popup.
        id: Id,
        /// Width.
        width: u32,
        /// Height.
        height: u32,
    },
    /// Request that the popup grab the input.
    Grab {
        /// Id of the popup.
        id: Id,
    },
}

} // verus!
