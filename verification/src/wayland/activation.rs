use crate::window::Id;
use vstd::prelude::*;

verus! {

/// Activation actions.
#[derive(Debug, Clone, PartialEq, Eq)]
pub enum Action {
    /// Request an activation token.
    RequestToken {
        /// Application id.
        app_id: Option<String>,
        /// The window the token is asked for, if any.
        window: Option<Id>,
    },
    /// Request a window to be activated.
    Activate {
        /// Window to activate.
        window: Id,
        /// Activation token.
        token: String,
    },
}

} // verus!
