use crate::shell::ObjectId;
use crate::window::Id;
use vstd::prelude::*;

verus! {

/// Session lock actions.
#[derive(Debug, Clone, Copy, PartialEq, Eq)]
pub enum Action {
    /// Request a session lock.
    Lock,
    /// Destroy the lock.
    Unlock,
    /// Create the lock surface of an output.
    LockSurface {
        /// Unique id for the surface.
        id: Id,
        /// The output it covers.
        output: ObjectId,
    },
    /// Destroy a lock surface.
    DestroyLockSurface {
        /// Unique id of the surface.
        id: Id,
    },
}

} // verus!
