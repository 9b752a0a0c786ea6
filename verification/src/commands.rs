//! The actions that an application asks of its surfaces, ready to be sent.

use crate::shell::ObjectId;
use crate::wayland;
use crate::wayland::window::SctkWindowSettings;
use crate::window::{Id, Mode};
use vstd::prelude::*;

verus! {

/// Create a window.
pub fn get_window(builder: SctkWindowSettings) -> (action: wayland::Action)
    ensures
        action == wayland::Action::Window(wayland::window::Action::Window { builder }),
{
    wayland::Action::Window(wayland::window::Action::Window { builder })
}

/// Close the window.
pub fn close_window(id: Id) -> (action: wayland::Action)
    ensures
        action == wayland::Action::Window(wayland::window::Action::Destroy(id)),
{
    wayland::Action::Window(wayland::window::Action::Destroy(id))
}

/// Resizes the window to the given logical dimensions.
pub fn resize_window(id: Id, width: u32, height: u32) -> (action: wayland::Action)
    ensures
        action == wayland::Action::Window(wayland::window::Action::Size { id, width, height }),
{
    wayland::Action::Window(wayland::window::Action::Size { id, width, height })
}

/// Starts to drag the window.
pub fn start_drag_window(id: Id) -> (action: wayland::Action)
    ensures
        action == wayland::Action::Window(wayland::window::Action::InteractiveMove { id }),
{
    wayland::Action::Window(wayland::window::Action::InteractiveMove { id })
}

/// Maximizes the window, or brings it back.
pub fn maximize(id: Id, maximized: bool) -> (action: wayland::Action)
    ensures
        action == wayland::Action::Window(
            if maximized {
                wayland::window::Action::Maximize { id }
            } else {
                wayland::window::Action::UnsetMaximize { id }
            },
        ),
{
    wayland::Action::Window(
        if maximized {
            wayland::window::Action::Maximize { id }
        } else {
            wayland::window::Action::UnsetMaximize { id }
        },
    )
}

/// Toggles the window between maximized and not.
pub fn toggle_maximize(id: Id) -> (action: wayland::Action)
    ensures
        action == wayland::Action::Window(wayland::window::Action::ToggleMaximized { id }),
{
    wayland::Action::Window(wayland::window::Action::ToggleMaximized { id })
}

/// Sets the app id of the window.
pub fn set_app_id_window(id: Id, app_id: String) -> (action: wayland::Action)
    ensures
        action == wayland::Action::Window(wayland::window::Action::AppId { id, app_id }),
{
    wayland::Action::Window(wayland::window::Action::AppId { id, app_id })
}

/// Sets the [`Mode`] of the window.
pub fn set_mode_window(id: Id, mode: Mode) -> (action: wayland::Action)
    ensures
        action == wayland::Action::Window(wayland::window::Action::Mode(id, mode)),
{
    wayland::Action::Window(wayland::window::Action::Mode(id, mode))
}

/// Asks for an activation token, for a window or for none.
pub fn request_token(app_id: Option<String>, window: Option<Id>) -> (action: wayland::Action)
    ensures
        action == wayland::Action::Activation(
            wayland::activation::Action::RequestToken { app_id, window },
        ),
{
    wayland::Action::Activation(wayland::activation::Action::RequestToken { app_id, window })
}

/// Activates a window with a token.
pub fn activate(window: Id, token: String) -> (action: wayland::Action)
    ensures
        action == wayland::Action::Activation(
            wayland::activation::Action::Activate { window, token },
        ),
{
    wayland::Action::Activation(wayland::activation::Action::Activate { window, token })
}

/// Locks the session.
pub fn lock() -> (action: wayland::Action)
    ensures
        action == wayland::Action::SessionLock(wayland::session_lock::Action::Lock),
{
    wayland::Action::SessionLock(wayland::session_lock::Action::Lock)
}

/// Unlocks the session.
pub fn unlock() -> (action: wayland::Action)
    ensures
        action == wayland::Action::SessionLock(wayland::session_lock::Action::Unlock),
{
    wayland::Action::SessionLock(wayland::session_lock::Action::Unlock)
}

/// Creates the lock surface of an output.
pub fn get_lock_surface(id: Id, output: ObjectId) -> (action: wayland::Action)
    ensures
        action == wayland::Action::SessionLock(
            wayland::session_lock::Action::LockSurface { id, output },
        ),
{
    wayland::Action::SessionLock(wayland::session_lock::Action::LockSurface { id, output })
}

/// Destroys a lock surface.
pub fn destroy_lock_surface(id: Id) -> (action: wayland::Action)
    ensures
        action == wayland::Action::SessionLock(
            wayland::session_lock::Action::DestroyLockSurface { id },
        ),
{
    wayland::Action::SessionLock(wayland::session_lock::Action::DestroyLockSurface { id })
}

} // verus!
