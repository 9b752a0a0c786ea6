//! The protocol requests that the coordinator decides on.
//!
//! The coordinator never sends anything itself. Every operation appends the
//! requests it has decided on to a queue, in the order in which they have to
//! reach the compositor, and the shell performs them.

use crate::shell::{
    Anchor, CursorIcon, IcedMargin, KeyboardInteractivity, Layer, ObjectId, ResizeEdge,
    SctkPositioner, WindowDecorations,
};
use crate::surface::SctkSurface;
use vstd::prelude::*;

verus! {

/// One request to the compositor.
#[derive(Debug, Clone, PartialEq, Eq)]
pub enum Request {
    /// Create the surface that will be known as `surface`.
    CreateSurface { surface: ObjectId },
    /// Commit the pending state of a surface.
    Commit { surface: ObjectId },
    /// Set the whole-number scale of the buffers of a surface.
    SetBufferScale { surface: ObjectId, scale: u32 },
    /// Ask to be told when it is time to draw the next frame of a surface.
    Frame { surface: ObjectId },
    /// Give a surface an empty input region, so that input passes through it.
    SetEmptyInputRegion { surface: ObjectId },
    /// Give a surface a viewport.
    GetViewport { surface: ObjectId },
    /// Set the logical size that the buffer of a surface is shown at.
    SetViewportDestination { surface: ObjectId, width: u32, height: u32 },
    /// Ask to be told the preferred fractional scale of a surface.
    GetFractionalScale { surface: ObjectId },
    /// Give a surface the role of a top-level window.
    CreateWindow { surface: ObjectId, decorations: WindowDecorations },
    SetAppId { surface: ObjectId, app_id: String },
    SetTitle { surface: ObjectId, title: String },
    SetMinSize { surface: ObjectId, size: Option<(u32, u32)> },
    SetMaxSize { surface: ObjectId, size: Option<(u32, u32)> },
    /// Set the part of a window or popup that counts as the window itself.
    SetWindowGeometry { surface: ObjectId, x: i32, y: i32, width: u32, height: u32 },
    /// Start an interactive move of a window.
    Move { surface: ObjectId, seat: ObjectId, serial: u32 },
    /// Start an interactive resize of a window.
    Resize { surface: ObjectId, seat: ObjectId, serial: u32, edge: ResizeEdge },
    /// Show the menu of the window manager for a window.
    ShowWindowMenu { surface: ObjectId, seat: ObjectId, serial: u32, x: i32, y: i32 },
    /// Maximize a window.
    SetMaximized { surface: ObjectId },
    /// Bring a window back from being maximized.
    UnsetMaximized { surface: ObjectId },
    /// Minimize a window.
    SetMinimized { surface: ObjectId },
    /// Let a window fill the screen.
    SetFullscreen { surface: ObjectId },
    /// Bring a window back from filling the screen.
    UnsetFullscreen { surface: ObjectId },
    DestroyWindow { surface: ObjectId },
    /// Take back every place of a surface where a drag can be dropped.
    ClearDndDestinations { surface: ObjectId },
    /// Activate a surface with a token.
    Activate { surface: ObjectId, token: String },
    /// Ask for an activation token.
    RequestToken {
        app_id: Option<String>,
        seat_and_serial: Option<(ObjectId, u32)>,
        surface: Option<ObjectId>,
    },
    /// Give a surface the role of a layer surface.
    CreateLayerSurface {
        surface: ObjectId,
        layer: Layer,
        namespace: String,
        output: Option<ObjectId>,
    },
    SetAnchor { surface: ObjectId, anchor: Anchor },
    SetKeyboardInteractivity { surface: ObjectId, keyboard_interactivity: KeyboardInteractivity },
    SetMargin { surface: ObjectId, margin: IcedMargin },
    /// Set the size of a layer surface; zero leaves a dimension to the anchors.
    SetLayerSize { surface: ObjectId, width: u32, height: u32 },
    SetExclusiveZone { surface: ObjectId, exclusive_zone: i32 },
    SetLayer { surface: ObjectId, layer: Layer },
    DestroyLayerSurface { surface: ObjectId },
    /// Give a surface the role of a popup of `parent`. `adjustment` is the
    /// constraint adjustment to set, where the one asked for is a known one.
    CreatePopup {
        surface: ObjectId,
        parent: SctkSurface,
        positioner: SctkPositioner,
        adjustment: Option<u32>,
    },
    /// Let a popup grab the input of a seat.
    Grab { surface: ObjectId, seat: ObjectId, serial: u32 },
    /// Place a popup anew.
    Reposition { surface: ObjectId, positioner: SctkPositioner, token: u32 },
    DestroyPopup { surface: ObjectId },
    /// Lock the session.
    Lock,
    /// Unlock the session and destroy the lock.
    Unlock,
    /// Wait until the compositor has handled everything sent so far.
    Roundtrip,
    /// Give a surface the role of the lock surface of an output.
    CreateLockSurface { surface: ObjectId, output: ObjectId },
    DestroyLockSurface { surface: ObjectId },
    /// Set the shape of a pointer.
    SetCursor { pointer: ObjectId, icon: CursorIcon },
}

} // verus!
