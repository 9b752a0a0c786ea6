//! What the coordinator tells the user interface.

use crate::geometry::{LogicalSize, ScaleFactor};
use crate::input::{KeyboardEventVariant, PointerEvent, TouchEventVariant, WindowEvent};
use crate::seat::Capability;
use crate::shell::{
    LayerSurfaceConfigure, ObjectId, PopupConfigure, SessionLockSurfaceConfigure,
    WindowConfigure, WindowManagerCapabilities, WindowState,
};
use crate::surface::{Common, WpViewport};
use crate::window::Id;
use vstd::prelude::*;

verus! {

/// What happened to a window.
#[derive(Debug, Clone, Copy, PartialEq, Eq)]
pub enum WindowEventVariant {
    /// The window was created.
    Created(ObjectId, Id),
    /// The compositor asks the window to close, or the window was destroyed.
    Close,
    /// What the window manager can do has changed.
    WmCapabilities(WindowManagerCapabilities),
    /// The tiling or activation state has changed.
    StateChanged(WindowState),
    /// The compositor configured the window: the size it now has, what the
    /// compositor said, the surface, and whether this is the first time.
    Configure(LogicalSize, WindowConfigure, ObjectId, bool),
    /// The size was set by the user interface itself.
    Size(LogicalSize, ObjectId, bool),
}

/// What happened to a layer surface.
#[derive(Debug, Clone, Copy, PartialEq, Eq)]
pub enum LayerSurfaceEventVariant {
    /// The surface was created, under the given id.
    Created(ObjectId, Id, Common),
    /// The surface is gone.
    Done,
    /// The compositor configured the surface, or the user interface set its
    /// size after the compositor had; the last field says whether this is the
    /// first time.
    Configure(LayerSurfaceConfigure, ObjectId, bool),
}

/// What happened to a popup.
#[derive(Debug, Clone, Copy, PartialEq, Eq)]
pub enum PopupEventVariant {
    /// The popup was created.
    Created(ObjectId, Id, Common),
    /// The popup is gone.
    Done,
    /// The compositor configured the popup; the last field says whether this
    /// is the first time.
    Configure(PopupConfigure, ObjectId, bool),
    /// The popup was placed anew, in answer to the request with this token.
    RepositionionedPopup { token: u32 },
}

/// What happened to a seat.
#[derive(Debug, Clone, Copy, PartialEq, Eq, Structural)]
pub enum SeatEventVariant {
    New,
    Remove,
    NewCapability(Capability, ObjectId),
    RemoveCapability(Capability, ObjectId),
}

/// The globals that widgets need to embed surfaces of their own.
#[derive(Debug, Clone, Copy, PartialEq, Eq, Structural)]
pub struct SubsurfaceState {
    /// Whether buffers can be shared with the compositor directly.
    pub wp_dmabuf: bool,
    /// Whether a surface can be given an opacity.
    pub wp_alpha_modifier: bool,
}

/// One event for the user interface.
#[derive(Debug, Clone, PartialEq, Eq)]
pub enum SctkEvent {
    /// A seat came, went or changed.
    SeatEvent { variant: SeatEventVariant, id: ObjectId },
    /// A pointer moved.
    PointerEvent { variant: PointerEvent, ptr_id: ObjectId, seat_id: ObjectId },
    /// A keyboard did something.
    KeyboardEvent {
        variant: KeyboardEventVariant,
        kbd_id: ObjectId,
        seat_id: ObjectId,
        surface: ObjectId,
    },
    /// A finger did something.
    TouchEvent { variant: TouchEventVariant, touch_id: ObjectId, seat_id: ObjectId },
    /// Something the windowing layer is told of a surface.
    Winit(ObjectId, WindowEvent),
    WindowEvent { variant: WindowEventVariant, id: ObjectId },
    LayerSurfaceEvent { variant: LayerSurfaceEventVariant, id: ObjectId },
    PopupEvent {
        variant: PopupEventVariant,
        /// The window or layer surface at the root of the popup's parents.
        toplevel_id: ObjectId,
        /// The surface the popup is placed against.
        parent_id: ObjectId,
        /// The surface of the popup.
        id: ObjectId,
    },
    /// The scale of a surface changed.
    SurfaceScaleFactorChanged {
        scale: ScaleFactor,
        viewport: Option<WpViewport>,
        surface: ObjectId,
        id: Id,
    },
    /// An output came.
    NewOutput { id: ObjectId },
    /// An output went.
    RemovedOutput(ObjectId),
    /// The compositor has locked the session.
    SessionLocked,
    /// The compositor has ended the lock, or refused it.
    SessionLockFinished,
    /// A lock surface was created.
    SessionLockSurfaceCreated { surface: ObjectId, native_id: Id, common: Common },
    /// The compositor configured a lock surface.
    SessionLockSurfaceConfigure {
        surface: ObjectId,
        configure: SessionLockSurfaceConfigure,
        first: bool,
    },
    /// A lock surface is gone.
    SessionLockSurfaceDone { surface: ObjectId },
    /// The session is unlocked, and the compositor knows it.
    SessionUnlocked,
    /// An activation token was handed out.
    ActivationToken { token: Option<String> },
    /// Widgets can embed surfaces of their own.
    Subcompositor(SubsurfaceState),
    /// It is time to draw the next frame of a surface.
    Frame(ObjectId),
}

} // verus!
