//! The events of the shell as the widgets see them.

use crate::geometry::{Fixed, Vector};
use crate::shell::{ObjectId, WindowConfigure, WindowManagerCapabilities, WindowState};
use crate::window::Id;
use vstd::prelude::*;

verus! {

/// Window events.
#[derive(Debug, Clone, Copy, PartialEq, Eq)]
pub enum WindowEvent {
    /// Window manager capabilities.
    WmCapabilities(WindowManagerCapabilities),
    /// Window state.
    State(WindowState),
    /// Window configure event.
    Configure(WindowConfigure),
}

/// Layer surface events.
#[derive(Debug, Clone, Copy, PartialEq, Eq, Structural)]
pub enum LayerEvent {
    /// The surface has keyboard focus.
    Focused,
    /// The surface is gone.
    Done,
    /// The surface lost keyboard focus.
    Unfocused,
}

/// Popup events.
#[derive(Debug, Clone, Copy, PartialEq, Eq, Structural)]
pub enum PopupEvent {
    /// The popup is gone.
    Done,
    /// The popup was configured.
    Configured { x: i32, y: i32, width: u32, height: u32 },
    /// The popup has keyboard focus.
    Focused,
    /// The popup lost keyboard focus.
    Unfocused,
    /// The popup was placed anew, in answer to the request with this token.
    Repositioned { token: u32 },
}

/// Output events.
#[derive(Debug, Clone, Copy, PartialEq, Eq, Structural)]
pub enum OutputEvent {
    Created,
    Removed,
}

/// Seat events.
#[derive(Debug, Clone, Copy, PartialEq, Eq, Structural)]
pub enum SeatEvent {
    Enter,
    Leave,
}

/// Session lock events.
#[derive(Debug, Clone, Copy, PartialEq, Eq, Structural)]
pub enum SessionLockEvent {
    Locked,
    Finished,
    Unlocked,
}

/// Events of a drag over a surface.
#[derive(Debug, Clone, PartialEq, Eq)]
pub enum DndOfferEvent {
    /// The drag entered the surface, at the given place.
    Enter { x: Fixed, y: Fixed, mime_types: Vec<String> },
    /// The drag moved to the given place.
    Motion { x: Fixed, y: Fixed },
    /// The drag left the surface.
    Leave,
    /// The drag was dropped.
    DropPerformed,
}

/// Wayland events.
#[derive(Debug, Clone, PartialEq, Eq)]
pub enum Event {
    /// Layer surface event.
    Layer(LayerEvent, ObjectId, Id),
    /// Popup event.
    Popup(PopupEvent, ObjectId, Id),
    /// Output event.
    Output(OutputEvent, ObjectId),
    /// Window event.
    Window(WindowEvent, ObjectId, Id),
    /// Seat event.
    Seat(SeatEvent, ObjectId),
    /// Drag events.
    DndOffer(DndOfferEvent),
    /// Session lock events.
    SessionLock(SessionLockEvent),
    /// Frame events.
    Frame(ObjectId, Id),
}

impl Event {
    /// The event after the place it speaks of has been moved by `vector`.
    /// Only a drag that enters or moves speaks of a place. A place that
    /// would leave the range of coordinates stays at its end.
    pub open spec fn translated(self, vector: Vector) -> Event {
        match self {
            Event::DndOffer(DndOfferEvent::Enter { x, y, mime_types }) => Event::DndOffer(
                DndOfferEvent::Enter {
                    x: Fixed(crate::geometry::clamp_to_i32(x.0 + vector.x.0) as i32),
                    y: Fixed(crate::geometry::clamp_to_i32(y.0 + vector.y.0) as i32),
                    mime_types,
                },
            ),
            Event::DndOffer(DndOfferEvent::Motion { x, y }) => Event::DndOffer(
                DndOfferEvent::Motion {
                    x: Fixed(crate::geometry::clamp_to_i32(x.0 + vector.x.0) as i32),
                    y: Fixed(crate::geometry::clamp_to_i32(y.0 + vector.y.0) as i32),
                },
            ),
            _ => self,
        }
    }

    /// Translate the event by some vector.
    pub fn translate(&mut self, vector: Vector)
        ensures
            *final(self) == old(self).translated(vector),
    {
        match self {
            Event::DndOffer(DndOfferEvent::Enter { x, y, .. }) => {
                *x = x.saturating_add(vector.x);
                *y = y.saturating_add(vector.y);
            },
            Event::DndOffer(DndOfferEvent::Motion { x, y }) => {
                *x = x.saturating_add(vector.x);
                *y = y.saturating_add(vector.y);
            },
            _ => {},
        }
    }
}

} // verus!
