//! Pointer frames: the border of a window that starts a resize, the shape of
//! the pointer, and what reaches the user interface.

use crate::input::{translate_pointer_event, pointer_window_event, PointerEvent, PointerEventKind, BTN_LEFT};
use crate::request::Request;
use crate::sctk_event::SctkEvent;
use crate::seat::{
    cursor_over, edge_at, resize_cursor, resize_edge, lemma_edge_classification, Capability,
    PointerPress, SctkSeat,
};
use crate::shell::{CursorIcon, ObjectId, ResizeEdge};
use crate::state::{SctkState, StateView};
use crate::surface::{index_of_surface, position_by_surface};
use vstd::prelude::*;

verus! {

/// The device of a seat that has the given capability.
pub open spec fn device_of(seat: SctkSeat, capability: Capability) -> Option<ObjectId> {
    match capability {
        Capability::Keyboard => seat.kbd,
        Capability::Pointer => seat.ptr,
        Capability::Touch => seat.touch,
    }
}

/// Whether `i` is the place of the first seat with the given device.
pub open spec fn first_with_device(
    seats: Seq<SctkSeat>,
    capability: Capability,
    device: ObjectId,
    i: int,
) -> bool {
    &&& 0 <= i < seats.len()
    &&& device_of(seats[i], capability) == Some(device)
    &&& forall|j: int| 0 <= j < i ==> device_of(#[trigger] seats[j], capability) != Some(device)
}

/// The place of the first seat with the given device, if there is one.
pub open spec fn seat_of_device(seats: Seq<SctkSeat>, capability: Capability, device: ObjectId) -> Option<
    int,
> {
    if exists|i: int| first_with_device(seats, capability, device, i) {
        Some(choose|i: int| first_with_device(seats, capability, device, i))
    } else {
        None
    }
}

/// Finds the first seat with the given device.
pub fn position_by_device(seats: &Vec<SctkSeat>, capability: Capability, device: ObjectId) -> (found:
    Option<usize>)
    ensures
        match found {
            Some(i) => seat_of_device(seats@, capability, device) == Some(i as int) && i
                < seats.len(),
            None => seat_of_device(seats@, capability, device) is None,
        },
{
    let mut i: usize = 0;
    while i < seats.len()
        invariant
            i <= seats.len(),
            forall|j: int|
                0 <= j < i ==> device_of(#[trigger] seats@[j], capability) != Some(device),
        decreases seats.len() - i,
    {
        let held: Option<ObjectId> = match capability {
            Capability::Keyboard => seats[i].kbd,
            Capability::Pointer => seats[i].ptr,
            Capability::Touch => seats[i].touch,
        };
        match held {
            Some(d) => {
                if d == device {
                    assert(first_with_device(seats@, capability, device, i as int));
                    return Some(i);
                }
            },
            None => {},
        }
        i += 1;
    }
    None
}

impl SctkSeat {
    /// The seat after it has been made to show `icon`, unless it shows it
    /// already.
    pub open spec fn showing(self, icon: CursorIcon) -> SctkSeat {
        if self.active_icon != Some(icon) {
            self.with_cursor(icon)
        } else {
            self
        }
    }

    /// `requests`, followed by what making the seat show `icon` asks of the
    /// compositor.
    pub open spec fn showing_requests(self, requests: Seq<Request>, icon: CursorIcon) -> Seq<
        Request,
    > {
        if self.active_icon != Some(icon) {
            requests + self.cursor_requests(icon)
        } else {
            requests
        }
    }

    /// The icon that the seat shows where no border of a window is under
    /// the pointer: the one the application asked for, or else the default.
    pub open spec fn own_icon(self) -> CursorIcon {
        match self.icon {
            Some(icon) => icon,
            None => CursorIcon::Default,
        }
    }

    /// The seat after it has gone back to the icon of the application,
    /// unless it shows what the application asked for already.
    pub open spec fn restored(self) -> SctkSeat {
        if self.active_icon != self.icon {
            self.with_cursor(self.own_icon())
        } else {
            self
        }
    }

    /// `requests`, followed by what going back to the icon of the
    /// application asks of the compositor.
    pub open spec fn restored_requests(self, requests: Seq<Request>) -> Seq<Request> {
        if self.active_icon != self.icon {
            requests + self.cursor_requests(self.own_icon())
        } else {
            requests
        }
    }

    /// The seat after it has taken note of a pointer event: the surface the
    /// pointer is over, and the last press of a button. When the pointer
    /// leaves, no icon is shown any more.
    pub open spec fn noting(self, event: PointerEvent) -> SctkSeat {
        match event.kind {
            PointerEventKind::Enter { .. } => SctkSeat { ptr_focus: Some(event.surface), ..self },
            PointerEventKind::Leave { .. } => SctkSeat {
                ptr_focus: None,
                active_icon: None,
                ..self
            },
            PointerEventKind::Press { time, button, serial } => SctkSeat {
                last_ptr_press: Some(PointerPress { time, button, serial }),
                ..self
            },
            _ => self,
        }
    }

    /// Makes the seat show `icon`, unless it shows it already.
    pub fn show(&mut self, icon: CursorIcon, requests: &mut Vec<Request>)
        ensures
            *final(self) == old(self).showing(icon),
            final(requests)@ == old(self).showing_requests(old(requests)@, icon),
    {
        let shown: bool = match self.active_icon {
            Some(active) => active == icon,
            None => false,
        };
        if !shown {
            self.set_cursor(icon, requests);
        }
    }

    /// Goes back to the icon the application asked for, or to the default,
    /// unless the seat shows what the application asked for already.
    pub fn restore(&mut self, requests: &mut Vec<Request>)
        ensures
            *final(self) == old(self).restored(),
            final(requests)@ == old(self).restored_requests(old(requests)@),
    {
        let same: bool = match (self.active_icon, self.icon) {
            (Some(a), Some(b)) => a == b,
            (None, None) => true,
            _ => false,
        };
        if !same {
            let icon: CursorIcon = match self.icon {
                Some(icon) => icon,
                None => CursorIcon::Default,
            };
            self.set_cursor(icon, requests);
        }
    }

    /// Takes note of a pointer event.
    pub fn note(&mut self, event: PointerEvent)
        ensures
            *final(self) == old(self).noting(event),
    {
        match event.kind {
            PointerEventKind::Enter { .. } => {
                self.ptr_focus = Some(event.surface);
            },
            PointerEventKind::Leave { .. } => {
                self.ptr_focus = None;
                self.active_icon = None;
            },
            PointerEventKind::Press { time, button, serial } => {
                self.last_ptr_press = Some(PointerPress { time, button, serial });
            },
            _ => {},
        }
    }
}

/// What the user interface is told of a pointer event: a motion as the
/// pointer event itself, everything else as a window event of the surface.
pub open spec fn pointer_told(event: PointerEvent, pointer: ObjectId, seat: ObjectId) -> SctkEvent {
    match event.kind {
        PointerEventKind::Motion { .. } => SctkEvent::PointerEvent {
            variant: event,
            ptr_id: pointer,
            seat_id: seat,
        },
        _ => SctkEvent::Winit(event.surface, pointer_window_event(event)),
    }
}

/// Whether an event is the press of the left button.
pub open spec fn is_left_press(event: PointerEvent) -> bool {
    event.kind matches PointerEventKind::Press { button, .. } && button == BTN_LEFT
}

/// Whether an event is a motion.
pub open spec fn is_motion(event: PointerEvent) -> bool {
    event.kind is Motion
}

impl StateView {
    /// The edge of a resizable window that the pointer is over, together
    /// with the place of the window.
    pub open spec fn border_hit(self, event: PointerEvent) -> Option<(ResizeEdge, int)> {
        match index_of_surface(self.windows, event.surface) {
            Some(i) => match self.windows[i].resizable {
                Some(border) => match edge_at(
                    self.windows[i].current_size,
                    border,
                    event.position,
                ) {
                    Some(edge) => Some((edge, i)),
                    None => None,
                },
                None => None,
            },
            None => None,
        }
    }

    /// Whether an event is taken by the border of a window, so that the
    /// user interface is not told of it and the rest of the frame is dropped:
    /// a press of the left button or a motion over the border.
    pub open spec fn taken_by_border(self, event: PointerEvent) -> bool {
        self.border_hit(event) is Some && (is_left_press(event) || is_motion(event))
    }

    /// The state after one event of the pointer of the seat at `s`.
    ///
    /// Over the border of a resizable window the press of the left button
    /// starts a resize and a motion only shows the arrow of the edge; the
    /// user interface is told of neither. Any other event over the border
    /// shows the arrow too; away from the border the icon of the application
    /// comes back. The user interface is told of the event where the seat is
    /// the active one, and the seat takes note of it.
    pub open spec fn pointer_event(self, s: int, pointer: ObjectId, event: PointerEvent) -> StateView {
        let seat = self.seats[s];
        match self.border_hit(event) {
            Some((edge, w)) => {
                if is_left_press(event) {
                    StateView {
                        seats: self.seats.update(s, seat.noting(event)),
                        requests: self.requests.push(
                            Request::Resize {
                                surface: self.windows[w].window,
                                seat: seat.seat,
                                serial: event.kind->Press_serial,
                                edge,
                            },
                        ),
                        ..self
                    }
                } else if is_motion(event) {
                    StateView {
                        seats: self.seats.update(s, seat.showing(cursor_over(edge))),
                        requests: seat.showing_requests(self.requests, cursor_over(edge)),
                        ..self
                    }
                } else {
                    StateView {
                        seats: self.seats.update(s, seat.showing(cursor_over(edge)).noting(event)),
                        requests: seat.showing_requests(self.requests, cursor_over(edge)),
                        sctk_events: if s == 0 {
                            self.sctk_events.push(pointer_told(event, pointer, seat.seat))
                        } else {
                            self.sctk_events
                        },
                        ..self
                    }
                }
            },
            None => StateView {
                seats: self.seats.update(s, seat.restored().noting(event)),
                requests: seat.restored_requests(self.requests),
                sctk_events: if s == 0 {
                    self.sctk_events.push(pointer_told(event, pointer, seat.seat))
                } else {
                    self.sctk_events
                },
                ..self
            },
        }
    }

    /// The state after the events of a frame from the `k`th on, up to and
    /// with the first that is taken by the border of a window.
    pub open spec fn pointer_events(
        self,
        s: int,
        pointer: ObjectId,
        events: Seq<PointerEvent>,
        k: int,
    ) -> StateView
        decreases events.len() - k,
    {
        if 0 <= k < events.len() {
            if self.taken_by_border(events[k]) {
                self.pointer_event(s, pointer, events[k])
            } else {
                self.pointer_event(s, pointer, events[k]).pointer_events(
                    s,
                    pointer,
                    events,
                    k + 1,
                )
            }
        } else {
            self
        }
    }

    /// The state after a frame of pointer events. A frame of a pointer that
    /// no seat has changes nothing.
    pub open spec fn pointer_frame(self, pointer: ObjectId, events: Seq<PointerEvent>) -> StateView {
        match seat_of_device(self.seats, Capability::Pointer, pointer) {
            Some(s) => self.pointer_events(s, pointer, events, 0),
            None => self,
        }
    }
}

impl SctkState {
    /// Finds the edge of a resizable window that the pointer is over.
    pub fn border_hit(&self, event: PointerEvent) -> (hit: Option<(ResizeEdge, usize)>)
        ensures
            match hit {
                Some((edge, w)) => self@.border_hit(event) == Some((edge, w as int)) && w
                    < self.windows.len() && edge != ResizeEdge::Interior,
                None => self@.border_hit(event) is None,
            },
    {
        match position_by_surface(&self.windows, event.surface) {
            Some(i) => match self.windows[i].resizable {
                Some(border) => {
                    proof {
                        lemma_edge_classification(
                            self.windows[i as int].current_size,
                            border,
                            event.position,
                        );
                    }
                    match resize_edge(self.windows[i].current_size, border, event.position) {
                        Some(edge) => Some((edge, i)),
                        None => None,
                    }
                },
                None => None,
            },
            None => None,
        }
    }

    /// Handles one event of the pointer of the seat at `s`, and says whether
    /// the border of a window took it.
    fn pointer_event(&mut self, s: usize, pointer: ObjectId, event: PointerEvent) -> (taken: bool)
        requires
            s < old(self).seats.len(),
        ensures
            final(self)@ == old(self)@.pointer_event(s as int, pointer, event),
            taken == old(self)@.taken_by_border(event),
            final(self).seats.len() == old(self).seats.len(),
    {
        let seat_id = self.seats[s].seat;
        match self.border_hit(event) {
            Some((edge, w)) => {
                let icon = resize_cursor(edge);
                match event.kind {
                    PointerEventKind::Press { time, button, serial } => {
                        if button == BTN_LEFT {
                            self.seats[s].note(event);
                            self.requests.push(
                                Request::Resize {
                                    surface: self.windows[w].window,
                                    seat: seat_id,
                                    serial,
                                    edge,
                                },
                            );
                            return true;
                        }
                    },
                    PointerEventKind::Motion { .. } => {
                        self.seats[s].show(icon, &mut self.requests);
                        return true;
                    },
                    _ => {},
                }
                self.seats[s].show(icon, &mut self.requests);
            },
            None => {
                self.seats[s].restore(&mut self.requests);
            },
        }
        if s == 0 {
            match event.kind {
                PointerEventKind::Motion { .. } => {
                    self.sctk_events.push(
                        SctkEvent::PointerEvent {
                            variant: event,
                            ptr_id: pointer,
                            seat_id,
                        },
                    );
                },
                _ => {
                    self.sctk_events.push(
                        SctkEvent::Winit(event.surface, translate_pointer_event(event)),
                    );
                },
            }
        }
        self.seats[s].note(event);
        false
    }

    /// Handles a frame of pointer events.
    ///
    /// The events are taken one after the other. Over the border of a
    /// resizable window the press of the left button starts a resize of the
    /// edge under the pointer, and a motion shows the arrow of that edge:
    /// the user interface is told of neither, and the rest of the frame is
    /// dropped. Of every other event the user interface is told where the
    /// pointer belongs to the active seat; the other seats only take note of
    /// where their pointer is and of their last press. A frame of a pointer
    /// that no seat has is ignored.
    pub fn pointer_frame(&mut self, pointer: ObjectId, events: &[PointerEvent])
        ensures
            final(self)@ == old(self)@.pointer_frame(pointer, events@),
            old(self)@.wf() ==> final(self)@.wf(),
    {
        proof {
            if self@.wf() {
                crate::wellformed::lemma_pointer_frame_wf(self@, pointer, events@);
            }
        }
        let s = match position_by_device(&self.seats, Capability::Pointer, pointer) {
            Some(s) => s,
            None => {
                return ;
            },
        };
        let mut k: usize = 0;
        while k < events.len()
            invariant
                k <= events.len(),
                s < self.seats.len(),
                seat_of_device(old(self)@.seats, Capability::Pointer, pointer) == Some(s as int),
                old(self)@.wf() ==> old(self)@.pointer_frame(pointer, events@).wf(),
                old(self)@.pointer_events(s as int, pointer, events@, 0) == self@.pointer_events(
                    s as int,
                    pointer,
                    events@,
                    k as int,
                ),
            decreases events.len() - k,
        {
            let ghost before = self@;
            let taken = self.pointer_event(s, pointer, events[k]);
            assert(before.pointer_events(s as int, pointer, events@, k as int) == if taken {
                self@
            } else {
                self@.pointer_events(s as int, pointer, events@, k + 1)
            });
            if taken {
                return ;
            }
            k += 1;
        }
    }
}

} // verus!
