//! Seats and outputs as they come and go, and the input of keyboards and
//! touch screens.

use crate::handlers::Role;
use crate::input::{KeyboardEventVariant, TouchEventVariant};
use crate::pointer::{position_by_device, seat_of_device};
use crate::sctk_event::{SctkEvent, SeatEventVariant};
use crate::seat::{Capability, KeyPress, SctkSeat, TouchDown};
use crate::shell::{CursorIcon, ObjectId};
use crate::state::{SctkState, StateView, TouchPoint};
use crate::surface::{Common, SctkLayerSurface, SctkLockSurface, SctkPopup};
use crate::table::{inserted, removed, value_of};
use vstd::prelude::*;

verus! {

/// Whether `i` is the place of the first seat with the given name.
pub open spec fn first_seat(seats: Seq<SctkSeat>, seat: ObjectId, i: int) -> bool {
    &&& 0 <= i < seats.len()
    &&& seats[i].seat == seat
    &&& forall|j: int| 0 <= j < i ==> (#[trigger] seats[j]).seat != seat
}

/// The place of the first seat with the given name, if there is one.
pub open spec fn index_of_seat(seats: Seq<SctkSeat>, seat: ObjectId) -> Option<int> {
    if exists|i: int| first_seat(seats, seat, i) {
        Some(choose|i: int| first_seat(seats, seat, i))
    } else {
        None
    }
}

/// Finds the first seat with the given name.
pub fn position_of_seat(seats: &Vec<SctkSeat>, seat: ObjectId) -> (found: Option<usize>)
    ensures
        match found {
            Some(i) => index_of_seat(seats@, seat) == Some(i as int) && i < seats.len(),
            None => index_of_seat(seats@, seat) is None,
        },
{
    let mut i: usize = 0;
    while i < seats.len()
        invariant
            i <= seats.len(),
            forall|j: int| 0 <= j < i ==> (#[trigger] seats@[j]).seat != seat,
        decreases seats.len() - i,
    {
        if seats[i].seat == seat {
            assert(first_seat(seats@, seat, i as int));
            return Some(i);
        }
        i += 1;
    }
    None
}

/// Whether `i` is the first place of `output`.
pub open spec fn first_output(outputs: Seq<ObjectId>, output: ObjectId, i: int) -> bool {
    &&& 0 <= i < outputs.len()
    &&& outputs[i] == output
    &&& forall|j: int| 0 <= j < i ==> outputs[j] != output
}

/// The first place of `output`, if it is there.
pub open spec fn index_of_output(outputs: Seq<ObjectId>, output: ObjectId) -> Option<int> {
    if exists|i: int| first_output(outputs, output, i) {
        Some(choose|i: int| first_output(outputs, output, i))
    } else {
        None
    }
}

/// Finds the first place of `output`.
pub fn position_of_output(outputs: &Vec<ObjectId>, output: ObjectId) -> (found: Option<usize>)
    ensures
        match found {
            Some(i) => index_of_output(outputs@, output) == Some(i as int) && i < outputs.len(),
            None => index_of_output(outputs@, output) is None,
        },
{
    let mut i: usize = 0;
    while i < outputs.len()
        invariant
            i <= outputs.len(),
            forall|j: int| 0 <= j < i ==> outputs@[j] != output,
        decreases outputs.len() - i,
    {
        if outputs[i] == output {
            assert(first_output(outputs@, output, i as int));
            return Some(i);
        }
        i += 1;
    }
    None
}

/// The key under which a finger is filed.
pub open spec fn finger_key(id: i32) -> u64 {
    (id + 0x8000_0000) as u64
}

/// The key under which a finger is filed.
pub fn key_of_finger(id: i32) -> (key: u64)
    ensures
        key == finger_key(id),
{
    (id as i64 + 0x8000_0000) as u64
}

impl SctkSeat {
    /// The seat after it has got a device.
    pub open spec fn with_device(self, capability: Capability, device: ObjectId) -> SctkSeat {
        match capability {
            Capability::Keyboard => SctkSeat { kbd: Some(device), ..self },
            Capability::Pointer => SctkSeat { ptr: Some(device), ..self },
            Capability::Touch => SctkSeat { touch: Some(device), ..self },
        }
    }

    /// The seat after it has lost a device: what the device was over goes
    /// with it.
    pub open spec fn without_device(self, capability: Capability) -> SctkSeat {
        match capability {
            Capability::Keyboard => SctkSeat { kbd: None, kbd_focus: None, ..self },
            Capability::Pointer => SctkSeat {
                ptr: None,
                ptr_focus: None,
                active_icon: None,
                ..self
            },
            Capability::Touch => SctkSeat { touch: None, ..self },
        }
    }

    /// The seat after its keyboard has done something.
    pub open spec fn typing(self, variant: KeyboardEventVariant, serial: u32) -> SctkSeat {
        match variant {
            KeyboardEventVariant::Enter(surface) => SctkSeat { kbd_focus: Some(surface), ..self },
            KeyboardEventVariant::Leave(_) => SctkSeat { kbd_focus: None, ..self },
            KeyboardEventVariant::Press(event) => SctkSeat {
                last_kbd_press: Some(KeyPress { event, serial }),
                ..self
            },
            KeyboardEventVariant::Release(_) => self,
            KeyboardEventVariant::Modifiers(modifiers) => SctkSeat { modifiers, ..self },
        }
    }

    /// Whether the seat shows an icon other than the one the application
    /// asked for: the arrow of a window border.
    pub open spec fn overridden(self) -> bool {
        match self.active_icon {
            Some(active) => active != match self.icon {
                Some(icon) => icon,
                None => CursorIcon::Default,
            },
            None => false,
        }
    }

    /// Whether the seat shows the arrow of a window border.
    pub fn is_overridden(&self) -> (overridden: bool)
        ensures
            overridden == self.overridden(),
    {
        match self.active_icon {
            Some(active) => {
                let own: CursorIcon = match self.icon {
                    Some(icon) => icon,
                    None => CursorIcon::Default,
                };
                active != own
            },
            None => false,
        }
    }

    /// Takes note of what the keyboard has done.
    pub fn type_key(self, variant: KeyboardEventVariant, serial: u32) -> (seat: SctkSeat)
        ensures
            seat == self.typing(variant, serial),
    {
        match variant {
            KeyboardEventVariant::Enter(surface) => SctkSeat { kbd_focus: Some(surface), ..self },
            KeyboardEventVariant::Leave(_) => SctkSeat { kbd_focus: None, ..self },
            KeyboardEventVariant::Press(event) => SctkSeat {
                last_kbd_press: Some(KeyPress { event, serial }),
                ..self
            },
            KeyboardEventVariant::Release(_) => self,
            KeyboardEventVariant::Modifiers(modifiers) => SctkSeat { modifiers, ..self },
        }
    }

    /// The surface that an event of the keyboard is about: the one entered
    /// or left, or else the one that has the focus.
    pub open spec fn typing_on(self, variant: KeyboardEventVariant) -> Option<ObjectId> {
        match variant {
            KeyboardEventVariant::Enter(surface) => Some(surface),
            KeyboardEventVariant::Leave(surface) => Some(surface),
            _ => self.kbd_focus,
        }
    }
}

impl StateView {
    /// The state after a seat has come. A seat that is there already is not
    /// taken a second time.
    pub open spec fn new_seat(self, seat: ObjectId) -> StateView {
        if index_of_seat(self.seats, seat) is None {
            StateView {
                seats: self.seats.push(SctkSeat::bare(seat)),
                sctk_events: self.sctk_events.push(
                    SctkEvent::SeatEvent { variant: SeatEventVariant::New, id: seat },
                ),
                ..self
            }
        } else {
            self
        }
    }

    /// The state after a seat has gone. The seat that stood after the
    /// active one becomes the active one when that goes.
    pub open spec fn remove_seat(self, seat: ObjectId) -> StateView {
        match index_of_seat(self.seats, seat) {
            Some(i) => StateView {
                seats: self.seats.remove(i),
                sctk_events: self.sctk_events.push(
                    SctkEvent::SeatEvent { variant: SeatEventVariant::Remove, id: seat },
                ),
                ..self
            },
            None => self,
        }
    }

    /// The state after a seat has got a device.
    pub open spec fn new_capability(
        self,
        seat: ObjectId,
        capability: Capability,
        device: ObjectId,
    ) -> StateView {
        match index_of_seat(self.seats, seat) {
            Some(i) => StateView {
                seats: self.seats.update(i, self.seats[i].with_device(capability, device)),
                sctk_events: self.sctk_events.push(
                    SctkEvent::SeatEvent {
                        variant: SeatEventVariant::NewCapability(capability, device),
                        id: seat,
                    },
                ),
                ..self
            },
            None => self,
        }
    }

    /// The state after a seat has lost a device. A device that the seat does
    /// not have changes nothing.
    pub open spec fn remove_capability(self, seat: ObjectId, capability: Capability) -> StateView {
        match index_of_seat(self.seats, seat) {
            Some(i) => match crate::pointer::device_of(self.seats[i], capability) {
                Some(device) => StateView {
                    seats: self.seats.update(i, self.seats[i].without_device(capability)),
                    sctk_events: self.sctk_events.push(
                        SctkEvent::SeatEvent {
                            variant: SeatEventVariant::RemoveCapability(capability, device),
                            id: seat,
                        },
                    ),
                    ..self
                },
                None => self,
            },
            None => self,
        }
    }

    /// The state after an output has come.
    pub open spec fn new_output(self, output: ObjectId) -> StateView {
        if index_of_output(self.outputs, output) is None {
            StateView {
                outputs: self.outputs.push(output),
                sctk_events: self.sctk_events.push(SctkEvent::NewOutput { id: output }),
                ..self
            }
        } else {
            self
        }
    }

    /// The state after an output has gone.
    pub open spec fn remove_output(self, output: ObjectId) -> StateView {
        match index_of_output(self.outputs, output) {
            Some(i) => StateView {
                outputs: self.outputs.remove(i),
                sctk_events: self.sctk_events.push(SctkEvent::RemovedOutput(output)),
                ..self
            },
            None => self,
        }
    }

    /// The state after the focus of a surface has been noted in what the
    /// user interface reads of it.
    pub open spec fn focused(self, surface: ObjectId, has_focus: bool) -> StateView {
        match self.role_of(surface) {
            Some(Role::Popup(i)) => {
                let p = self.popups[i as int];
                StateView {
                    popups: self.popups.update(
                        i as int,
                        SctkPopup { common: Common { has_focus, ..p.common }, ..p },
                    ),
                    ..self
                }
            },
            Some(Role::LayerSurface(i)) => {
                let l = self.layer_surfaces[i as int];
                StateView {
                    layer_surfaces: self.layer_surfaces.update(
                        i as int,
                        SctkLayerSurface { common: Common { has_focus, ..l.common }, ..l },
                    ),
                    ..self
                }
            },
            Some(Role::LockSurface(i)) => {
                let l = self.lock_surfaces[i as int];
                StateView {
                    lock_surfaces: self.lock_surfaces.update(
                        i as int,
                        SctkLockSurface { common: Common { has_focus, ..l.common }, ..l },
                    ),
                    ..self
                }
            },
            _ => self,
        }
    }

    /// The state after a change of focus, if the event is one.
    pub open spec fn refocused(self, variant: KeyboardEventVariant) -> StateView {
        match variant {
            KeyboardEventVariant::Enter(surface) => self.focused(surface, true),
            KeyboardEventVariant::Leave(surface) => self.focused(surface, false),
            _ => self,
        }
    }

    /// The state after a keyboard has done something. The seat takes note;
    /// the user interface is told where the keyboard belongs to the active
    /// seat and the event is about a surface. An event of a keyboard that no
    /// seat has changes nothing.
    pub open spec fn keyboard_event(
        self,
        keyboard: ObjectId,
        variant: KeyboardEventVariant,
        serial: u32,
    ) -> StateView {
        match seat_of_device(self.seats, Capability::Keyboard, keyboard) {
            Some(s) => {
                let seat = self.seats[s];
                StateView {
                    seats: self.seats.update(s, seat.typing(variant, serial)),
                    sctk_events: match seat.typing_on(variant) {
                        Some(surface) => if s == 0 {
                            self.sctk_events.push(
                                SctkEvent::KeyboardEvent {
                                    variant,
                                    kbd_id: keyboard,
                                    seat_id: seat.seat,
                                    surface,
                                },
                            )
                        } else {
                            self.sctk_events
                        },
                        None => self.sctk_events,
                    },
                    ..self.refocused(variant)
                }
            },
            None => self,
        }
    }

    /// Where the fingers are after a touch screen has done something.
    pub open spec fn touched(self, variant: TouchEventVariant) -> Seq<(u64, TouchPoint)> {
        match variant {
            TouchEventVariant::Down { surface, id, position, .. } => inserted(
                self.touch_points,
                finger_key(id),
                TouchPoint { surface, position },
            ),
            TouchEventVariant::Up { id, .. } => removed(self.touch_points, finger_key(id)),
            TouchEventVariant::Motion { id, position, .. } => match value_of(
                self.touch_points,
                finger_key(id),
            ) {
                Some(point) => inserted(
                    self.touch_points,
                    finger_key(id),
                    TouchPoint { surface: point.surface, position },
                ),
                None => self.touch_points,
            },
            TouchEventVariant::Cancel => Seq::empty(),
        }
    }

    /// The state after a touch screen has done something. The seat takes
    /// note of where a touch began; the user interface is told where the
    /// touch screen belongs to the active seat. An event of a touch screen
    /// that no seat has changes nothing.
    pub open spec fn touch_event(self, touch: ObjectId, variant: TouchEventVariant) -> StateView {
        match seat_of_device(self.seats, Capability::Touch, touch) {
            Some(s) => {
                let seat = self.seats[s];
                StateView {
                    seats: match variant {
                        TouchEventVariant::Down { serial, time, id, .. } => self.seats.update(
                            s,
                            SctkSeat {
                                last_touch_down: Some(TouchDown { time, id, serial }),
                                ..seat
                            },
                        ),
                        _ => self.seats,
                    },
                    touch_points: self.touched(variant),
                    sctk_events: if s == 0 {
                        self.sctk_events.push(
                            SctkEvent::TouchEvent {
                                variant,
                                touch_id: touch,
                                seat_id: seat.seat,
                            },
                        )
                    } else {
                        self.sctk_events
                    },
                    ..self
                }
            },
            None => self,
        }
    }

    /// The state after the application has asked for a cursor icon: every
    /// seat remembers it, and the active seat shows it at once, unless the
    /// arrow of a window border is showing.
    pub open spec fn set_cursor(self, icon: CursorIcon) -> StateView {
        if self.seats.len() > 0 {
            StateView {
                seats: Seq::new(
                    self.seats.len(),
                    |i: int|
                        if i == 0 && !self.seats[0].overridden() {
                            SctkSeat { icon: Some(icon), ..self.seats[i] }.with_cursor(icon)
                        } else {
                            SctkSeat { icon: Some(icon), ..self.seats[i] }
                        },
                ),
                requests: if self.seats[0].overridden() {
                    self.requests
                } else {
                    self.requests + self.seats[0].cursor_requests(icon)
                },
                ..self
            }
        } else {
            self
        }
    }
}

impl SctkState {
    /// Takes in a seat that the compositor has announced. It stands after
    /// the seats that are there already: the first seat is the active one.
    pub fn new_seat(&mut self, seat: ObjectId)
        ensures
            final(self)@ == old(self)@.new_seat(seat),
            old(self)@.wf() ==> final(self)@.wf(),
    {
        proof {
            if self@.wf() {
                crate::wellformed::lemma_devices_wf(self@, seat, Capability::Pointer, seat, CursorIcon::Default);
            }
        }
        if position_of_seat(&self.seats, seat).is_none() {
            self.seats.push(SctkSeat::new(seat));
            self.sctk_events.push(
                SctkEvent::SeatEvent { variant: SeatEventVariant::New, id: seat },
            );
        }
    }

    /// Drops a seat that the compositor has withdrawn. An unknown seat is
    /// ignored.
    pub fn remove_seat(&mut self, seat: ObjectId)
        ensures
            final(self)@ == old(self)@.remove_seat(seat),
            old(self)@.wf() ==> final(self)@.wf(),
    {
        proof {
            if self@.wf() {
                crate::wellformed::lemma_devices_wf(self@, seat, Capability::Pointer, seat, CursorIcon::Default);
            }
        }
        match position_of_seat(&self.seats, seat) {
            Some(i) => {
                let _ = self.seats.remove(i);
                self.sctk_events.push(
                    SctkEvent::SeatEvent { variant: SeatEventVariant::Remove, id: seat },
                );
            },
            None => {},
        }
    }

    /// Takes in a device of a seat. An unknown seat is ignored.
    pub fn new_capability(&mut self, seat: ObjectId, capability: Capability, device: ObjectId)
        ensures
            final(self)@ == old(self)@.new_capability(seat, capability, device),
            old(self)@.wf() ==> final(self)@.wf(),
    {
        proof {
            if self@.wf() {
                crate::wellformed::lemma_devices_wf(self@, seat, capability, device, CursorIcon::Default);
            }
        }
        match position_of_seat(&self.seats, seat) {
            Some(i) => {
                match capability {
                    Capability::Keyboard => {
                        self.seats[i].kbd = Some(device);
                    },
                    Capability::Pointer => {
                        self.seats[i].ptr = Some(device);
                    },
                    Capability::Touch => {
                        self.seats[i].touch = Some(device);
                    },
                }
                self.sctk_events.push(
                    SctkEvent::SeatEvent {
                        variant: SeatEventVariant::NewCapability(capability, device),
                        id: seat,
                    },
                );
            },
            None => {},
        }
    }

    /// Drops a device of a seat, and with it what the device was over. An
    /// unknown seat is ignored, and so is a device that the seat does not
    /// have.
    pub fn remove_capability(&mut self, seat: ObjectId, capability: Capability)
        ensures
            final(self)@ == old(self)@.remove_capability(seat, capability),
            old(self)@.wf() ==> final(self)@.wf(),
    {
        proof {
            if self@.wf() {
                crate::wellformed::lemma_devices_wf(self@, seat, capability, seat, CursorIcon::Default);
            }
        }
        match position_of_seat(&self.seats, seat) {
            Some(i) => {
                let held: Option<ObjectId> = match capability {
                    Capability::Keyboard => self.seats[i].kbd,
                    Capability::Pointer => self.seats[i].ptr,
                    Capability::Touch => self.seats[i].touch,
                };
                match held {
                    Some(device) => {
                        match capability {
                            Capability::Keyboard => {
                                self.seats[i].kbd = None;
                                self.seats[i].kbd_focus = None;
                            },
                            Capability::Pointer => {
                                self.seats[i].ptr = None;
                                self.seats[i].ptr_focus = None;
                                self.seats[i].active_icon = None;
                            },
                            Capability::Touch => {
                                self.seats[i].touch = None;
                            },
                        }
                        self.sctk_events.push(
                            SctkEvent::SeatEvent {
                                variant: SeatEventVariant::RemoveCapability(capability, device),
                                id: seat,
                            },
                        );
                    },
                    None => {},
                }
            },
            None => {},
        }
        assert(self@ =~= old(self)@.remove_capability(seat, capability));
    }

    /// Takes in an output that the compositor has announced.
    pub fn new_output(&mut self, output: ObjectId)
        ensures
            final(self)@ == old(self)@.new_output(output),
            old(self)@.wf() ==> final(self)@.wf(),
    {
        proof {
            if self@.wf() {
                crate::wellformed::lemma_devices_wf(self@, output, Capability::Pointer, output, CursorIcon::Default);
            }
        }
        if position_of_output(&self.outputs, output).is_none() {
            self.outputs.push(output);
            self.sctk_events.push(SctkEvent::NewOutput { id: output });
        }
    }

    /// Drops an output that the compositor has withdrawn.
    pub fn remove_output(&mut self, output: ObjectId)
        ensures
            final(self)@ == old(self)@.remove_output(output),
            old(self)@.wf() ==> final(self)@.wf(),
    {
        proof {
            if self@.wf() {
                crate::wellformed::lemma_devices_wf(self@, output, Capability::Pointer, output, CursorIcon::Default);
            }
        }
        match position_of_output(&self.outputs, output) {
            Some(i) => {
                let _ = self.outputs.remove(i);
                self.sctk_events.push(SctkEvent::RemovedOutput(output));
            },
            None => {},
        }
    }

    /// Notes the focus of a surface in what the user interface reads of it.
    fn focus(&mut self, surface: ObjectId, has_focus: bool)
        ensures
            final(self)@ == old(self)@.focused(surface, has_focus),
    {
        match self.find_surface(surface) {
            Some(Role::Popup(i)) => {
                self.popups[i].common.has_focus = has_focus;
            },
            Some(Role::LayerSurface(i)) => {
                self.layer_surfaces[i].common.has_focus = has_focus;
            },
            Some(Role::LockSurface(i)) => {
                self.lock_surfaces[i].common.has_focus = has_focus;
            },
            _ => {},
        }
    }

    /// Handles an event of a keyboard: a surface entered or left, a key
    /// pressed or released, or a change of the modifiers. `serial` is the
    /// serial of the event.
    ///
    /// The seat of the keyboard takes note of its focus, its last press and
    /// its modifiers whichever seat it is. The user interface is told only
    /// where the keyboard belongs to the active seat, and only of an event
    /// that is about a surface. An event of a keyboard that no seat has is
    /// ignored.
    pub fn keyboard_event(&mut self, keyboard: ObjectId, variant: KeyboardEventVariant, serial: u32)
        ensures
            final(self)@ == old(self)@.keyboard_event(keyboard, variant, serial),
            old(self)@.wf() ==> final(self)@.wf(),
    {
        proof {
            if self@.wf() {
                crate::wellformed::lemma_keyboard_event_wf(self@, keyboard, variant, serial);
            }
        }
        let s = match position_by_device(&self.seats, Capability::Keyboard, keyboard) {
            Some(s) => s,
            None => {
                return ;
            },
        };
        let seat = self.seats[s];
        let about: Option<ObjectId> = match variant {
            KeyboardEventVariant::Enter(surface) => Some(surface),
            KeyboardEventVariant::Leave(surface) => Some(surface),
            _ => seat.kbd_focus,
        };
        match variant {
            KeyboardEventVariant::Enter(surface) => {
                self.focus(surface, true);
            },
            KeyboardEventVariant::Leave(surface) => {
                self.focus(surface, false);
            },
            _ => {},
        }
        assert(self@ == old(self)@.refocused(variant));
        self.seats[s] = seat.type_key(variant, serial);
        match about {
            Some(surface) => {
                if s == 0 {
                    self.sctk_events.push(
                        SctkEvent::KeyboardEvent {
                            variant,
                            kbd_id: keyboard,
                            seat_id: seat.seat,
                            surface,
                        },
                    );
                }
            },
            None => {},
        }
    }

    /// Handles an event of a touch screen: a finger put down, lifted or
    /// moved, or the touch cancelled.
    ///
    /// Where each finger is is kept whichever seat the touch screen belongs
    /// to; the user interface is told only where it belongs to the active
    /// seat. An event of a touch screen that no seat has is ignored.
    pub fn touch_event(&mut self, touch: ObjectId, variant: TouchEventVariant)
        ensures
            final(self)@ == old(self)@.touch_event(touch, variant),
            old(self)@.wf() ==> final(self)@.wf(),
    {
        proof {
            if self@.wf() {
                crate::wellformed::lemma_touch_event_wf(self@, touch, variant);
            }
        }
        let s = match position_by_device(&self.seats, Capability::Touch, touch) {
            Some(s) => s,
            None => {
                return ;
            },
        };
        let seat_id = self.seats[s].seat;
        match variant {
            TouchEventVariant::Down { serial, time, surface, id, position } => {
                self.seats[s].last_touch_down = Some(TouchDown { time, id, serial });
                self.touch_points.insert(key_of_finger(id), TouchPoint { surface, position });
            },
            TouchEventVariant::Up { id, .. } => {
                let _ = self.touch_points.remove(key_of_finger(id));
            },
            TouchEventVariant::Motion { id, position, .. } => {
                match self.touch_points.get(key_of_finger(id)) {
                    Some(point) => {
                        self.touch_points.insert(
                            key_of_finger(id),
                            TouchPoint { surface: point.surface, position },
                        );
                    },
                    None => {},
                }
            },
            TouchEventVariant::Cancel => {
                let _ = self.touch_points.drain();
            },
        }
        if s == 0 {
            self.sctk_events.push(
                SctkEvent::TouchEvent { variant, touch_id: touch, seat_id },
            );
        }
    }

    /// Sets the cursor icon that the application asks for. Every seat
    /// remembers it; the active seat shows it at once, unless it shows the
    /// arrow of a window border: then the icon comes when the pointer has
    /// left the border.
    pub fn set_cursor(&mut self, icon: CursorIcon)
        ensures
            final(self)@ == old(self)@.set_cursor(icon),
            old(self)@.wf() ==> final(self)@.wf(),
    {
        proof {
            if self@.wf() {
                crate::wellformed::lemma_devices_wf(self@, ObjectId(0), Capability::Pointer, ObjectId(0), icon);
            }
        }
        let n: usize = self.seats.len();
        if n == 0 {
            return ;
        }
        let ghost before = self.seats@;
        let overridden = self.seats[0].is_overridden();
        self.seats[0].icon = Some(icon);
        if !overridden {
            self.seats[0].set_cursor(icon, &mut self.requests);
            assert(self.requests@ == old(self).requests@ + before[0].cursor_requests(icon));
        }
        let ghost asked = self.requests@;
        let ghost rest = self@;
        let mut i: usize = 1;
        while i < n
            invariant
                1 <= i <= n,
                self.requests@ == asked,
                self@ == (StateView { seats: self.seats@, ..rest }),
                n == self.seats.len(),
                n == before.len(),
                self.seats@[0] == if overridden {
                    SctkSeat { icon: Some(icon), ..before[0] }
                } else {
                    (SctkSeat { icon: Some(icon), ..before[0] }).with_cursor(icon)
                },
                forall|j: int|
                    1 <= j < i ==> self.seats@[j] == (SctkSeat {
                        icon: Some(icon),
                        ..#[trigger] before[j]
                    }),
                forall|j: int| i <= j < n ==> self.seats@[j] == #[trigger] before[j],
            decreases n - i,
        {
            self.seats[i].icon = Some(icon);
            i += 1;
        }
        assert(self.seats@ =~= old(self)@.set_cursor(icon).seats);
    }
}

} // verus!
