//! Seats, and the border of a window that starts a resize.

use crate::geometry::{LogicalSize, Point};
use crate::input::{KeyEvent, Modifiers};
use crate::request::Request;
use crate::shell::{CursorIcon, ObjectId, ResizeEdge};
use vstd::prelude::*;

verus! {

/// Whether a coordinate lies within `border` pixels of the near edge.
pub open spec fn near_start(coordinate: int, border: int) -> bool {
    coordinate < border * 256
}

/// Whether a coordinate lies within `border` pixels of the far edge of an
/// extent of `extent` pixels.
pub open spec fn near_end(coordinate: int, extent: int, border: int) -> bool {
    coordinate > (extent - border) * 256
}

/// The edge or corner of a window of the given size that a pointer at
/// `position` is over, where the outermost `border` pixels on each side make
/// up the edges. Corners come before edges, and left before right.
pub open spec fn edge_at(size: LogicalSize, border: u32, position: Point) -> Option<ResizeEdge> {
    let left = near_start(position.x.0 as int, border as int);
    let top = near_start(position.y.0 as int, border as int);
    let right = near_end(position.x.0 as int, size.width as int, border as int);
    let bottom = near_end(position.y.0 as int, size.height as int, border as int);
    if left && top {
        Some(ResizeEdge::TopLeft)
    } else if left && bottom {
        Some(ResizeEdge::BottomLeft)
    } else if right && top {
        Some(ResizeEdge::TopRight)
    } else if right && bottom {
        Some(ResizeEdge::BottomRight)
    } else if left {
        Some(ResizeEdge::Left)
    } else if right {
        Some(ResizeEdge::Right)
    } else if top {
        Some(ResizeEdge::Top)
    } else if bottom {
        Some(ResizeEdge::Bottom)
    } else {
        None
    }
}

/// Whether an edge is one of the four corners.
pub open spec fn is_corner(edge: ResizeEdge) -> bool {
    edge == ResizeEdge::TopLeft || edge == ResizeEdge::TopRight || edge == ResizeEdge::BottomLeft
        || edge == ResizeEdge::BottomRight
}

/// Whether an edge is one of the four sides.
pub open spec fn is_side(edge: ResizeEdge) -> bool {
    edge == ResizeEdge::Top || edge == ResizeEdge::Bottom || edge == ResizeEdge::Left || edge
        == ResizeEdge::Right
}

/// Finds the edge or corner of a window that the pointer is over.
pub fn resize_edge(size: LogicalSize, border: u32, position: Point) -> (edge: Option<ResizeEdge>)
    ensures
        edge == edge_at(size, border, position),
{
    let x: i64 = position.x.0 as i64;
    let y: i64 = position.y.0 as i64;
    let inset: i64 = border as i64 * 256;
    let left: bool = x < inset;
    let top: bool = y < inset;
    let right: bool = x > (size.width as i64 - border as i64) * 256;
    let bottom: bool = y > (size.height as i64 - border as i64) * 256;
    if left && top {
        Some(ResizeEdge::TopLeft)
    } else if left && bottom {
        Some(ResizeEdge::BottomLeft)
    } else if right && top {
        Some(ResizeEdge::TopRight)
    } else if right && bottom {
        Some(ResizeEdge::BottomRight)
    } else if left {
        Some(ResizeEdge::Left)
    } else if right {
        Some(ResizeEdge::Right)
    } else if top {
        Some(ResizeEdge::Top)
    } else if bottom {
        Some(ResizeEdge::Bottom)
    } else {
        None
    }
}

/// The pointer is over a corner exactly if it is within the border on both
/// axes, over a side exactly if it is within the border on one axis only,
/// and over the interior exactly if it is at least a border away from every
/// edge.
pub proof fn lemma_edge_classification(size: LogicalSize, border: u32, position: Point)
    ensures
        ({
            let x = position.x.0 as int;
            let y = position.y.0 as int;
            let across = near_start(x, border as int) || near_end(
                x,
                size.width as int,
                border as int,
            );
            let along = near_start(y, border as int) || near_end(
                y,
                size.height as int,
                border as int,
            );
            let edge = edge_at(size, border, position);
            &&& (edge matches Some(e) && is_corner(e)) <==> (across && along)
            &&& (edge matches Some(e) && is_side(e)) <==> (across != along)
            &&& edge is None <==> (!across && !along)
            &&& edge matches Some(e) ==> e != ResizeEdge::Interior
        }),
{
}

/// The arrow that shows over an edge.
pub open spec fn cursor_over(edge: ResizeEdge) -> CursorIcon {
    match edge {
        ResizeEdge::Top => CursorIcon::NResize,
        ResizeEdge::Bottom => CursorIcon::SResize,
        ResizeEdge::Left => CursorIcon::WResize,
        ResizeEdge::TopLeft => CursorIcon::NwResize,
        ResizeEdge::BottomLeft => CursorIcon::SwResize,
        ResizeEdge::Right => CursorIcon::EResize,
        ResizeEdge::TopRight => CursorIcon::NeResize,
        ResizeEdge::BottomRight => CursorIcon::SeResize,
        ResizeEdge::Interior => CursorIcon::Default,
    }
}

/// Picks the arrow that shows over an edge. There is none for the interior.
pub fn resize_cursor(edge: ResizeEdge) -> (icon: CursorIcon)
    requires
        edge != ResizeEdge::Interior,
    ensures
        icon == cursor_over(edge),
{
    match edge {
        ResizeEdge::Top => CursorIcon::NResize,
        ResizeEdge::Bottom => CursorIcon::SResize,
        ResizeEdge::Left => CursorIcon::WResize,
        ResizeEdge::TopLeft => CursorIcon::NwResize,
        ResizeEdge::BottomLeft => CursorIcon::SwResize,
        ResizeEdge::Right => CursorIcon::EResize,
        ResizeEdge::TopRight => CursorIcon::NeResize,
        ResizeEdge::BottomRight => CursorIcon::SeResize,
        ResizeEdge::Interior => CursorIcon::Default,
    }
}

/// A press of a pointer button: when, which button, and the serial of the
/// event.
#[derive(Debug, Clone, Copy, PartialEq, Eq, Structural, Hash)]
pub struct PointerPress {
    pub time: u32,
    pub button: u32,
    pub serial: u32,
}

/// A press of a key, with the serial of the event.
#[derive(Debug, Clone, Copy, PartialEq, Eq, Structural, Hash)]
pub struct KeyPress {
    pub event: KeyEvent,
    pub serial: u32,
}

/// The start of a touch: when, which finger, and the serial of the event.
#[derive(Debug, Clone, Copy, PartialEq, Eq, Structural, Hash)]
pub struct TouchDown {
    pub time: u32,
    pub id: i32,
    pub serial: u32,
}

/// A kind of input device.
#[derive(Debug, Clone, Copy, PartialEq, Eq, Structural, Hash)]
pub enum Capability {
    Keyboard,
    Pointer,
    Touch,
}

/// A seat: the keyboard, pointer and touch screen of one user.
#[derive(Debug, Clone, Copy, PartialEq, Eq, Structural, Hash)]
pub struct SctkSeat {
    pub seat: ObjectId,
    pub kbd: Option<ObjectId>,
    pub kbd_focus: Option<ObjectId>,
    pub last_kbd_press: Option<KeyPress>,
    pub ptr: Option<ObjectId>,
    pub ptr_focus: Option<ObjectId>,
    pub last_ptr_press: Option<PointerPress>,
    pub touch: Option<ObjectId>,
    pub last_touch_down: Option<TouchDown>,
    pub modifiers: Modifiers,
    /// Cursor icon currently set, by the border of a window or by the
    /// application.
    pub active_icon: Option<CursorIcon>,
    /// Cursor icon set by the application.
    pub icon: Option<CursorIcon>,
}

impl SctkSeat {
    /// A seat without devices.
    pub open spec fn bare(seat: ObjectId) -> SctkSeat {
        SctkSeat {
            seat,
            kbd: None,
            kbd_focus: None,
            last_kbd_press: None,
            ptr: None,
            ptr_focus: None,
            last_ptr_press: None,
            touch: None,
            last_touch_down: None,
            modifiers: Modifiers {
                ctrl: false,
                alt: false,
                shift: false,
                caps_lock: false,
                logo: false,
                num_lock: false,
            },
            active_icon: None,
            icon: None,
        }
    }

    /// A seat without devices.
    pub fn new(seat: ObjectId) -> (made: SctkSeat)
        ensures
            made == SctkSeat::bare(seat),
    {
        SctkSeat {
            seat,
            kbd: None,
            kbd_focus: None,
            last_kbd_press: None,
            ptr: None,
            ptr_focus: None,
            last_ptr_press: None,
            touch: None,
            last_touch_down: None,
            modifiers: Modifiers::empty(),
            active_icon: None,
            icon: None,
        }
    }

    /// The seat after the shape of its pointer has been set: a seat without
    /// a pointer stays as it is.
    pub open spec fn with_cursor(self, icon: CursorIcon) -> SctkSeat {
        if self.ptr is Some {
            SctkSeat { active_icon: Some(icon), ..self }
        } else {
            self
        }
    }

    /// What setting the shape of the pointer asks of the compositor.
    pub open spec fn cursor_requests(self, icon: CursorIcon) -> Seq<Request> {
        match self.ptr {
            Some(pointer) => seq![Request::SetCursor { pointer, icon }],
            None => Seq::<Request>::empty(),
        }
    }

    /// Sets the shape of the pointer of this seat, if it has one.
    pub fn set_cursor(&mut self, icon: CursorIcon, requests: &mut Vec<Request>)
        ensures
            *final(self) == old(self).with_cursor(icon),
            final(requests)@ == old(requests)@ + old(self).cursor_requests(icon),
    {
        let ghost before = requests@;
        match self.ptr {
            Some(pointer) => {
                requests.push(Request::SetCursor { pointer, icon });
                self.active_icon = Some(icon);
            },
            None => {},
        }
        assert(requests@ =~= before + old(self).cursor_requests(icon));
    }

    /// The serial that a grab is made with: that of the last press of a
    /// pointer button, else that of the last press of a key, else zero.
    pub open spec fn spec_grab_serial(self) -> u32 {
        match self.last_ptr_press {
            Some(press) => press.serial,
            None => match self.last_kbd_press {
                Some(press) => press.serial,
                None => 0,
            },
        }
    }

    /// The serial that a grab is made with.
    #[verifier::when_used_as_spec(spec_grab_serial)]
    pub fn grab_serial(self) -> (serial: u32)
        ensures
            serial == self.spec_grab_serial(),
    {
        match self.last_ptr_press {
            Some(press) => press.serial,
            None => match self.last_kbd_press {
                Some(press) => press.serial,
                None => 0,
            },
        }
    }
}

} // verus!
