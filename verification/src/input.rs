//! Input as the compositor reports it, and as the user interface is told of
//! it.

use crate::geometry::{Fixed, Point};
use crate::shell::ObjectId;
use vstd::prelude::*;

verus! {

/// The button codes of the kernel's input layer that have a name of their own.
pub const BTN_LEFT: u32 = 0x110;

pub const BTN_RIGHT: u32 = 0x111;

pub const BTN_MIDDLE: u32 = 0x112;

pub const BTN_SIDE: u32 = 0x113;

pub const BTN_EXTRA: u32 = 0x114;

pub const BTN_FORWARD: u32 = 0x115;

pub const BTN_BACK: u32 = 0x116;

/// A button of the mouse, as the user interface names it.
#[derive(Debug, Clone, Copy, PartialEq, Eq, Structural, Hash)]
pub enum MouseButton {
    Left,
    Right,
    Middle,
    Back,
    Forward,
    Other(u16),
}

/// The name the user interface has for a button code.
pub open spec fn button_name(button: u32) -> MouseButton {
    if button == BTN_LEFT {
        MouseButton::Left
    } else if button == BTN_RIGHT {
        MouseButton::Right
    } else if button == BTN_MIDDLE {
        MouseButton::Middle
    } else if button == BTN_BACK || button == BTN_SIDE {
        MouseButton::Back
    } else if button == BTN_FORWARD || button == BTN_EXTRA {
        MouseButton::Forward
    } else {
        MouseButton::Other((button % 0x10000) as u16)
    }
}

/// Convert the Wayland button into the one the user interface knows. A code
/// without a name is passed on by its low 16 bits.
pub fn wayland_button_to_winit(button: u32) -> (name: MouseButton)
    ensures
        name == button_name(button),
{
    if button == BTN_LEFT {
        MouseButton::Left
    } else if button == BTN_RIGHT {
        MouseButton::Right
    } else if button == BTN_MIDDLE {
        MouseButton::Middle
    } else if button == BTN_BACK || button == BTN_SIDE {
        MouseButton::Back
    } else if button == BTN_FORWARD || button == BTN_EXTRA {
        MouseButton::Forward
    } else {
        MouseButton::Other((button % 0x10000) as u16)
    }
}

/// Whether a button or key went down or came up.
#[derive(Debug, Clone, Copy, PartialEq, Eq, Structural, Hash)]
pub enum ElementState {
    Pressed,
    Released,
}

/// The stage of a touch or of a scroll.
#[derive(Debug, Clone, Copy, PartialEq, Eq, Structural, Hash)]
pub enum TouchPhase {
    Started,
    Moved,
    Ended,
    Cancelled,
}

/// How far a wheel or a finger scrolled.
#[derive(Debug, Clone, Copy, PartialEq, Eq, Structural, Hash)]
pub enum MouseScrollDelta {
    /// Whole steps of a wheel, horizontal then vertical.
    LineDelta(i32, i32),
    /// A distance in pixels, horizontal then vertical.
    PixelDelta(Fixed, Fixed),
}

/// The keys that modify others, as held at some moment.
#[derive(Debug, Clone, Copy, PartialEq, Eq, Structural, Hash)]
pub struct Modifiers {
    pub ctrl: bool,
    pub alt: bool,
    pub shift: bool,
    pub caps_lock: bool,
    pub logo: bool,
    pub num_lock: bool,
}

impl Modifiers {
    pub fn empty() -> (modifiers: Modifiers)
        ensures
            modifiers == (Modifiers {
                ctrl: false,
                alt: false,
                shift: false,
                caps_lock: false,
                logo: false,
                num_lock: false,
            }),
    {
        Modifiers {
            ctrl: false,
            alt: false,
            shift: false,
            caps_lock: false,
            logo: false,
            num_lock: false,
        }
    }
}

/// One axis of a scroll.
#[derive(Debug, Clone, Copy, PartialEq, Eq, Structural, Hash)]
pub struct AxisScroll {
    /// The distance scrolled, in pixels.
    pub absolute: Fixed,
    /// The number of whole wheel steps.
    pub discrete: i32,
    /// Whether the scroll ended on this axis.
    pub stop: bool,
}

/// What a pointer did.
#[derive(Debug, Clone, Copy, PartialEq, Eq, Structural, Hash)]
pub enum PointerEventKind {
    Enter { serial: u32 },
    Leave { serial: u32 },
    Motion { time: u32 },
    Press { time: u32, button: u32, serial: u32 },
    Release { time: u32, button: u32, serial: u32 },
    Axis { time: u32, horizontal: AxisScroll, vertical: AxisScroll },
}

/// One event of a pointer frame.
#[derive(Debug, Clone, Copy, PartialEq, Eq, Structural, Hash)]
pub struct PointerEvent {
    /// The surface the pointer is over.
    pub surface: ObjectId,
    /// Where on the surface, in logical pixels.
    pub position: Point,
    pub kind: PointerEventKind,
}

/// A key that went down or came up.
#[derive(Debug, Clone, Copy, PartialEq, Eq, Structural, Hash)]
pub struct KeyEvent {
    pub time: u32,
    pub raw_code: u32,
    pub keysym: u32,
}

/// What a keyboard did.
#[derive(Debug, Clone, Copy, PartialEq, Eq, Structural, Hash)]
pub enum KeyboardEventVariant {
    Enter(ObjectId),
    Leave(ObjectId),
    Press(KeyEvent),
    Release(KeyEvent),
    Modifiers(Modifiers),
}

/// What a finger did.
#[derive(Debug, Clone, Copy, PartialEq, Eq, Structural, Hash)]
pub enum TouchEventVariant {
    Down { serial: u32, time: u32, surface: ObjectId, id: i32, position: Point },
    Up { serial: u32, time: u32, id: i32 },
    Motion { time: u32, id: i32, position: Point },
    Cancel,
}

/// What the windowing layer of the user interface is told of a surface.
#[derive(Debug, Clone, Copy, PartialEq, Eq, Structural, Hash)]
pub enum WindowEvent {
    CloseRequested,
    RedrawRequested,
    CursorEntered,
    CursorLeft,
    CursorMoved { position: Point },
    MouseInput { state: ElementState, button: MouseButton },
    MouseWheel { delta: MouseScrollDelta, phase: TouchPhase },
    /// A key that produces a character went down or came up.
    KeyboardInput { character: char, state: ElementState },
}

/// What the user interface is told of a button press or release, a pointer
/// entering or leaving, or a scroll. Motion is reported with its time, as the
/// pointer event itself.
pub open spec fn pointer_window_event(event: PointerEvent) -> WindowEvent {
    match event.kind {
        PointerEventKind::Enter { .. } => WindowEvent::CursorEntered,
        PointerEventKind::Leave { .. } => WindowEvent::CursorLeft,
        PointerEventKind::Motion { .. } => WindowEvent::CursorMoved { position: event.position },
        PointerEventKind::Press { button, .. } => WindowEvent::MouseInput {
            state: ElementState::Pressed,
            button: button_name(button),
        },
        PointerEventKind::Release { button, .. } => WindowEvent::MouseInput {
            state: ElementState::Released,
            button: button_name(button),
        },
        PointerEventKind::Axis { horizontal, vertical, .. } => WindowEvent::MouseWheel {
            delta: if horizontal.discrete > 0 {
                MouseScrollDelta::LineDelta(horizontal.discrete, vertical.discrete)
            } else {
                MouseScrollDelta::PixelDelta(horizontal.absolute, vertical.absolute)
            },
            phase: if horizontal.stop {
                TouchPhase::Ended
            } else {
                TouchPhase::Moved
            },
        },
    }
}

/// Turns a pointer event into what the windowing layer is told of it.
pub fn translate_pointer_event(event: PointerEvent) -> (told: WindowEvent)
    ensures
        told == pointer_window_event(event),
{
    match event.kind {
        PointerEventKind::Enter { .. } => WindowEvent::CursorEntered,
        PointerEventKind::Leave { .. } => WindowEvent::CursorLeft,
        PointerEventKind::Motion { .. } => WindowEvent::CursorMoved { position: event.position },
        PointerEventKind::Press { button, .. } => WindowEvent::MouseInput {
            state: ElementState::Pressed,
            button: wayland_button_to_winit(button),
        },
        PointerEventKind::Release { button, .. } => WindowEvent::MouseInput {
            state: ElementState::Released,
            button: wayland_button_to_winit(button),
        },
        PointerEventKind::Axis { horizontal, vertical, .. } => WindowEvent::MouseWheel {
            delta: if horizontal.discrete > 0 {
                MouseScrollDelta::LineDelta(horizontal.discrete, vertical.discrete)
            } else {
                MouseScrollDelta::PixelDelta(horizontal.absolute, vertical.absolute)
            },
            phase: if horizontal.stop {
                TouchPhase::Ended
            } else {
                TouchPhase::Moved
            },
        },
    }
}

} // verus!
