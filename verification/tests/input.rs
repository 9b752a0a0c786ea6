use surface_coordinator::geometry::{Fixed, LogicalSize, Point};
use surface_coordinator::input::{
    translate_pointer_event, wayland_button_to_winit, AxisScroll, ElementState, KeyEvent,
    KeyboardEventVariant, MouseButton, MouseScrollDelta, PointerEvent, PointerEventKind,
    TouchEventVariant, TouchPhase, WindowEvent, BTN_LEFT,
};
use surface_coordinator::request::Request;
use surface_coordinator::sctk_event::{SctkEvent, SeatEventVariant};
use surface_coordinator::seat::{resize_cursor, resize_edge, Capability, PointerPress, SctkSeat};
use surface_coordinator::shell::{CursorIcon, ObjectId, ResizeEdge};
use surface_coordinator::state::{Globals, SctkState, TouchPoint};
use surface_coordinator::wayland::window::SctkWindowSettings;
use surface_coordinator::window::Id;

fn globals() -> Globals {
    Globals {
        layer_shell: true,
        session_lock: true,
        activation: true,
        viewporter: false,
        fractional_scaling: false,
    }
}

fn at(x: i32, y: i32) -> Point {
    Point { x: Fixed::from_pixels(x).unwrap(), y: Fixed::from_pixels(y).unwrap() }
}

fn seated(border: Option<u32>) -> (SctkState, ObjectId, ObjectId, ObjectId) {
    let mut state = SctkState::new(globals());
    let seat = ObjectId(100);
    let pointer = ObjectId(101);
    state.new_seat(seat);
    state.new_capability(seat, Capability::Pointer, pointer);
    let mut settings = SctkWindowSettings::new(Id(1));
    settings.size = LogicalSize { width: 800, height: 600 };
    settings.resizable = border;
    let (_, surface, _) = state.get_window(settings);
    let _ = state.flush();
    (state, seat, pointer, surface)
}

#[test]
fn edges_of_a_window() {
    let size = LogicalSize { width: 800, height: 600 };
    assert_eq!(resize_edge(size, 8, at(4, 4)), Some(ResizeEdge::TopLeft));
    assert_eq!(resize_edge(size, 8, at(4, 596)), Some(ResizeEdge::BottomLeft));
    assert_eq!(resize_edge(size, 8, at(796, 4)), Some(ResizeEdge::TopRight));
    assert_eq!(resize_edge(size, 8, at(796, 596)), Some(ResizeEdge::BottomRight));
    assert_eq!(resize_edge(size, 8, at(4, 300)), Some(ResizeEdge::Left));
    assert_eq!(resize_edge(size, 8, at(796, 300)), Some(ResizeEdge::Right));
    assert_eq!(resize_edge(size, 8, at(400, 4)), Some(ResizeEdge::Top));
    assert_eq!(resize_edge(size, 8, at(400, 596)), Some(ResizeEdge::Bottom));
    assert_eq!(resize_edge(size, 8, at(400, 300)), None);
}

#[test]
fn edges_end_exactly_at_the_border() {
    let size = LogicalSize { width: 800, height: 600 };
    assert_eq!(resize_edge(size, 8, at(8, 300)), None);
    assert_eq!(resize_edge(size, 8, Point { x: Fixed(8 * 256 - 1), y: Fixed(300 * 256) }), Some(ResizeEdge::Left));
    assert_eq!(resize_edge(size, 8, at(792, 300)), None);
    assert_eq!(resize_edge(size, 8, Point { x: Fixed(792 * 256 + 1), y: Fixed(300 * 256) }), Some(ResizeEdge::Right));
    assert_eq!(resize_edge(size, 8, at(400, 592)), None);
    assert_eq!(resize_edge(size, 0, at(0, 0)), None);
    assert_eq!(resize_edge(size, 8, at(-1, -1)), Some(ResizeEdge::TopLeft));
}

#[test]
fn arrows_of_the_edges() {
    assert_eq!(resize_cursor(ResizeEdge::Top), CursorIcon::NResize);
    assert_eq!(resize_cursor(ResizeEdge::Bottom), CursorIcon::SResize);
    assert_eq!(resize_cursor(ResizeEdge::Left), CursorIcon::WResize);
    assert_eq!(resize_cursor(ResizeEdge::Right), CursorIcon::EResize);
    assert_eq!(resize_cursor(ResizeEdge::TopLeft), CursorIcon::NwResize);
    assert_eq!(resize_cursor(ResizeEdge::TopRight), CursorIcon::NeResize);
    assert_eq!(resize_cursor(ResizeEdge::BottomLeft), CursorIcon::SwResize);
    assert_eq!(resize_cursor(ResizeEdge::BottomRight), CursorIcon::SeResize);
}

#[test]
fn buttons_have_names() {
    assert_eq!(wayland_button_to_winit(0x110), MouseButton::Left);
    assert_eq!(wayland_button_to_winit(0x111), MouseButton::Right);
    assert_eq!(wayland_button_to_winit(0x112), MouseButton::Middle);
    assert_eq!(wayland_button_to_winit(0x113), MouseButton::Back);
    assert_eq!(wayland_button_to_winit(0x116), MouseButton::Back);
    assert_eq!(wayland_button_to_winit(0x114), MouseButton::Forward);
    assert_eq!(wayland_button_to_winit(0x115), MouseButton::Forward);
    assert_eq!(wayland_button_to_winit(0x117), MouseButton::Other(0x117));
    assert_eq!(wayland_button_to_winit(0x1_0005), MouseButton::Other(5));
}

#[test]
fn pointer_events_become_window_events() {
    let surface = ObjectId(1);
    let event = |kind| PointerEvent { surface, position: at(10, 20), kind };
    assert_eq!(
        translate_pointer_event(event(PointerEventKind::Enter { serial: 1 })),
        WindowEvent::CursorEntered
    );
    assert_eq!(
        translate_pointer_event(event(PointerEventKind::Leave { serial: 1 })),
        WindowEvent::CursorLeft
    );
    assert_eq!(
        translate_pointer_event(event(PointerEventKind::Motion { time: 1 })),
        WindowEvent::CursorMoved { position: at(10, 20) }
    );
    assert_eq!(
        translate_pointer_event(event(PointerEventKind::Release { time: 1, button: 0x111, serial: 2 })),
        WindowEvent::MouseInput { state: ElementState::Released, button: MouseButton::Right }
    );
    let still = AxisScroll { absolute: Fixed(0), discrete: 0, stop: false };
    let wheel = AxisScroll { absolute: Fixed(2560), discrete: 1, stop: false };
    let ended = AxisScroll { absolute: Fixed(512), discrete: 0, stop: true };
    assert_eq!(
        translate_pointer_event(event(PointerEventKind::Axis { time: 1, horizontal: wheel, vertical: still })),
        WindowEvent::MouseWheel { delta: MouseScrollDelta::LineDelta(1, 0), phase: TouchPhase::Moved }
    );
    assert_eq!(
        translate_pointer_event(event(PointerEventKind::Axis { time: 1, horizontal: ended, vertical: wheel })),
        WindowEvent::MouseWheel {
            delta: MouseScrollDelta::PixelDelta(Fixed(512), Fixed(2560)),
            phase: TouchPhase::Ended,
        }
    );
}

#[test]
fn motion_inside_a_window_reaches_the_user_interface() {
    let (mut state, seat, pointer, surface) = seated(Some(8));
    let motion = PointerEvent {
        surface,
        position: at(400, 300),
        kind: PointerEventKind::Motion { time: 3 },
    };
    state.pointer_frame(pointer, &vec![motion]);
    assert_eq!(
        state.sctk_events,
        vec![SctkEvent::PointerEvent { variant: motion, ptr_id: pointer, seat_id: seat }]
    );
    assert!(state.requests.is_empty());
}

#[test]
fn motion_over_the_border_only_changes_the_cursor() {
    let (mut state, _, pointer, surface) = seated(Some(8));
    let motion = |x, y| PointerEvent {
        surface,
        position: at(x, y),
        kind: PointerEventKind::Motion { time: 3 },
    };
    state.pointer_frame(pointer, &vec![motion(799, 300)]);
    assert!(state.sctk_events.is_empty());
    assert_eq!(state.requests, vec![Request::SetCursor { pointer, icon: CursorIcon::EResize }]);

    state.pointer_frame(pointer, &vec![motion(798, 300)]);
    assert!(state.sctk_events.is_empty());
    assert_eq!(state.requests.len(), 1);

    state.pointer_frame(pointer, &vec![motion(400, 300)]);
    assert_eq!(
        state.requests,
        vec![
            Request::SetCursor { pointer, icon: CursorIcon::EResize },
            Request::SetCursor { pointer, icon: CursorIcon::Default },
        ]
    );
    assert_eq!(state.sctk_events.len(), 1);
}

#[test]
fn border_takes_the_rest_of_the_frame() {
    let (mut state, _, pointer, surface) = seated(Some(8));
    let motion = |x, y| PointerEvent {
        surface,
        position: at(x, y),
        kind: PointerEventKind::Motion { time: 3 },
    };
    state.pointer_frame(pointer, &vec![motion(400, 300), motion(2, 300), motion(400, 300)]);
    assert_eq!(state.sctk_events.len(), 1);
    assert_eq!(state.seats[0].active_icon, Some(CursorIcon::WResize));
}

#[test]
fn window_without_border_is_not_resized_by_it() {
    let (mut state, seat, pointer, surface) = seated(None);
    let press = PointerEvent {
        surface,
        position: at(2, 2),
        kind: PointerEventKind::Press { time: 1, button: BTN_LEFT, serial: 4 },
    };
    state.pointer_frame(pointer, &vec![press]);
    assert!(state.requests.is_empty());
    assert_eq!(
        state.sctk_events,
        vec![SctkEvent::Winit(
            surface,
            WindowEvent::MouseInput { state: ElementState::Pressed, button: MouseButton::Left }
        )]
    );
    assert_eq!(
        state.seats[0].last_ptr_press,
        Some(PointerPress { time: 1, button: BTN_LEFT, serial: 4 })
    );
    assert_eq!(state.last_press(), Some((seat, 4)));
}

#[test]
fn right_button_over_the_border_reaches_the_user_interface() {
    let (mut state, _, pointer, surface) = seated(Some(8));
    let press = PointerEvent {
        surface,
        position: at(2, 2),
        kind: PointerEventKind::Press { time: 1, button: 0x111, serial: 4 },
    };
    state.pointer_frame(pointer, &vec![press]);
    assert_eq!(state.requests, vec![Request::SetCursor { pointer, icon: CursorIcon::NwResize }]);
    assert_eq!(
        state.sctk_events,
        vec![SctkEvent::Winit(
            surface,
            WindowEvent::MouseInput { state: ElementState::Pressed, button: MouseButton::Right }
        )]
    );
}

#[test]
fn other_seats_keep_track_in_silence() {
    let (mut state, _, _, surface) = seated(Some(8));
    let (seat2, pointer2) = (ObjectId(200), ObjectId(201));
    state.new_seat(seat2);
    state.new_capability(seat2, Capability::Pointer, pointer2);
    let _ = state.flush();
    let enter = PointerEvent {
        surface,
        position: at(400, 300),
        kind: PointerEventKind::Enter { serial: 1 },
    };
    let press = PointerEvent {
        surface,
        position: at(400, 300),
        kind: PointerEventKind::Press { time: 2, button: BTN_LEFT, serial: 9 },
    };
    state.pointer_frame(pointer2, &vec![enter, press]);
    assert!(state.sctk_events.is_empty());
    assert_eq!(state.seats[1].ptr_focus, Some(surface));
    assert_eq!(state.seats[1].last_ptr_press.map(|p| p.serial), Some(9));

    state.pointer_frame(ObjectId(999), &vec![enter]);
    assert!(state.sctk_events.is_empty());
}

#[test]
fn leaving_forgets_the_cursor() {
    let (mut state, _, pointer, surface) = seated(Some(8));
    let enter = PointerEvent { surface, position: at(2, 300), kind: PointerEventKind::Enter { serial: 1 } };
    let leave = PointerEvent { surface, position: at(400, 300), kind: PointerEventKind::Leave { serial: 2 } };
    state.pointer_frame(pointer, &vec![enter]);
    assert_eq!(state.seats[0].active_icon, Some(CursorIcon::WResize));
    assert_eq!(state.seats[0].ptr_focus, Some(surface));
    state.pointer_frame(pointer, &vec![leave]);
    assert_eq!(state.seats[0].active_icon, None);
    assert_eq!(state.seats[0].ptr_focus, None);
}

#[test]
fn cursor_of_the_application() {
    let (mut state, _, pointer, surface) = seated(Some(8));
    let (seat2, pointer2) = (ObjectId(200), ObjectId(201));
    state.new_seat(seat2);
    state.new_capability(seat2, Capability::Pointer, pointer2);
    let _ = state.flush();

    state.set_cursor(CursorIcon::Text);
    assert_eq!(state.requests, vec![Request::SetCursor { pointer, icon: CursorIcon::Text }]);
    assert_eq!(state.seats[0].icon, Some(CursorIcon::Text));
    assert_eq!(state.seats[0].active_icon, Some(CursorIcon::Text));
    assert_eq!(state.seats[1].icon, Some(CursorIcon::Text));
    assert_eq!(state.seats[1].active_icon, None);
    let _ = state.flush();

    let motion = |x, y| PointerEvent {
        surface,
        position: at(x, y),
        kind: PointerEventKind::Motion { time: 3 },
    };
    state.pointer_frame(pointer, &vec![motion(2, 300)]);
    let _ = state.flush();
    state.set_cursor(CursorIcon::Grab);
    assert!(state.requests.is_empty());
    assert_eq!(state.seats[0].icon, Some(CursorIcon::Grab));
    assert_eq!(state.seats[0].active_icon, Some(CursorIcon::WResize));
    state.pointer_frame(pointer, &vec![motion(400, 300)]);
    assert_eq!(state.requests, vec![Request::SetCursor { pointer, icon: CursorIcon::Grab }]);
}

#[test]
fn seat_without_pointer_sets_no_cursor() {
    let mut seat = SctkSeat::new(ObjectId(1));
    let mut requests = Vec::new();
    seat.set_cursor(CursorIcon::Help, &mut requests);
    assert!(requests.is_empty());
    assert_eq!(seat.active_icon, None);
    assert_eq!(seat.grab_serial(), 0);
}

#[test]
fn seats_and_devices_come_and_go() {
    let mut state = SctkState::new(globals());
    let seat = ObjectId(100);
    state.new_seat(seat);
    state.new_seat(seat);
    assert_eq!(state.seats.len(), 1);
    state.new_capability(seat, Capability::Keyboard, ObjectId(101));
    state.new_capability(ObjectId(7), Capability::Keyboard, ObjectId(102));
    state.remove_capability(seat, Capability::Touch);
    state.remove_capability(seat, Capability::Keyboard);
    state.remove_seat(ObjectId(7));
    state.remove_seat(seat);
    assert!(state.seats.is_empty());
    assert_eq!(
        state.sctk_events,
        vec![
            SctkEvent::SeatEvent { variant: SeatEventVariant::New, id: seat },
            SctkEvent::SeatEvent {
                variant: SeatEventVariant::NewCapability(Capability::Keyboard, ObjectId(101)),
                id: seat,
            },
            SctkEvent::SeatEvent {
                variant: SeatEventVariant::RemoveCapability(Capability::Keyboard, ObjectId(101)),
                id: seat,
            },
            SctkEvent::SeatEvent { variant: SeatEventVariant::Remove, id: seat },
        ]
    );
    state.new_output(ObjectId(1));
    state.new_output(ObjectId(1));
    assert_eq!(state.outputs, vec![ObjectId(1)]);
    state.remove_output(ObjectId(1));
    assert!(state.outputs.is_empty());
}

#[test]
fn keyboard_focus_and_modifiers() {
    let (mut state, seat, _, surface) = seated(None);
    let keyboard = ObjectId(102);
    state.new_capability(seat, Capability::Keyboard, keyboard);
    let _ = state.flush();
    let key = KeyEvent { time: 1, raw_code: 30, keysym: 97 };

    state.keyboard_event(keyboard, KeyboardEventVariant::Press(key), 1);
    assert!(state.sctk_events.is_empty());
    assert_eq!(state.seats[0].last_kbd_press.map(|p| p.serial), Some(1));

    state.keyboard_event(keyboard, KeyboardEventVariant::Enter(surface), 2);
    state.keyboard_event(keyboard, KeyboardEventVariant::Release(key), 3);
    state.keyboard_event(keyboard, KeyboardEventVariant::Leave(surface), 4);
    assert_eq!(state.seats[0].kbd_focus, None);
    assert_eq!(
        state.sctk_events,
        vec![
            SctkEvent::KeyboardEvent {
                variant: KeyboardEventVariant::Enter(surface),
                kbd_id: keyboard,
                seat_id: seat,
                surface,
            },
            SctkEvent::KeyboardEvent {
                variant: KeyboardEventVariant::Release(key),
                kbd_id: keyboard,
                seat_id: seat,
                surface,
            },
            SctkEvent::KeyboardEvent {
                variant: KeyboardEventVariant::Leave(surface),
                kbd_id: keyboard,
                seat_id: seat,
                surface,
            },
        ]
    );
    state.keyboard_event(ObjectId(555), KeyboardEventVariant::Press(key), 5);
    assert_eq!(state.sctk_events.len(), 3);
}

#[test]
fn fingers_are_followed() {
    let (mut state, seat, _, surface) = seated(None);
    let touch = ObjectId(103);
    state.new_capability(seat, Capability::Touch, touch);
    let _ = state.flush();
    let down = TouchEventVariant::Down { serial: 1, time: 2, surface, id: -3, position: at(1, 2) };
    state.touch_event(touch, down);
    state.touch_event(touch, TouchEventVariant::Motion { time: 3, id: -3, position: at(5, 6) });
    state.touch_event(touch, TouchEventVariant::Motion { time: 3, id: 4, position: at(9, 9) });
    assert_eq!(
        state.touch_points.entries,
        vec![(2147483645, TouchPoint { surface, position: at(5, 6) })]
    );
    assert_eq!(state.seats[0].last_touch_down.map(|d| (d.time, d.id, d.serial)), Some((2, -3, 1)));
    state.touch_event(touch, TouchEventVariant::Up { serial: 4, time: 5, id: -3 });
    assert!(state.touch_points.entries.is_empty());
    state.touch_event(touch, down);
    state.touch_event(touch, TouchEventVariant::Cancel);
    assert!(state.touch_points.entries.is_empty());
    assert_eq!(state.sctk_events.len(), 6);
    assert_eq!(
        state.sctk_events[0],
        SctkEvent::TouchEvent { variant: down, touch_id: touch, seat_id: seat }
    );
}
