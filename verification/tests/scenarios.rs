use surface_coordinator::event_loop::{Action, Advertised, SctkEventLoop};
use surface_coordinator::geometry::{Fixed, LogicalSize, Point, ScaleFactor};
use surface_coordinator::input::{
    KeyEvent, KeyboardEventVariant, PointerEvent, PointerEventKind, WindowEvent, BTN_LEFT,
};
use surface_coordinator::request::Request;
use surface_coordinator::sctk_event::{PopupEventVariant, SctkEvent};
use surface_coordinator::seat::Capability;
use surface_coordinator::shell::{
    Anchor, CursorIcon, Edge, LayerSurfaceConfigure, ObjectId, ResizeEdge, SctkPopupSettings,
    SctkPositioner,
};
use surface_coordinator::geometry::Rectangle;
use surface_coordinator::state::{Globals, SctkState};
use surface_coordinator::surface::WpViewport;
use surface_coordinator::wayland;
use surface_coordinator::wayland::layer_surface::SctkLayerSurfaceSettings;
use surface_coordinator::wayland::window::SctkWindowSettings;
use surface_coordinator::window::Id;

fn all_globals() -> Globals {
    Globals {
        layer_shell: true,
        session_lock: true,
        activation: true,
        viewporter: true,
        fractional_scaling: true,
    }
}

fn at(x: i32, y: i32) -> Point {
    Point { x: Fixed::from_pixels(x).unwrap(), y: Fixed::from_pixels(y).unwrap() }
}

fn window(state: &mut SctkState, id: Id, width: u32, height: u32, border: Option<u32>) -> ObjectId {
    let mut settings = SctkWindowSettings::new(id);
    settings.size = LogicalSize { width, height };
    settings.resizable = border;
    let (_, surface, _) = state.get_window(settings);
    surface
}

fn positioner(size: Option<(u32, u32)>) -> SctkPositioner {
    SctkPositioner {
        size,
        anchor_rect: Rectangle { x: 0, y: 0, width: 1, height: 1 },
        anchor: Edge::Center,
        gravity: Edge::Center,
        constraint_adjustment: 15,
        offset: (0, 0),
        reactive: false,
    }
}

fn popup(state: &mut SctkState, id: Id, parent: Id) -> ObjectId {
    let made = state
        .get_popup(SctkPopupSettings {
            parent,
            id,
            positioner: positioner(Some((100, 50))),
            parent_size: None,
            grab: false,
        })
        .unwrap();
    made.3
}

#[test]
fn border_of_a_window_takes_enter_and_press() {
    let mut state = SctkState::new(all_globals());
    let seat = ObjectId(100);
    let pointer = ObjectId(101);
    state.new_seat(seat);
    state.new_capability(seat, Capability::Pointer, pointer);
    let a = window(&mut state, Id(1), 800, 600, Some(8));
    let _ = state.flush();

    let enter = PointerEvent {
        surface: a,
        position: at(4, 4),
        kind: PointerEventKind::Enter { serial: 1 },
    };
    state.pointer_frame(pointer, &vec![enter]);
    assert_eq!(state.requests, vec![Request::SetCursor { pointer, icon: CursorIcon::NwResize }]);
    assert_eq!(state.seats[0].active_icon, Some(CursorIcon::NwResize));
    assert_eq!(state.sctk_events, vec![SctkEvent::Winit(a, WindowEvent::CursorEntered)]);
    for event in &state.sctk_events {
        assert!(!matches!(event, SctkEvent::PointerEvent { .. }));
        assert!(!matches!(event, SctkEvent::Winit(_, WindowEvent::CursorMoved { .. })));
    }
    let _ = state.flush();

    let press = PointerEvent {
        surface: a,
        position: at(4, 4),
        kind: PointerEventKind::Press { time: 10, button: BTN_LEFT, serial: 7 },
    };
    state.pointer_frame(pointer, &vec![press]);
    assert_eq!(
        state.requests,
        vec![Request::Resize { surface: a, seat, serial: 7, edge: ResizeEdge::TopLeft }]
    );
    assert!(state.sctk_events.is_empty());
}

#[test]
fn layer_surface_keeps_its_viewport_when_the_scale_changes() {
    let mut state = SctkState::new(all_globals());
    let mut settings = SctkLayerSurfaceSettings::new(Id(5), String::from("panel"));
    settings.anchor = Anchor::top().union(Anchor::bottom());
    settings.size = Some((None, Some(100)));
    let (id, surface, _) = state.get_layer_surface(settings).unwrap();
    assert_eq!(id, Id(5));
    assert_eq!(state.layer_surfaces[0].requested_size, (Some(1), None));

    state.configure_layer(surface, LayerSurfaceConfigure { new_size: (1920, 100) });
    let _ = state.flush();
    state.scale_factor_changed(surface, ScaleFactor(240), false);

    let size = LogicalSize { width: 1920, height: 100 };
    assert_eq!(state.layer_surfaces[0].wp_viewport, Some(WpViewport { destination: Some(size) }));
    assert_eq!(state.layer_surfaces[0].current_size, Some(size));
    assert_eq!(state.layer_surfaces[0].common.fractional_scale, Some(ScaleFactor(240)));
    assert_eq!(
        state.sctk_events,
        vec![SctkEvent::SurfaceScaleFactorChanged {
            scale: ScaleFactor(240),
            viewport: Some(WpViewport { destination: Some(size) }),
            surface,
            id: Id(5),
        }]
    );
    assert!(state.requests.is_empty());
}

#[test]
fn popup_goes_after_the_popup_placed_against_it() {
    let mut state = SctkState::new(all_globals());
    let a = window(&mut state, Id(1), 800, 600, None);
    let outer = popup(&mut state, Id(2), Id(1));
    let inner = popup(&mut state, Id(3), Id(2));
    let _ = state.flush();

    state.handle_action(wayland::Action::Popup(wayland::popup::Action::Destroy { id: Id(2) }));

    assert_eq!(
        state.sctk_events,
        vec![
            SctkEvent::PopupEvent {
                variant: PopupEventVariant::Done,
                toplevel_id: a,
                parent_id: outer,
                id: inner,
            },
            SctkEvent::PopupEvent {
                variant: PopupEventVariant::Done,
                toplevel_id: a,
                parent_id: a,
                id: outer,
            },
        ]
    );
    assert_eq!(
        state.requests,
        vec![Request::DestroyPopup { surface: inner }, Request::DestroyPopup { surface: outer }]
    );
    assert!(state.popups.is_empty());
}

#[test]
fn changes_of_one_wake_up_are_committed_once() {
    let mut state = SctkState::new(all_globals());
    let a = window(&mut state, Id(1), 800, 600, None);
    let _ = state.flush();

    state.handle_action(wayland::Action::Window(wayland::window::Action::Title {
        id: Id(1),
        title: String::from("x"),
    }));
    state.handle_action(wayland::Action::Window(wayland::window::Action::Size {
        id: Id(1),
        width: 640,
        height: 480,
    }));
    state.handle_action(wayland::Action::Window(wayland::window::Action::AppId {
        id: Id(1),
        app_id: String::from("id"),
    }));
    let out = state.flush();

    assert_eq!(
        out.requests,
        vec![
            Request::SetTitle { surface: a, title: String::from("x") },
            Request::SetWindowGeometry { surface: a, x: 0, y: 0, width: 640, height: 480 },
            Request::SetViewportDestination { surface: a, width: 640, height: 480 },
            Request::SetAppId { surface: a, app_id: String::from("id") },
            Request::Commit { surface: a },
        ]
    );
    let commits = out.requests.iter().filter(|r| **r == Request::Commit { surface: a }).count();
    assert_eq!(commits, 1);
    assert_eq!(state.windows[0].current_size, LogicalSize { width: 640, height: 480 });
    assert!(state.to_commit.entries.is_empty());
}

#[test]
fn unlock_waits_once_and_ends_the_lock() {
    let mut state = SctkState::new(all_globals());
    let output = ObjectId(50);
    state.new_output(output);
    state.handle_action(wayland::Action::SessionLock(wayland::session_lock::Action::Lock));
    state.handle_action(wayland::Action::SessionLock(wayland::session_lock::Action::LockSurface {
        id: Id(9),
        output,
    }));
    assert_eq!(state.lock_surfaces.len(), 1);
    let surface = state.lock_surfaces[0].session_lock_surface;
    let _ = state.flush();

    state.handle_action(wayland::Action::SessionLock(wayland::session_lock::Action::Unlock));
    assert_eq!(
        state.requests,
        vec![Request::DestroyLockSurface { surface }, Request::Unlock, Request::Roundtrip]
    );
    assert_eq!(
        state.sctk_events,
        vec![SctkEvent::SessionLockSurfaceDone { surface }, SctkEvent::SessionUnlocked]
    );
    assert!(!state.session_lock);
    assert!(state.lock_surfaces.is_empty());
    let _ = state.flush();

    let before = state.clone();
    state.handle_action(wayland::Action::SessionLock(wayland::session_lock::Action::LockSurface {
        id: Id(10),
        output,
    }));
    assert_eq!(state, before);
    assert_eq!(state.get_lock_surface(Id(10), output), None);

    state.handle_action(wayland::Action::SessionLock(wayland::session_lock::Action::Lock));
    assert!(state.get_lock_surface(Id(10), output).is_some());
}

#[test]
fn only_the_active_seat_types() {
    let mut state = SctkState::new(all_globals());
    let a = window(&mut state, Id(1), 800, 600, None);
    let (seat1, seat2) = (ObjectId(100), ObjectId(200));
    let keyboard = ObjectId(201);
    state.new_seat(seat1);
    state.new_seat(seat2);
    state.new_capability(seat2, Capability::Keyboard, keyboard);
    state.keyboard_event(keyboard, KeyboardEventVariant::Enter(a), 1);
    let _ = state.flush();

    let key = KeyEvent { time: 5, raw_code: 30, keysym: 97 };
    state.keyboard_event(keyboard, KeyboardEventVariant::Press(key), 2);
    assert!(state.sctk_events.is_empty());
    assert_eq!(state.seats[1].last_kbd_press.map(|p| p.serial), Some(2));

    state.remove_seat(seat1);
    let _ = state.flush();
    state.keyboard_event(keyboard, KeyboardEventVariant::Press(key), 3);
    assert_eq!(
        state.sctk_events,
        vec![SctkEvent::KeyboardEvent {
            variant: KeyboardEventVariant::Press(key),
            kbd_id: keyboard,
            seat_id: seat2,
            surface: a,
        }]
    );
}

#[test]
fn dispatcher_starts_with_what_the_compositor_offers() {
    let advertised = Advertised {
        compositor: Some(6),
        subcompositor: Some(1),
        shm: Some(1),
        xdg_wm_base: Some(5),
        layer_shell: None,
        session_lock: Some(1),
        activation: None,
        viewporter: Some(1),
        fractional_scale: Some(1),
        dmabuf: Some(1),
        alpha_modifier: Some(1),
    };
    let mut event_loop = SctkEventLoop::new(advertised).unwrap();
    assert_eq!(
        event_loop.state.globals,
        Globals {
            layer_shell: false,
            session_lock: true,
            activation: false,
            viewporter: true,
            fractional_scaling: true,
        }
    );
    event_loop.state.handle(Action::Ready);
    let out = event_loop.state.flush();
    assert_eq!(out.events.len(), 1);
    assert!(matches!(out.events[0], SctkEvent::Subcompositor(s) if !s.wp_dmabuf && s.wp_alpha_modifier));
}
