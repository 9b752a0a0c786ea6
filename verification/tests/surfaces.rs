use surface_coordinator::geometry::{LogicalSize, Rectangle, ScaleFactor};
use surface_coordinator::handlers::Role;
use surface_coordinator::request::Request;
use surface_coordinator::sctk_event::{
    LayerSurfaceEventVariant, PopupEventVariant, SctkEvent, WindowEventVariant,
};
use surface_coordinator::seat::Capability;
use surface_coordinator::shell::{
    Anchor, ConfigureKind, DecorationMode, Edge, IcedMargin, IcedOutput, KeyboardInteractivity,
    Layer, LayerSurfaceConfigure, ObjectId, PopupConfigure, ResizeEdge, SctkPopupSettings,
    SctkPositioner, SessionLockSurfaceConfigure, WindowConfigure, WindowDecorations,
    WindowManagerCapabilities, WindowState,
};
use surface_coordinator::state::{
    GlobalError, Globals, LayerSurfaceCreationError, PopupCreationError, SctkState,
};
use surface_coordinator::surface::{Common, SctkSurface, SctkWindow, WpViewport};
use surface_coordinator::wayland;
use surface_coordinator::wayland::layer_surface::SctkLayerSurfaceSettings;
use surface_coordinator::wayland::window::{limit_or_none, Limits, SctkWindowSettings};
use surface_coordinator::window::Id;
use surface_coordinator::input::{PointerEvent, PointerEventKind, KeyEvent, KeyboardEventVariant};
use surface_coordinator::geometry::{Fixed, Point};

fn globals(scaling: bool) -> Globals {
    Globals {
        layer_shell: true,
        session_lock: true,
        activation: true,
        viewporter: scaling,
        fractional_scaling: scaling,
    }
}

fn configure(width: Option<u32>, height: Option<u32>, state: u16) -> WindowConfigure {
    WindowConfigure {
        new_size: (width, height),
        suggested_bounds: None,
        decoration_mode: DecorationMode::Client,
        state: WindowState(state),
        capabilities: WindowManagerCapabilities(15),
    }
}

fn positioner(size: Option<(u32, u32)>) -> SctkPositioner {
    SctkPositioner {
        size,
        anchor_rect: Rectangle { x: 1, y: 2, width: 3, height: 4 },
        anchor: Edge::BottomLeft,
        gravity: Edge::BottomRight,
        constraint_adjustment: 15,
        offset: (5, 6),
        reactive: true,
    }
}

#[test]
fn window_is_created_in_order() {
    let mut state = SctkState::new(globals(true));
    let mut settings = SctkWindowSettings::new(Id(1));
    settings.app_id = Some(String::from("app"));
    settings.title = Some(String::from("title"));
    settings.xdg_activation_token = Some(String::from("token"));
    let (id, surface, common) = state.get_window(settings);
    assert_eq!((id, surface), (Id(1), ObjectId(1)));
    assert_eq!(common.size, LogicalSize { width: 1024, height: 768 });
    assert_eq!(
        state.requests,
        vec![
            Request::CreateSurface { surface },
            Request::CreateWindow { surface, decorations: WindowDecorations::RequestClient },
            Request::SetAppId { surface, app_id: String::from("app") },
            Request::SetMinSize { surface, size: Some((1, 1)) },
            Request::SetMaxSize { surface, size: Some((1920, 1080)) },
            Request::SetTitle { surface, title: String::from("title") },
            Request::SetWindowGeometry { surface, x: 0, y: 0, width: 1024, height: 768 },
            Request::Commit { surface },
            Request::Activate { surface, token: String::from("token") },
            Request::GetViewport { surface },
            Request::GetFractionalScale { surface },
        ]
    );
    assert_eq!(
        state.windows,
        vec![SctkWindow {
            id: Id(1),
            window: surface,
            scale_factor: None,
            requested_size: Some(LogicalSize { width: 1024, height: 768 }),
            current_size: LogicalSize { width: 1024, height: 768 },
            last_configure: None,
            resizable: Some(8),
            wp_fractional_scale: true,
            wp_viewport: Some(WpViewport { destination: None }),
        }]
    );
    assert_eq!(state.id_map.entries, vec![(1, Id(1))]);
    assert_eq!(state.find_surface(surface), Some(Role::Window(0)));
    assert_eq!(state.window_surface(Id(1)), Some(surface));
    assert_eq!(state.window_surface(Id(2)), None);
}

#[test]
fn bare_window_asks_for_little() {
    let mut state = SctkState::new(Globals {
        layer_shell: false,
        session_lock: false,
        activation: false,
        viewporter: false,
        fractional_scaling: false,
    });
    let mut settings = SctkWindowSettings::new(Id(1));
    settings.size = LogicalSize { width: 0, height: 0 };
    settings.client_decorations = false;
    settings.size_limits = Limits { min: (0, 5), max: (70000, 5) };
    settings.xdg_activation_token = Some(String::from("token"));
    let (_, surface, common) = state.get_window(settings);
    assert_eq!(common.size, LogicalSize { width: 1, height: 1 });
    assert_eq!(
        state.requests,
        vec![
            Request::CreateSurface { surface },
            Request::CreateWindow { surface, decorations: WindowDecorations::RequestServer },
            Request::SetWindowGeometry { surface, x: 0, y: 0, width: 1, height: 1 },
            Request::Commit { surface },
        ]
    );
    assert_eq!(state.windows[0].wp_viewport, None);
    assert!(!state.windows[0].wp_fractional_scale);
}

#[test]
fn size_limits_that_cannot_be_named() {
    assert_eq!(limit_or_none((1, 1)), Some((1, 1)));
    assert_eq!(limit_or_none((65535, 65535)), Some((65535, 65535)));
    assert_eq!(limit_or_none((65536, 1)), None);
    assert_eq!(limit_or_none((1, 65536)), None);
    assert_eq!(limit_or_none((0, 1)), None);
    assert_eq!(limit_or_none((1, 0)), None);
}

#[test]
fn first_configure_of_a_window() {
    let mut state = SctkState::new(globals(true));
    let (_, surface, _) = state.get_window(SctkWindowSettings::new(Id(1)));
    let _ = state.flush();
    let first = configure(Some(800), None, 2);
    state.configure(surface, first);
    let size = LogicalSize { width: 800, height: 768 };
    assert_eq!(
        state.requests,
        vec![
            Request::SetWindowGeometry { surface, x: 0, y: 0, width: 800, height: 768 },
            Request::SetViewportDestination { surface, width: 800, height: 768 },
        ]
    );
    assert_eq!(
        state.sctk_events,
        vec![
            SctkEvent::WindowEvent { variant: WindowEventVariant::StateChanged(WindowState(2)), id: surface },
            SctkEvent::WindowEvent {
                variant: WindowEventVariant::WmCapabilities(WindowManagerCapabilities(15)),
                id: surface,
            },
            SctkEvent::WindowEvent {
                variant: WindowEventVariant::Configure(size, first, surface, true),
                id: surface,
            },
            SctkEvent::Frame(surface),
        ]
    );
    assert_eq!(state.windows[0].current_size, size);
    assert_eq!(state.windows[0].wp_viewport, Some(WpViewport { destination: Some(size) }));
    let _ = state.flush();

    let second = configure(Some(0), Some(0), 2);
    state.configure(surface, second);
    let one = LogicalSize { width: 1, height: 1 };
    assert_eq!(state.windows[0].current_size, one);
    assert_eq!(
        state.sctk_events,
        vec![
            SctkEvent::WindowEvent {
                variant: WindowEventVariant::Configure(one, second, surface, false),
                id: surface,
            },
            SctkEvent::Frame(surface),
        ]
    );
}

#[test]
fn configure_that_changes_nothing_still_sets_the_viewport() {
    let mut state = SctkState::new(globals(true));
    let (_, surface, _) = state.get_window(SctkWindowSettings::new(Id(1)));
    let _ = state.flush();
    state.configure(surface, configure(None, None, 0));
    assert_eq!(
        state.requests,
        vec![Request::SetViewportDestination { surface, width: 1024, height: 768 }]
    );
    let _ = state.flush();
    state.configure(surface, configure(Some(1024), Some(768), 0));
    assert!(state.requests.is_empty());
    state.configure(ObjectId(99), configure(None, None, 0));
    state.request_close(ObjectId(99));
    assert_eq!(state.sctk_events.len(), 2);
    state.request_close(surface);
    assert_eq!(
        state.sctk_events.last(),
        Some(&SctkEvent::WindowEvent { variant: WindowEventVariant::Close, id: surface })
    );
}

#[test]
fn layer_surface_is_created_in_order() {
    let mut state = SctkState::new(globals(false));
    let mut settings = SctkLayerSurfaceSettings::new(Id(2), String::from("bar"));
    settings.layer = Layer::Overlay;
    settings.anchor = Anchor::left().union(Anchor::right()).union(Anchor::top());
    settings.size = Some((Some(500), Some(0)));
    settings.pointer_interactivity = false;
    settings.output = IcedOutput::Output(ObjectId(70));
    settings.margin = IcedMargin { top: 1, right: 2, bottom: 3, left: 4 };
    settings.exclusive_zone = 30;
    settings.keyboard_interactivity = KeyboardInteractivity::OnDemand;
    let (id, surface, common) = state.get_layer_surface(settings).unwrap();
    assert_eq!(id, Id(2));
    assert_eq!(common, Common {
        fractional_scale: None,
        has_focus: false,
        ime_pos: surface_coordinator::geometry::LogicalPosition { x: 0, y: 0 },
        ime_size: LogicalSize { width: 0, height: 0 },
        size: LogicalSize { width: 1, height: 1 },
    });
    assert_eq!(
        state.requests,
        vec![
            Request::CreateSurface { surface },
            Request::CreateLayerSurface {
                surface,
                layer: Layer::Overlay,
                namespace: String::from("bar"),
                output: Some(ObjectId(70)),
            },
            Request::SetAnchor {
                surface,
                anchor: Anchor { top: true, bottom: false, left: true, right: true },
            },
            Request::SetKeyboardInteractivity {
                surface,
                keyboard_interactivity: KeyboardInteractivity::OnDemand,
            },
            Request::SetMargin { surface, margin: IcedMargin { top: 1, right: 2, bottom: 3, left: 4 } },
            Request::SetLayerSize { surface, width: 0, height: 1 },
            Request::SetExclusiveZone { surface, exclusive_zone: 30 },
            Request::SetEmptyInputRegion { surface },
            Request::Commit { surface },
        ]
    );
    assert_eq!(state.layer_surfaces[0].requested_size, (None, Some(1)));
    assert_eq!(state.layer_surface(Id(2)), Some(surface));
}

#[test]
fn layer_surface_needs_a_layer_shell() {
    let mut state = SctkState::new(Globals {
        layer_shell: false,
        session_lock: true,
        activation: true,
        viewporter: true,
        fractional_scaling: true,
    });
    let before = state.clone();
    let made = state.get_layer_surface(SctkLayerSurfaceSettings::new(Id(2), String::from("bar")));
    assert_eq!(made, Err(LayerSurfaceCreationError::LayerShellNotSupported));
    assert_eq!(state, before);
    state.handle_action(wayland::Action::LayerSurface(wayland::layer_surface::Action::LayerSurface {
        builder: SctkLayerSurfaceSettings::new(Id(2), String::from("bar")),
    }));
    assert_eq!(state, before);
}

#[test]
fn layer_surface_actions() {
    let mut state = SctkState::new(globals(true));
    state.handle_action(wayland::Action::LayerSurface(wayland::layer_surface::Action::LayerSurface {
        builder: SctkLayerSurfaceSettings::new(Id(2), String::from("bar")),
    }));
    let surface = state.layer_surfaces[0].surface;
    assert_eq!(
        state.sctk_events,
        vec![SctkEvent::LayerSurfaceEvent {
            variant: LayerSurfaceEventVariant::Created(surface, Id(2), state.layer_surfaces[0].common),
            id: surface,
        }]
    );
    let _ = state.flush();
    let act = |state: &mut SctkState, action| {
        state.handle_action(wayland::Action::LayerSurface(action));
    };

    act(&mut state, wayland::layer_surface::Action::Size { id: Id(2), width: Some(300), height: None });
    assert_eq!(state.layer_surfaces[0].requested_size, (Some(300), None));
    assert!(state.sctk_events.is_empty());
    act(&mut state, wayland::layer_surface::Action::Anchor {
        id: Id(2),
        anchor: Anchor::left().union(Anchor::right()),
    });
    assert_eq!(state.layer_surfaces[0].requested_size, (None, None));
    act(&mut state, wayland::layer_surface::Action::Size { id: Id(2), width: Some(300), height: Some(40) });
    assert_eq!(state.layer_surfaces[0].requested_size, (None, Some(40)));
    act(&mut state, wayland::layer_surface::Action::ExclusiveZone { id: Id(2), exclusive_zone: -1 });
    act(&mut state, wayland::layer_surface::Action::Margin {
        id: Id(2),
        margin: IcedMargin { top: 9, right: 0, bottom: 0, left: 0 },
    });
    act(&mut state, wayland::layer_surface::Action::KeyboardInteractivity {
        id: Id(2),
        keyboard_interactivity: KeyboardInteractivity::Exclusive,
    });
    act(&mut state, wayland::layer_surface::Action::Layer { id: Id(2), layer: Layer::Bottom });
    act(&mut state, wayland::layer_surface::Action::Layer { id: Id(3), layer: Layer::Background });
    assert_eq!(state.layer_surfaces[0].exclusive_zone, -1);
    assert_eq!(state.layer_surfaces[0].margin.top, 9);
    assert_eq!(state.layer_surfaces[0].keyboard_interactivity, KeyboardInteractivity::Exclusive);
    assert_eq!(state.layer_surfaces[0].layer, Layer::Bottom);
    let out = state.flush();
    assert_eq!(
        out.requests,
        vec![
            Request::SetLayerSize { surface, width: 300, height: 0 },
            Request::SetAnchor {
                surface,
                anchor: Anchor { top: false, bottom: false, left: true, right: true },
            },
            Request::SetLayerSize { surface, width: 0, height: 0 },
            Request::SetLayerSize { surface, width: 0, height: 40 },
            Request::SetExclusiveZone { surface, exclusive_zone: -1 },
            Request::SetMargin { surface, margin: IcedMargin { top: 9, right: 0, bottom: 0, left: 0 } },
            Request::SetKeyboardInteractivity {
                surface,
                keyboard_interactivity: KeyboardInteractivity::Exclusive,
            },
            Request::SetLayer { surface, layer: Layer::Bottom },
            Request::Commit { surface },
        ]
    );

    state.configure_layer(surface, LayerSurfaceConfigure { new_size: (1920, 40) });
    let _ = state.flush();
    act(&mut state, wayland::layer_surface::Action::Size { id: Id(2), width: None, height: Some(60) });
    assert_eq!(
        state.sctk_events,
        vec![SctkEvent::LayerSurfaceEvent {
            variant: LayerSurfaceEventVariant::Configure(
                LayerSurfaceConfigure { new_size: (1920, 60) },
                surface,
                false
            ),
            id: surface,
        }]
    );
    let _ = state.flush();
    act(&mut state, wayland::layer_surface::Action::Destroy(Id(2)));
    assert!(state.layer_surfaces.is_empty());
    assert!(state.id_map.entries.is_empty());
    assert_eq!(state.requests, vec![Request::DestroyLayerSurface { surface }]);
    assert_eq!(
        state.sctk_events,
        vec![SctkEvent::LayerSurfaceEvent { variant: LayerSurfaceEventVariant::Done, id: surface }]
    );
}

#[test]
fn compositor_closes_a_layer_surface() {
    let mut state = SctkState::new(globals(true));
    let (_, surface, _) =
        state.get_layer_surface(SctkLayerSurfaceSettings::new(Id(2), String::from("bar"))).unwrap();
    let _ = state.flush();
    state.closed_layer(ObjectId(42));
    assert_eq!(state.layer_surfaces.len(), 1);
    state.closed_layer(surface);
    assert!(state.layer_surfaces.is_empty());
    assert_eq!(state.requests, vec![Request::DestroyLayerSurface { surface }]);
}

#[test]
fn popup_needs_a_parent_and_a_size() {
    let mut state = SctkState::new(globals(true));
    let settings = |parent, size| SctkPopupSettings {
        parent,
        id: Id(3),
        positioner: positioner(size),
        parent_size: None,
        grab: true,
    };
    let before = state.clone();
    assert_eq!(state.get_popup(settings(Id(1), Some((10, 10)))), Err(PopupCreationError::ParentMissing));
    assert_eq!(state.get_popup(settings(Id(1), None)), Err(PopupCreationError::ParentMissing));
    assert_eq!(state, before);
    let _ = state.get_window(SctkWindowSettings::new(Id(1)));
    let before = state.clone();
    assert_eq!(state.get_popup(settings(Id(1), None)), Err(PopupCreationError::SizeMissing));
    assert_eq!(state, before);
    state.handle_action(wayland::Action::Popup(wayland::popup::Action::Popup {
        popup: settings(Id(1), None),
    }));
    assert_eq!(state, before);
}

#[test]
fn popup_is_created_in_order() {
    let mut state = SctkState::new(globals(true));
    let (seat, keyboard, pointer) = (ObjectId(100), ObjectId(101), ObjectId(102));
    state.new_seat(seat);
    state.new_capability(seat, Capability::Keyboard, keyboard);
    state.new_capability(seat, Capability::Pointer, pointer);
    let (_, layer, _) =
        state.get_layer_surface(SctkLayerSurfaceSettings::new(Id(1), String::from("bar"))).unwrap();
    let (_, window, _) = state.get_window(SctkWindowSettings::new(Id(1)));
    state.keyboard_event(keyboard, KeyboardEventVariant::Enter(window), 1);
    state.keyboard_event(
        keyboard,
        KeyboardEventVariant::Press(KeyEvent { time: 1, raw_code: 1, keysym: 1 }),
        21,
    );
    let _ = state.flush();

    let mut settings = SctkPopupSettings {
        parent: Id(1),
        id: Id(3),
        positioner: positioner(Some((120, 80))),
        parent_size: None,
        grab: true,
    };
    settings.positioner.constraint_adjustment = 64;
    let (id, parent, toplevel, surface, common) = state.get_popup(settings).unwrap();
    assert_eq!((id, parent, toplevel), (Id(3), layer, layer));
    assert_eq!(common.size, LogicalSize { width: 120, height: 80 });
    assert_eq!(
        state.requests,
        vec![
            Request::CreateSurface { surface },
            Request::CreatePopup {
                surface,
                parent: SctkSurface::LayerSurface(layer),
                positioner: settings.positioner,
                adjustment: None,
            },
            Request::Grab { surface, seat, serial: 21 },
            Request::Commit { surface },
            Request::GetViewport { surface },
            Request::SetViewportDestination { surface, width: 120, height: 80 },
            Request::GetFractionalScale { surface },
        ]
    );
    let _ = state.flush();

    state.pointer_frame(
        pointer,
        &vec![PointerEvent {
            surface: window,
            position: Point { x: Fixed(25600), y: Fixed(25600) },
            kind: PointerEventKind::Press { time: 3, button: 0x110, serial: 33 },
        }],
    );
    let _ = state.flush();
    settings.id = Id(4);
    settings.parent = Id(3);
    settings.positioner.constraint_adjustment = 63;
    state.handle_action(wayland::Action::Popup(wayland::popup::Action::Popup { popup: settings }));
    let nested = state.popups[1].popup;
    assert_eq!(state.popups[1].data.parent, SctkSurface::Popup(surface));
    assert_eq!(state.popups[1].data.toplevel, layer);
    assert_eq!(state.requests[1], Request::CreatePopup {
        surface: nested,
        parent: SctkSurface::Popup(surface),
        positioner: settings.positioner,
        adjustment: Some(63),
    });
    assert_eq!(state.requests[2], Request::Grab { surface: nested, seat, serial: 33 });
    assert_eq!(
        state.sctk_events,
        vec![SctkEvent::PopupEvent {
            variant: PopupEventVariant::Created(nested, Id(4), state.popups[1].common),
            toplevel_id: layer,
            parent_id: surface,
            id: nested,
        }]
    );
}

#[test]
fn popup_is_placed_anew() {
    let mut state = SctkState::new(globals(true));
    let _ = state.get_window(SctkWindowSettings::new(Id(1)));
    let (_, _, toplevel, surface, _) = state
        .get_popup(SctkPopupSettings {
            parent: Id(1),
            id: Id(3),
            positioner: positioner(Some((120, 80))),
            parent_size: None,
            grab: false,
        })
        .unwrap();
    let _ = state.flush();
    state.handle_action(wayland::Action::Popup(wayland::popup::Action::Size {
        id: Id(3),
        width: 200,
        height: 100,
    }));
    state.handle_action(wayland::Action::Popup(wayland::popup::Action::Grab { id: Id(3) }));
    let mut placed = positioner(Some((200, 100)));
    placed.size = Some((200, 100));
    assert_eq!(state.token_ctr, 1);
    let out = state.flush();
    assert_eq!(
        out.requests,
        vec![
            Request::SetWindowGeometry { surface, x: 0, y: 0, width: 200, height: 100 },
            Request::Reposition { surface, positioner: placed, token: 1 },
            Request::Commit { surface },
        ]
    );
    let answer = PopupConfigure {
        position: (7, 8),
        width: 200,
        height: 100,
        kind: ConfigureKind::Reposition { token: 1 },
    };
    state.configure_popup(surface, answer);
    assert_eq!(
        state.sctk_events,
        vec![
            SctkEvent::PopupEvent {
                variant: PopupEventVariant::Configure(answer, surface, true),
                toplevel_id: toplevel,
                parent_id: toplevel,
                id: surface,
            },
            SctkEvent::PopupEvent {
                variant: PopupEventVariant::RepositionionedPopup { token: 1 },
                toplevel_id: toplevel,
                parent_id: toplevel,
                id: surface,
            },
        ]
    );
    assert_eq!(
        state.requests,
        vec![Request::SetViewportDestination { surface, width: 200, height: 100 }]
    );
    let size = LogicalSize { width: 200, height: 100 };
    assert_eq!(state.popups[0].common.size, size);
    assert_eq!(state.popups[0].wp_viewport, Some(WpViewport { destination: Some(size) }));
    state.configure_popup(
        surface,
        PopupConfigure { position: (0, 0), width: 0, height: -4, kind: ConfigureKind::Initial },
    );
    assert_eq!(state.popups[0].common.size, size);
}

#[test]
fn popup_trees_go_leaves_first() {
    let mut state = SctkState::new(globals(false));
    let _ = state.get_window(SctkWindowSettings::new(Id(1)));
    let mut make = |state: &mut SctkState, id: u64, parent: u64| {
        state
            .get_popup(SctkPopupSettings {
                parent: Id(parent),
                id: Id(id),
                positioner: positioner(Some((10, 10))),
                parent_size: None,
                grab: false,
            })
            .unwrap()
            .3
    };
    let a = make(&mut state, 10, 1);
    let b = make(&mut state, 11, 10);
    let c = make(&mut state, 12, 1);
    let d = make(&mut state, 13, 11);
    let e = make(&mut state, 14, 10);
    let _ = state.flush();

    state.handle_action(wayland::Action::Popup(wayland::popup::Action::Destroy { id: Id(99) }));
    assert_eq!(state.popups.len(), 5);
    state.popup_done(b);
    let done: Vec<ObjectId> = state
        .sctk_events
        .iter()
        .map(|event| match event {
            SctkEvent::PopupEvent { variant: PopupEventVariant::Done, id, .. } => *id,
            _ => panic!("only popups go"),
        })
        .collect();
    assert_eq!(done, vec![d, b]);
    assert_eq!(state.popups.iter().map(|p| p.popup).collect::<Vec<_>>(), vec![a, c, e]);
    let _ = state.flush();

    state.destroy_popup(Id(10));
    assert_eq!(
        state.requests,
        vec![Request::DestroyPopup { surface: e }, Request::DestroyPopup { surface: a }]
    );
    assert_eq!(state.popups.iter().map(|p| p.popup).collect::<Vec<_>>(), vec![c]);
    assert_eq!(state.id_map.entries.len(), 2);
}

#[test]
fn window_actions_need_a_press() {
    let mut state = SctkState::new(globals(false));
    let (seat, pointer) = (ObjectId(100), ObjectId(101));
    state.new_seat(seat);
    state.new_capability(seat, Capability::Pointer, pointer);
    state.handle_action(wayland::Action::Window(wayland::window::Action::Window {
        builder: SctkWindowSettings::new(Id(1)),
    }));
    let surface = state.windows[0].window;
    assert_eq!(
        state.sctk_events.last(),
        Some(&SctkEvent::WindowEvent {
            variant: WindowEventVariant::Created(surface, Id(1)),
            id: surface,
        })
    );
    let _ = state.flush();
    let act = |state: &mut SctkState, action| {
        state.handle_action(wayland::Action::Window(action));
    };
    act(&mut state, wayland::window::Action::InteractiveMove { id: Id(1) });
    act(&mut state, wayland::window::Action::InteractiveResize { id: Id(1), edge: ResizeEdge::Top });
    act(&mut state, wayland::window::Action::ShowWindowMenu { id: Id(1), x: 1, y: 2 });
    assert!(state.requests.is_empty());
    assert!(state.to_commit.entries.is_empty());

    state.pointer_frame(
        pointer,
        &vec![PointerEvent {
            surface,
            position: Point { x: Fixed(25600), y: Fixed(25600) },
            kind: PointerEventKind::Press { time: 3, button: 0x110, serial: 33 },
        }],
    );
    act(&mut state, wayland::window::Action::InteractiveMove { id: Id(1) });
    act(&mut state, wayland::window::Action::InteractiveMove { id: Id(2) });
    act(&mut state, wayland::window::Action::InteractiveResize { id: Id(1), edge: ResizeEdge::Top });
    act(&mut state, wayland::window::Action::ShowWindowMenu { id: Id(1), x: 1, y: 2 });
    act(&mut state, wayland::window::Action::MinSize { id: Id(1), size: Some((10, 10)) });
    act(&mut state, wayland::window::Action::MaxSize { id: Id(1), size: None });
    let out = state.flush();
    assert_eq!(
        out.requests,
        vec![
            Request::Move { surface, seat, serial: 33 },
            Request::Resize { surface, seat, serial: 33, edge: ResizeEdge::Top },
            Request::ShowWindowMenu { surface, seat, serial: 33, x: 1, y: 2 },
            Request::SetMinSize { surface, size: Some((10, 10)) },
            Request::SetMaxSize { surface, size: None },
            Request::Commit { surface },
        ]
    );
}

#[test]
fn window_is_told_of_its_size_once_configured() {
    let mut state = SctkState::new(globals(false));
    let (_, surface, _) = state.get_window(SctkWindowSettings::new(Id(1)));
    let _ = state.flush();
    let resize = |state: &mut SctkState, width, height| {
        state.handle_action(wayland::Action::Window(wayland::window::Action::Size {
            id: Id(1),
            width,
            height,
        }));
    };
    resize(&mut state, 0, 50);
    assert!(state.sctk_events.is_empty());
    assert_eq!(state.windows[0].current_size, LogicalSize { width: 1, height: 50 });
    assert_eq!(state.windows[0].requested_size, Some(LogicalSize { width: 1, height: 50 }));
    state.configure(surface, configure(None, None, 0));
    let _ = state.flush();
    resize(&mut state, 30, 50);
    assert_eq!(
        state.sctk_events,
        vec![SctkEvent::WindowEvent {
            variant: WindowEventVariant::Size(LogicalSize { width: 30, height: 50 }, surface, false),
            id: surface,
        }]
    );
    let _ = state.flush();
    state.handle_action(wayland::Action::Window(wayland::window::Action::Destroy(Id(1))));
    state.handle_action(wayland::Action::Window(wayland::window::Action::Destroy(Id(1))));
    assert!(state.windows.is_empty());
    assert_eq!(
        state.requests,
        vec![Request::DestroyWindow { surface }, Request::ClearDndDestinations { surface }]
    );
    assert_eq!(
        state.sctk_events,
        vec![SctkEvent::WindowEvent { variant: WindowEventVariant::Close, id: surface }]
    );
}

#[test]
fn whole_number_scale_yields_to_the_fractional_one() {
    let mut state = SctkState::new(globals(true));
    let (_, window, _) = state.get_window(SctkWindowSettings::new(Id(1)));
    let _ = state.flush();
    let before = state.clone();
    state.scale_factor_changed(window, ScaleFactor::from_integer(2), true);
    assert_eq!(state, before);
    state.scale_factor_changed(window, ScaleFactor(180), false);
    assert_eq!(state.windows[0].scale_factor, Some(ScaleFactor(180)));
    assert!(state.requests.is_empty());
    state.scale_factor_changed(window, ScaleFactor::from_integer(3), true);
    assert_eq!(state.windows[0].scale_factor, Some(ScaleFactor(180)));
    assert_eq!(state.sctk_events.len(), 1);
    state.scale_factor_changed(ObjectId(77), ScaleFactor(180), false);
    assert_eq!(state.sctk_events.len(), 1);
}

#[test]
fn whole_number_scale_counts_without_a_fractional_one() {
    let mut state = SctkState::new(globals(false));
    let (_, window, _) = state.get_window(SctkWindowSettings::new(Id(1)));
    let (_, _, _, popup, _) = state
        .get_popup(SctkPopupSettings {
            parent: Id(1),
            id: Id(2),
            positioner: positioner(Some((10, 10))),
            parent_size: None,
            grab: false,
        })
        .unwrap();
    let _ = state.flush();
    state.scale_factor_changed(window, ScaleFactor::from_integer(2), true);
    state.scale_factor_changed(popup, ScaleFactor(300), true);
    assert_eq!(
        state.requests,
        vec![
            Request::SetBufferScale { surface: window, scale: 2 },
            Request::SetBufferScale { surface: popup, scale: 2 },
        ]
    );
    assert_eq!(state.windows[0].scale_factor, Some(ScaleFactor(240)));
    assert_eq!(state.popups[0].common.fractional_scale, Some(ScaleFactor(300)));
    assert_eq!(
        state.sctk_events[1],
        SctkEvent::SurfaceScaleFactorChanged {
            scale: ScaleFactor(300),
            viewport: None,
            surface: popup,
            id: Id(2),
        }
    );
}

#[test]
fn lock_surfaces_live_with_the_lock() {
    let mut state = SctkState::new(globals(true));
    assert_eq!(state.get_lock_surface(Id(1), ObjectId(50)), None);
    state.handle_action(wayland::Action::SessionLock(wayland::session_lock::Action::Lock));
    state.handle_action(wayland::Action::SessionLock(wayland::session_lock::Action::Lock));
    assert_eq!(state.requests, vec![Request::Lock]);
    state.locked();
    let (surface, _) = state.get_lock_surface(Id(1), ObjectId(50)).unwrap();
    assert_eq!(
        &state.requests[1..],
        &[
            Request::CreateSurface { surface },
            Request::CreateLockSurface { surface, output: ObjectId(50) },
            Request::GetViewport { surface },
            Request::GetFractionalScale { surface },
        ]
    );
    let _ = state.flush();
    let configure = SessionLockSurfaceConfigure { new_size: (1920, 1080) };
    state.configure_lock_surface(surface, configure);
    assert_eq!(
        state.sctk_events,
        vec![SctkEvent::SessionLockSurfaceConfigure { surface, configure, first: true }]
    );
    assert_eq!(
        state.requests,
        vec![Request::SetViewportDestination { surface, width: 1920, height: 1080 }]
    );
    let _ = state.flush();
    state.handle_action(wayland::Action::SessionLock(
        wayland::session_lock::Action::DestroyLockSurface { id: Id(1) },
    ));
    assert_eq!(state.requests, vec![Request::DestroyLockSurface { surface }]);
    assert_eq!(state.sctk_events, vec![SctkEvent::SessionLockSurfaceDone { surface }]);
    let _ = state.get_lock_surface(Id(2), ObjectId(50)).unwrap();
    let _ = state.flush();
    state.finished();
    assert!(!state.session_lock);
    assert!(state.lock_surfaces.is_empty());
    assert_eq!(state.sctk_events.last(), Some(&SctkEvent::SessionLockFinished));
}

#[test]
fn lock_needs_the_global() {
    let mut state = SctkState::new(Globals {
        layer_shell: true,
        session_lock: false,
        activation: false,
        viewporter: true,
        fractional_scaling: true,
    });
    state.handle_action(wayland::Action::SessionLock(wayland::session_lock::Action::Lock));
    assert!(!state.session_lock);
    assert!(state.requests.is_empty());
    state.handle_action(wayland::Action::SessionLock(wayland::session_lock::Action::Unlock));
    assert_eq!(state.requests, vec![Request::Roundtrip]);
}

#[test]
fn activation_tokens() {
    let mut state = SctkState::new(globals(false));
    let (seat, keyboard) = (ObjectId(100), ObjectId(101));
    state.new_seat(seat);
    state.new_capability(seat, Capability::Keyboard, keyboard);
    let (_, surface, _) = state.get_window(SctkWindowSettings::new(Id(1)));
    let _ = state.flush();
    let ask = |state: &mut SctkState, window| {
        state.handle_action(wayland::Action::Activation(wayland::activation::Action::RequestToken {
            app_id: Some(String::from("app")),
            window,
        }));
    };
    ask(&mut state, None);
    ask(&mut state, Some(Id(1)));
    state.keyboard_event(keyboard, KeyboardEventVariant::Enter(surface), 1);
    state.keyboard_event(
        keyboard,
        KeyboardEventVariant::Press(KeyEvent { time: 1, raw_code: 1, keysym: 1 }),
        8,
    );
    ask(&mut state, Some(Id(1)));
    ask(&mut state, Some(Id(5)));
    state.handle_action(wayland::Action::Activation(wayland::activation::Action::Activate {
        window: Id(1),
        token: String::from("t"),
    }));
    state.handle_action(wayland::Action::Activation(wayland::activation::Action::Activate {
        window: Id(5),
        token: String::from("t"),
    }));
    let app = Some(String::from("app"));
    assert_eq!(
        state.requests,
        vec![
            Request::RequestToken { app_id: app.clone(), seat_and_serial: None, surface: None },
            Request::RequestToken { app_id: app.clone(), seat_and_serial: None, surface: Some(surface) },
            Request::RequestToken {
                app_id: app.clone(),
                seat_and_serial: Some((seat, 8)),
                surface: Some(surface),
            },
            Request::RequestToken { app_id: app, seat_and_serial: None, surface: None },
            Request::Activate { surface, token: String::from("t") },
        ]
    );
    state.new_token(String::from("granted"));
    assert_eq!(
        state.sctk_events.last(),
        Some(&SctkEvent::ActivationToken { token: Some(String::from("granted")) })
    );

    let mut without = SctkState::new(Globals {
        layer_shell: true,
        session_lock: true,
        activation: false,
        viewporter: false,
        fractional_scaling: false,
    });
    ask(&mut without, None);
    assert!(without.requests.is_empty());
    assert_eq!(without.sctk_events, vec![SctkEvent::ActivationToken { token: None }]);
}

#[test]
fn errors_say_what_went_wrong() {
    assert_eq!(PopupCreationError::ParentMissing.message(), "The specified parent is missing");
    assert_eq!(PopupCreationError::SizeMissing.message(), "The specified size is missing");
    assert_eq!(
        PopupCreationError::PositionerCreationFailed(GlobalError::MissingGlobal).message(),
        "Positioner creation failed"
    );
    assert_eq!(
        PopupCreationError::PopupCreationFailed(GlobalError::InvalidVersion { required: 3, available: 1 })
            .message(),
        "Popup creation failed"
    );
    assert_eq!(
        LayerSurfaceCreationError::LayerShellNotSupported.message(),
        "Layer shell is not supported by the compositor"
    );
    assert_eq!(
        LayerSurfaceCreationError::WlSurfaceCreationFailed(GlobalError::MissingGlobal).message(),
        "WlSurface creation failed"
    );
    assert_eq!(
        LayerSurfaceCreationError::LayerSurfaceCreationFailed(GlobalError::MissingGlobal).message(),
        "Layer Surface creation failed"
    );
    assert_eq!(wayland::window::Error::NotSupported.message(), "Not supported");
    assert_eq!(SctkSurface::Popup(ObjectId(4)).wl_surface(), ObjectId(4));
    assert_eq!(SctkSurface::Window(ObjectId(5)).wl_surface(), ObjectId(5));
    assert_eq!(SctkSurface::LayerSurface(ObjectId(6)).wl_surface(), ObjectId(6));
}

#[test]
fn user_interface_reads_scale_and_size() {
    let mut state = SctkState::new(globals(true));
    let (_, window, _) = state.get_window(SctkWindowSettings::new(Id(1)));
    let (_, layer, _) =
        state.get_layer_surface(SctkLayerSurfaceSettings::new(Id(2), String::from("bar"))).unwrap();
    state.scale_factor_changed(window, ScaleFactor(150), false);
    state.configure_layer(layer, LayerSurfaceConfigure { new_size: (640, 32) });
    let read = state.common_of(window).unwrap();
    assert_eq!(read.fractional_scale, Some(ScaleFactor(150)));
    assert_eq!(read.size, LogicalSize { width: 1024, height: 768 });
    assert_eq!(state.common_of(layer).unwrap().size, LogicalSize { width: 640, height: 32 });
    assert_eq!(state.common_of(ObjectId(9)), None);
    assert_eq!(state.id_of(window), Some(Id(1)));
    assert_eq!(state.id_of(layer), Some(Id(2)));
    state.closed_layer(layer);
    assert_eq!(state.id_of(layer), None);
    assert_eq!(Common::default().size, LogicalSize { width: 1, height: 1 });
}

#[test]
fn window_is_maximized_minimized_and_toggled() {
    let mut state = SctkState::new(globals(false));
    let (_, surface, _) = state.get_window(SctkWindowSettings::new(Id(1)));
    let _ = state.flush();
    let act = |state: &mut SctkState, action| {
        state.handle_action(wayland::Action::Window(action));
    };
    act(&mut state, wayland::window::Action::ToggleMaximized { id: Id(1) });
    act(&mut state, wayland::window::Action::ToggleFullscreen { id: Id(1) });
    act(&mut state, wayland::window::Action::Mode(Id(1), surface_coordinator::window::Mode::Hidden));
    act(&mut state, wayland::window::Action::Maximize { id: Id(7) });
    assert!(state.requests.is_empty());
    assert!(state.to_commit.entries.is_empty());

    act(&mut state, wayland::window::Action::Maximize { id: Id(1) });
    act(&mut state, wayland::window::Action::UnsetMaximize { id: Id(1) });
    act(&mut state, wayland::window::Action::Minimize { id: Id(1) });
    act(&mut state, wayland::window::Action::Fullscreen { id: Id(1) });
    act(&mut state, wayland::window::Action::UnsetFullscreen { id: Id(1) });
    act(&mut state, wayland::window::Action::Mode(Id(1), surface_coordinator::window::Mode::Fullscreen));
    act(&mut state, wayland::window::Action::Mode(Id(1), surface_coordinator::window::Mode::Windowed));
    let out = state.flush();
    assert_eq!(
        out.requests,
        vec![
            Request::SetMaximized { surface },
            Request::UnsetMaximized { surface },
            Request::SetMinimized { surface },
            Request::SetFullscreen { surface },
            Request::UnsetFullscreen { surface },
            Request::SetFullscreen { surface },
            Request::UnsetFullscreen { surface },
            Request::Commit { surface },
        ]
    );

    state.configure(surface, configure(None, None, 1));
    let _ = state.flush();
    act(&mut state, wayland::window::Action::ToggleMaximized { id: Id(1) });
    act(&mut state, wayland::window::Action::ToggleFullscreen { id: Id(1) });
    state.configure(surface, configure(None, None, 10));
    act(&mut state, wayland::window::Action::ToggleMaximized { id: Id(1) });
    act(&mut state, wayland::window::Action::ToggleFullscreen { id: Id(1) });
    assert_eq!(
        state.requests,
        vec![
            Request::UnsetMaximized { surface },
            Request::SetFullscreen { surface },
            Request::SetMaximized { surface },
            Request::UnsetFullscreen { surface },
        ]
    );
    assert!(WindowState(3).is_maximized() && WindowState(3).is_fullscreen());
    assert!(!WindowState(12).is_maximized() && !WindowState(12).is_fullscreen());
}
