use surface_coordinator::application::{
    after_present, exit_code, requests_exit, user_force_quit, AfterPresent, Error, Platform,
    SurfaceError,
};
use surface_coordinator::clipboard;
use surface_coordinator::commands;
use surface_coordinator::clipboard::{
    registers_destinations, Action as ClipboardAction, Clipboard, DndDestinationRectangle,
    DndDestinationRectangles, Kind, Null,
};
use surface_coordinator::event::{DndOfferEvent, Event, LayerEvent};
use surface_coordinator::event_loop::{
    can_bind, raw_os_err, Action, Advertised, InitError, RequiredGlobal, SctkEventLoop,
};
use surface_coordinator::geometry::{non_zero, Fixed, LogicalSize, Rectangle, ScaleFactor, Vector};
use surface_coordinator::input::{ElementState, Modifiers, WindowEvent};
use surface_coordinator::request::Request;
use surface_coordinator::sctk_event::SctkEvent;
use surface_coordinator::settings::{Family, Font, Settings};
use surface_coordinator::shell::{Anchor, Edge, ObjectId, SctkPositioner};
use surface_coordinator::state::{Globals, SctkState};
use surface_coordinator::table::Table;
use surface_coordinator::wayland;
use surface_coordinator::wayland::window::{Limits, SctkWindowSettings};
use surface_coordinator::window;
use surface_coordinator::window::Id;

fn everything() -> Advertised {
    Advertised {
        compositor: Some(6),
        subcompositor: Some(1),
        shm: Some(1),
        xdg_wm_base: Some(6),
        layer_shell: Some(4),
        session_lock: Some(1),
        activation: Some(1),
        viewporter: Some(1),
        fractional_scale: Some(1),
        dmabuf: Some(4),
        alpha_modifier: Some(1),
    }
}

#[test]
fn dispatcher_needs_its_globals() {
    let mut advertised = everything();
    advertised.shm = None;
    assert_eq!(
        SctkEventLoop::new(advertised),
        Err(InitError::MissingGlobal(RequiredGlobal::Shm))
    );
    advertised.compositor = Some(0);
    assert_eq!(
        SctkEventLoop::new(advertised),
        Err(InitError::MissingGlobal(RequiredGlobal::Compositor))
    );
    advertised = everything();
    advertised.xdg_wm_base = None;
    assert_eq!(
        SctkEventLoop::new(advertised),
        Err(InitError::MissingGlobal(RequiredGlobal::XdgShell))
    );
    assert!(can_bind(Some(2), 2));
    assert!(!can_bind(Some(1), 2));
    assert!(!can_bind(None, 0));
}

#[test]
fn viewports_serve_fractional_scaling_only() {
    let mut advertised = everything();
    advertised.fractional_scale = None;
    let event_loop = SctkEventLoop::new(advertised).unwrap();
    assert!(!event_loop.state.globals.viewporter);
    assert!(!event_loop.state.globals.fractional_scaling);
    assert_eq!(event_loop.state.sctk_events.len(), 1);

    advertised = everything();
    advertised.subcompositor = None;
    let event_loop = SctkEventLoop::new(advertised).unwrap();
    assert!(event_loop.state.globals.viewporter);
    assert!(event_loop.state.sctk_events.is_empty());
    assert!(event_loop.state.ready);
    assert_eq!(event_loop.state.next_surface, 1);
}

#[test]
fn nothing_is_handed_over_before_the_user_interface_is_ready() {
    let mut state = SctkEventLoop::new(everything()).unwrap().state;
    state.ready = false;
    state.new_output(ObjectId(3));
    let out = state.flush();
    assert!(out.requests.is_empty());
    assert!(out.events.is_empty());
    assert_eq!(state.sctk_events.len(), 2);
    state.handle(Action::Ready);
    let out = state.flush();
    assert_eq!(out.events.len(), 2);
    assert!(state.sctk_events.is_empty());
}

#[test]
fn surface_waits_for_one_frame_at_a_time() {
    let mut state = SctkEventLoop::new(everything()).unwrap().state;
    let (_, surface, _) = state.get_window(SctkWindowSettings::new(Id(1)));
    let _ = state.flush();
    state.handle(Action::RequestRedraw(surface));
    state.handle(Action::RequestRedraw(surface));
    state.handle(Action::PrePresentNotify(surface));
    state.handle(Action::RequestRedraw(ObjectId(88)));
    let out = state.flush();
    assert_eq!(out.requests, vec![Request::Frame { surface }, Request::Commit { surface }]);
    assert_eq!(state.requested_frame.entries, vec![(surface.0, ())]);

    state.handle(Action::Action(wayland::Action::Window(wayland::window::Action::Title {
        id: Id(1),
        title: String::from("t"),
    })));
    let out = state.flush();
    assert_eq!(
        out.requests,
        vec![Request::SetTitle { surface, title: String::from("t") }, Request::Commit { surface }]
    );

    state.frame(ObjectId(88));
    assert!(state.sctk_events.is_empty());
    state.frame(surface);
    state.frame(surface);
    assert_eq!(state.sctk_events, vec![SctkEvent::Winit(surface, WindowEvent::RedrawRequested)]);
    assert!(state.requested_frame.entries.is_empty());
    state.handle(Action::RequestRedraw(surface));
    assert_eq!(state.requests, vec![Request::Frame { surface }]);
}

#[test]
fn commits_come_in_the_order_of_the_first_change() {
    let mut state = SctkEventLoop::new(everything()).unwrap().state;
    let (_, a, _) = state.get_window(SctkWindowSettings::new(Id(1)));
    let (_, b, _) = state.get_window(SctkWindowSettings::new(Id(2)));
    let _ = state.flush();
    let title = |id, text: &str| {
        Action::Action(wayland::Action::Window(wayland::window::Action::Title {
            id: Id(id),
            title: String::from(text),
        }))
    };
    state.handle(title(2, "b"));
    state.handle(title(1, "a"));
    state.handle(title(2, "c"));
    state.handle(title(3, "none"));
    let out = state.flush();
    assert_eq!(
        out.requests,
        vec![
            Request::SetTitle { surface: b, title: String::from("b") },
            Request::SetTitle { surface: a, title: String::from("a") },
            Request::SetTitle { surface: b, title: String::from("c") },
            Request::Commit { surface: b },
            Request::Commit { surface: a },
        ]
    );
    assert!(state.flush().requests.is_empty());
}

#[test]
fn tables_keep_one_value_under_a_key() {
    let mut table: Table<u32> = Table::new();
    table.insert(5, 50);
    table.insert(3, 30);
    table.insert(5, 51);
    assert_eq!(table.entries, vec![(5, 51), (3, 30)]);
    assert_eq!(table.len(), 2);
    assert_eq!(table.get(5), Some(51));
    assert_eq!(table.get(4), None);
    assert_eq!(table.position(3), Some(1));
    assert!(table.contains_key(3));
    assert!(!table.remove(4));
    assert!(table.remove(5));
    assert_eq!(table.entries, vec![(3, 30)]);
    assert_eq!(table.drain(), vec![(3, 30)]);
    assert!(table.entries.is_empty());
}

#[test]
fn exit_codes_differ() {
    assert_eq!(exit_code(Ok(())), 0);
    assert_eq!(exit_code(Err(Error::ExecutorCreationFailed)), 1);
    assert_eq!(exit_code(Err(Error::WindowCreationFailed)), 2);
    assert_eq!(exit_code(Err(Error::GraphicsCreationFailed)), 3);
    assert_eq!(raw_os_err(Some(24)), 24);
    assert_eq!(raw_os_err(None), 1);
}

#[test]
fn only_running_out_of_memory_is_fatal() {
    assert_eq!(after_present(Ok(())), AfterPresent::Done);
    assert_eq!(after_present(Err(SurfaceError::OutOfMemory)), AfterPresent::Fatal);
    assert_eq!(after_present(Err(SurfaceError::Timeout)), AfterPresent::RedrawAll);
    assert_eq!(after_present(Err(SurfaceError::Outdated)), AfterPresent::RedrawAll);
    assert_eq!(after_present(Err(SurfaceError::Lost)), AfterPresent::RedrawAll);
}

#[test]
fn close_requests_and_quit_keys() {
    let mut logo = Modifiers::empty();
    logo.logo = true;
    let q = WindowEvent::KeyboardInput { character: 'q', state: ElementState::Pressed };
    let released = WindowEvent::KeyboardInput { character: 'q', state: ElementState::Released };
    let w = WindowEvent::KeyboardInput { character: 'w', state: ElementState::Pressed };
    assert!(requests_exit(&WindowEvent::CloseRequested, Modifiers::empty(), Platform::Other));
    assert!(requests_exit(&WindowEvent::CloseRequested, Modifiers::empty(), Platform::MacOs));
    assert!(requests_exit(&q, logo, Platform::MacOs));
    assert!(!requests_exit(&q, logo, Platform::Other));
    assert!(!requests_exit(&q, Modifiers::empty(), Platform::MacOs));
    assert!(!requests_exit(&released, logo, Platform::MacOs));
    assert!(!requests_exit(&w, logo, Platform::MacOs));
    assert!(!requests_exit(&WindowEvent::RedrawRequested, logo, Platform::MacOs));
    assert!(user_force_quit(&q, logo, Platform::MacOs));
    assert!(!user_force_quit(&q, logo, Platform::Other));
    assert!(!user_force_quit(&WindowEvent::CloseRequested, logo, Platform::MacOs));
}

#[test]
fn clipboard_actions() {
    assert_eq!(clipboard::read(), ClipboardAction::Read(Kind::Standard));
    assert_eq!(clipboard::read_primary(), ClipboardAction::Read(Kind::Primary));
    assert_eq!(clipboard::write(String::from("a")), ClipboardAction::Write(String::from("a"), Kind::Standard));
    assert_eq!(
        clipboard::write_primary(String::from("b")),
        ClipboardAction::Write(String::from("b"), Kind::Primary)
    );
    let mut null = Null;
    null.write(Kind::Standard, String::from("kept nowhere"));
    assert_eq!(null.read(Kind::Standard), None);
    assert_eq!(null.read_data(Kind::Primary, vec![String::from("text/plain")]), None);
    assert_eq!(null.peek_dnd(String::from("text/plain")), None);
}

#[test]
fn dnd_destinations_come_out_last_first() {
    let place = |id| DndDestinationRectangle {
        id,
        rectangle: Rectangle { x: 0, y: 0, width: 10, height: 10 },
    };
    let mut list = DndDestinationRectangles::with_capacity(4);
    list.push(place(1));
    let mut more = vec![place(2), place(3)];
    list.append(&mut more);
    assert!(more.is_empty());
    assert_eq!(list.len(), 3);
    assert_eq!(list.into_rectangles(), vec![place(3), place(2), place(1)]);
    assert!(DndDestinationRectangles::new().into_rectangles().is_empty());
    assert!(registers_destinations(0, 1));
    assert!(registers_destinations(2, 1));
    assert!(!registers_destinations(2, 0));
    assert!(!registers_destinations(0, 0));
}

#[test]
fn drag_events_are_translated() {
    let by = Vector { x: Fixed(256), y: Fixed(-512) };
    let mut enter = Event::DndOffer(DndOfferEvent::Enter {
        x: Fixed(1000),
        y: Fixed(1000),
        mime_types: vec![String::from("text/plain")],
    });
    enter.translate(by);
    assert_eq!(
        enter,
        Event::DndOffer(DndOfferEvent::Enter {
            x: Fixed(1256),
            y: Fixed(488),
            mime_types: vec![String::from("text/plain")],
        })
    );
    let mut motion = Event::DndOffer(DndOfferEvent::Motion { x: Fixed(i32::MAX), y: Fixed(i32::MIN) });
    motion.translate(by);
    assert_eq!(
        motion,
        Event::DndOffer(DndOfferEvent::Motion { x: Fixed(i32::MAX), y: Fixed(i32::MIN) })
    );
    let mut leave = Event::DndOffer(DndOfferEvent::Leave);
    leave.translate(by);
    assert_eq!(leave, Event::DndOffer(DndOfferEvent::Leave));
    let mut layer = Event::Layer(LayerEvent::Done, ObjectId(1), Id(1));
    layer.translate(by);
    assert_eq!(layer, Event::Layer(LayerEvent::Done, ObjectId(1), Id(1)));
}

#[test]
fn numbers_in_fixed_point() {
    assert_eq!(Fixed::from_pixels(3), Some(Fixed(768)));
    assert_eq!(Fixed::from_pixels(-1), Some(Fixed(-256)));
    assert_eq!(Fixed::from_pixels(8388607), Some(Fixed(2147483392)));
    assert_eq!(Fixed::from_pixels(8388608), None);
    assert_eq!(Fixed::from_pixels(-8388608), Some(Fixed(i32::MIN)));
    assert_eq!(Fixed::from_pixels(-8388609), None);
    assert_eq!(Fixed(5).saturating_add(Fixed(-7)), Fixed(-2));
    assert_eq!(Fixed(i32::MAX).saturating_add(Fixed(1)), Fixed(i32::MAX));
    assert_eq!(Fixed(i32::MIN).saturating_add(Fixed(-1)), Fixed(i32::MIN));
    assert_eq!(ScaleFactor::from_integer(1), ScaleFactor(120));
    assert_eq!(ScaleFactor::from_integer(35791394), ScaleFactor(4294967280));
    assert_eq!(ScaleFactor::from_integer(35791395), ScaleFactor(u32::MAX));
    assert_eq!(ScaleFactor(359).integer_part(), 2);
    assert_eq!(ScaleFactor(119).integer_part(), 0);
    assert_eq!(non_zero(0), 1);
    assert_eq!(non_zero(7), 7);
    assert_eq!(LogicalSize::new(3, 4), LogicalSize { width: 3, height: 4 });
}

#[test]
fn anchors_and_adjustments() {
    let both = Anchor::top().union(Anchor::bottom());
    assert!(both.contains(Anchor::top()));
    assert!(both.contains(both));
    assert!(!both.contains(Anchor::left()));
    assert!(!Anchor::top().contains(both));
    assert!(both.contains(Anchor::empty()));
    assert_eq!(Anchor::left().union(Anchor::right()), Anchor {
        top: false,
        bottom: false,
        left: true,
        right: true
    });
    let mut positioner = SctkPositioner {
        size: None,
        anchor_rect: Rectangle { x: 0, y: 0, width: 0, height: 0 },
        anchor: Edge::Top,
        gravity: Edge::Bottom,
        constraint_adjustment: 63,
        offset: (0, 0),
        reactive: false,
    };
    assert_eq!(positioner.known_adjustment(), Some(63));
    positioner.constraint_adjustment = 0;
    assert_eq!(positioner.known_adjustment(), Some(0));
    positioner.constraint_adjustment = 64;
    assert_eq!(positioner.known_adjustment(), None);
}

#[test]
fn settings_start_plain() {
    let settings = Settings::default();
    assert_eq!(settings.id, None);
    assert!(settings.fonts.is_empty());
    assert_eq!(settings.default_font, Font { family: Family::SansSerif, bold: false, italic: false });
    assert_eq!(settings.default_text_size, 14);
    assert!(!settings.antialiasing);
    assert!(!settings.exit_on_close_request);
    let window = window::Settings::new(String::from("app"));
    assert_eq!(window.size, LogicalSize { width: 1024, height: 768 });
    assert_eq!(window.resize_border, 8);
    assert!(window.resizable && window.visible && window.decorations && !window.transparent);
}

#[test]
fn window_actions_become_wayland_actions() {
    let mut settings = window::Settings::new(String::from("app"));
    settings.size = LogicalSize { width: 300, height: 200 };
    settings.decorations = false;
    settings.transparent = true;
    settings.max_size = Some(LogicalSize { width: 900, height: 800 });
    let opened = wayland::window::Action::try_from(window::Action::Open(Id(4), settings.clone()));
    assert_eq!(
        opened,
        Ok(wayland::window::Action::Window {
            builder: SctkWindowSettings {
                window_id: Id(4),
                app_id: Some(String::from("app")),
                title: None,
                parent: None,
                autosize: false,
                size_limits: Limits { min: (1, 1), max: (900, 800) },
                size: LogicalSize { width: 300, height: 200 },
                resizable: Some(8),
                client_decorations: true,
                transparent: true,
                xdg_activation_token: None,
            }
        })
    );
    settings.resizable = false;
    settings.max_size = None;
    settings.min_size = Some(LogicalSize { width: 20, height: 10 });
    match wayland::window::Action::try_from(window::Action::Open(Id(4), settings)) {
        Ok(wayland::window::Action::Window { builder }) => {
            assert_eq!(builder.resizable, None);
            assert_eq!(builder.size_limits, Limits { min: (20, 10), max: (u32::MAX, u32::MAX) });
        }
        other => panic!("not a window: {:?}", other),
    }
    assert_eq!(
        wayland::window::Action::try_from(window::Action::Close(Id(4))),
        Ok(wayland::window::Action::Destroy(Id(4)))
    );
    assert_eq!(
        wayland::window::Action::try_from(window::Action::Resize(
            Id(4),
            LogicalSize { width: 5, height: 6 }
        )),
        Ok(wayland::window::Action::Size { id: Id(4), width: 5, height: 6 })
    );
    assert_eq!(
        wayland::window::Action::try_from(window::Action::Drag(Id(4))),
        Ok(wayland::window::Action::InteractiveMove { id: Id(4) })
    );
    assert_eq!(
        wayland::window::Action::try_from(window::Action::Maximize(Id(4), true)),
        Ok(wayland::window::Action::Maximize { id: Id(4) })
    );
    assert_eq!(
        wayland::window::Action::try_from(window::Action::Maximize(Id(4), false)),
        Ok(wayland::window::Action::UnsetMaximize { id: Id(4) })
    );
    assert_eq!(
        wayland::window::Action::try_from(window::Action::Minimize(Id(4), true)),
        Ok(wayland::window::Action::Minimize { id: Id(4) })
    );
    assert_eq!(
        wayland::window::Action::try_from(window::Action::ChangeMode(Id(4), window::Mode::Hidden)),
        Ok(wayland::window::Action::Mode(Id(4), window::Mode::Hidden))
    );
    for unsupported in [
        window::Action::GetOldest,
        window::Action::GetLatest,
        window::Action::Minimize(Id(4), false),
        window::Action::ToggleMaximize(Id(4)),
        window::Action::ShowSystemMenu(Id(4)),
        window::Action::Move(Id(4), surface_coordinator::geometry::LogicalPosition { x: 1, y: 2 }),
        window::Action::GainFocus(Id(4)),
        window::Action::Screenshot(Id(4)),
    ] {
        assert_eq!(
            wayland::window::Action::try_from(unsupported),
            Err(wayland::window::Error::NotSupported)
        );
    }
}

#[test]
fn states_with_the_same_globals_start_the_same() {
    let globals = Globals {
        layer_shell: true,
        session_lock: false,
        activation: true,
        viewporter: false,
        fractional_scaling: true,
    };
    assert_eq!(SctkState::new(globals), SctkState::new(globals));
}

#[test]
fn commands_name_their_actions() {
    assert_eq!(
        commands::get_window(SctkWindowSettings::new(Id(1))),
        wayland::Action::Window(wayland::window::Action::Window {
            builder: SctkWindowSettings::new(Id(1))
        })
    );
    assert_eq!(
        commands::close_window(Id(1)),
        wayland::Action::Window(wayland::window::Action::Destroy(Id(1)))
    );
    assert_eq!(
        commands::resize_window(Id(1), 30, 40),
        wayland::Action::Window(wayland::window::Action::Size { id: Id(1), width: 30, height: 40 })
    );
    assert_eq!(
        commands::start_drag_window(Id(1)),
        wayland::Action::Window(wayland::window::Action::InteractiveMove { id: Id(1) })
    );
    assert_eq!(
        commands::maximize(Id(1), true),
        wayland::Action::Window(wayland::window::Action::Maximize { id: Id(1) })
    );
    assert_eq!(
        commands::maximize(Id(1), false),
        wayland::Action::Window(wayland::window::Action::UnsetMaximize { id: Id(1) })
    );
    assert_eq!(
        commands::toggle_maximize(Id(1)),
        wayland::Action::Window(wayland::window::Action::ToggleMaximized { id: Id(1) })
    );
    assert_eq!(
        commands::set_app_id_window(Id(1), String::from("app")),
        wayland::Action::Window(wayland::window::Action::AppId {
            id: Id(1),
            app_id: String::from("app")
        })
    );
    assert_eq!(
        commands::set_mode_window(Id(1), window::Mode::Fullscreen),
        wayland::Action::Window(wayland::window::Action::Mode(Id(1), window::Mode::Fullscreen))
    );
    assert_eq!(
        commands::request_token(None, Some(Id(1))),
        wayland::Action::Activation(wayland::activation::Action::RequestToken {
            app_id: None,
            window: Some(Id(1))
        })
    );
    assert_eq!(
        commands::activate(Id(1), String::from("t")),
        wayland::Action::Activation(wayland::activation::Action::Activate {
            window: Id(1),
            token: String::from("t")
        })
    );
    assert_eq!(
        commands::lock(),
        wayland::Action::SessionLock(wayland::session_lock::Action::Lock)
    );
    assert_eq!(
        commands::unlock(),
        wayland::Action::SessionLock(wayland::session_lock::Action::Unlock)
    );
    assert_eq!(
        commands::get_lock_surface(Id(2), ObjectId(5)),
        wayland::Action::SessionLock(wayland::session_lock::Action::LockSurface {
            id: Id(2),
            output: ObjectId(5)
        })
    );
    assert_eq!(
        commands::destroy_lock_surface(Id(2)),
        wayland::Action::SessionLock(wayland::session_lock::Action::DestroyLockSurface { id: Id(2) })
    );
}
