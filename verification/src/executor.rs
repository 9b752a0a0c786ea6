//! What the coordinator does when the user interface asks for something.
//!
//! Every action names a surface by the id the user interface gave it. An
//! action on an id that is not known is ignored: the surface may have been
//! closed in the meantime.

use crate::geometry::LogicalSize;
use crate::request::Request;
use crate::sctk_event::{
    LayerSurfaceEventVariant, PopupEventVariant, SctkEvent, WindowEventVariant,
};
use crate::seat::SctkSeat;
use crate::shell::{Anchor, LayerSurfaceConfigure, ObjectId, SctkPopupSettings};
use crate::state::{SctkState, StateView};
use crate::surface::{
    index_of_id, position_by_id, SctkLayerSurface, SctkLockSurface, SctkWindow,
};
use crate::table::inserted;
use crate::wayland;
use crate::wayland::layer_surface::SctkLayerSurfaceSettings;
use crate::wayland::window::SctkWindowSettings;
use crate::window::Id;
use vstd::prelude::*;

verus! {

/// The seat of a press and the serial that came with it.
pub open spec fn press_of(seats: Seq<SctkSeat>) -> Option<(ObjectId, u32)> {
    if seats.len() > 0 {
        match seats[0].last_ptr_press {
            Some(press) => Some((seats[0].seat, press.serial)),
            None => None,
        }
    } else {
        None
    }
}

/// The seat and serial that a request for an activation token goes with:
/// those of the last key press where the active seat's keyboard is on the
/// surface, else those of the last pointer press where its pointer is.
pub open spec fn token_serial(seats: Seq<SctkSeat>, surface: Option<ObjectId>) -> Option<
    (ObjectId, u32),
> {
    match surface {
        Some(surface) => if seats.len() > 0 {
            if seats[0].kbd_focus == Some(surface) {
                match seats[0].last_kbd_press {
                    Some(press) => Some((seats[0].seat, press.serial)),
                    None => None,
                }
            } else if seats[0].ptr_focus == Some(surface) {
                match seats[0].last_ptr_press {
                    Some(press) => Some((seats[0].seat, press.serial)),
                    None => None,
                }
            } else {
                None
            }
        } else {
            None
        },
        None => None,
    }
}

/// The token after `token`, wrapping around at the end of the range.
pub open spec fn token_after(token: u32) -> u32 {
    if token == u32::MAX {
        0
    } else {
        (token + 1) as u32
    }
}

/// The size that a layer surface is told of when the user interface has set
/// it: the dimensions asked for, and the last ones given where none is.
pub open spec fn resized_configure(last: LayerSurfaceConfigure, width: Option<u32>, height: Option<u32>) -> LayerSurfaceConfigure {
    LayerSurfaceConfigure {
        new_size: (
            match width {
                Some(w) => w,
                None => last.new_size.0,
            },
            match height {
                Some(h) => h,
                None => last.new_size.1,
            },
        ),
    }
}

impl StateView {
    /// The state after a request on a surface that changes what the next
    /// commit of the surface brings.
    pub open spec fn committing(self, id: Id, surface: ObjectId, request: Request) -> StateView {
        StateView {
            requests: self.requests.push(request),
            to_commit: inserted(self.to_commit, id.0, surface),
            ..self
        }
    }

    /// The surface of the window with the given id.
    pub open spec fn window_surface(self, id: Id) -> Option<ObjectId> {
        match index_of_id(self.windows, id) {
            Some(i) => Some(self.windows[i].window),
            None => None,
        }
    }

    /// The surface of the layer surface with the given id.
    pub open spec fn layer_surface(self, id: Id) -> Option<ObjectId> {
        match index_of_id(self.layer_surfaces, id) {
            Some(i) => Some(self.layer_surfaces[i].surface),
            None => None,
        }
    }

    /// The state after a window has been created on request.
    pub open spec fn create_window(self, builder: SctkWindowSettings) -> StateView {
        let made = self.get_window(builder);
        StateView {
            sctk_events: made.sctk_events.push(
                SctkEvent::WindowEvent {
                    variant: WindowEventVariant::Created(self.fresh(), builder.window_id),
                    id: self.fresh(),
                },
            ),
            ..made
        }
    }

    /// The state after the size of a window has been set.
    pub open spec fn resize_window(self, id: Id, width: u32, height: u32) -> StateView {
        match index_of_id(self.windows, id) {
            Some(i) => {
                let w = self.windows[i];
                let asked = SctkWindow {
                    requested_size: Some(
                        LogicalSize {
                            width: crate::geometry::at_least_one(width),
                            height: crate::geometry::at_least_one(height),
                        },
                    ),
                    ..w
                };
                let sized = asked.with_size((Some(width), Some(height)));
                StateView {
                    windows: self.windows.update(i, sized),
                    requests: self.requests + w.size_requests((Some(width), Some(height))),
                    to_commit: inserted(self.to_commit, id.0, w.window),
                    sctk_events: if w.last_configure is Some {
                        self.sctk_events.push(
                            SctkEvent::WindowEvent {
                                variant: WindowEventVariant::Size(
                                    sized.current_size,
                                    w.window,
                                    false,
                                ),
                                id: w.window,
                            },
                        )
                    } else {
                        self.sctk_events
                    },
                    ..self
                }
            },
            None => self,
        }
    }

    /// The state after an interactive move, resize or window menu has been
    /// asked for: with the serial of the last pointer press of the active
    /// seat. Without such a press, or without the window, nothing changes.
    pub open spec fn interact(self, id: Id, request: spec_fn(ObjectId, ObjectId, u32) -> Request) -> StateView {
        match (self.window_surface(id), press_of(self.seats)) {
            (Some(surface), Some((seat, serial))) => self.committing(
                id,
                surface,
                request(surface, seat, serial),
            ),
            _ => self,
        }
    }

    /// The state after a window has been destroyed: the record goes first,
    /// then the window is destroyed, and the user interface is told.
    pub open spec fn destroy_window(self, id: Id) -> StateView {
        match index_of_id(self.windows, id) {
            Some(i) => {
                let surface = self.windows[i].window;
                StateView {
                    windows: self.windows.remove(i),
                    requests: self.requests.push(Request::DestroyWindow { surface }).push(
                        Request::ClearDndDestinations { surface },
                    ),
                    sctk_events: self.sctk_events.push(
                        SctkEvent::WindowEvent { variant: WindowEventVariant::Close, id: surface },
                    ),
                    ..self.forgetting(id, surface)
                }
            },
            None => self,
        }
    }

    /// The request that toggles a window between maximized and not, or
    /// between filling the screen and not, from what the compositor last
    /// said of the window. Before the compositor has said anything there is
    /// none.
    pub open spec fn toggle_request(self, id: Id, fullscreen: bool) -> Option<Request> {
        match index_of_id(self.windows, id) {
            Some(i) => match self.windows[i].last_configure {
                Some(last) => {
                    let surface = self.windows[i].window;
                    Some(
                        if fullscreen {
                            if last.state.spec_is_fullscreen() {
                                Request::UnsetFullscreen { surface }
                            } else {
                                Request::SetFullscreen { surface }
                            }
                        } else {
                            if last.state.spec_is_maximized() {
                                Request::UnsetMaximized { surface }
                            } else {
                                Request::SetMaximized { surface }
                            }
                        },
                    )
                },
                None => None,
            },
            None => None,
        }
    }

    /// The state after a window has been asked to toggle.
    pub open spec fn toggle(self, id: Id, fullscreen: bool) -> StateView {
        match (self.window_surface(id), self.toggle_request(id, fullscreen)) {
            (Some(surface), Some(request)) => self.committing(id, surface, request),
            _ => self,
        }
    }

    /// The state after a request on a window that goes to the compositor as
    /// it is.
    pub open spec fn ask_window(self, id: Id, request: spec_fn(ObjectId) -> Request) -> StateView {
        match self.window_surface(id) {
            Some(surface) => self.committing(id, surface, request(surface)),
            None => self,
        }
    }

    /// The state after the mode of a window has been set. A window on the
    /// screen fills it or not; it cannot be hidden.
    pub open spec fn set_mode(self, id: Id, mode: crate::window::Mode) -> StateView {
        match mode {
            crate::window::Mode::Windowed => self.ask_window(
                id,
                |surface: ObjectId| Request::UnsetFullscreen { surface },
            ),
            crate::window::Mode::Fullscreen => self.ask_window(
                id,
                |surface: ObjectId| Request::SetFullscreen { surface },
            ),
            crate::window::Mode::Hidden => self,
        }
    }

    /// The state after a window action.
    pub open spec fn window_action(self, action: wayland::window::Action) -> StateView {
        match action {
            wayland::window::Action::Window { builder } => self.create_window(builder),
            wayland::window::Action::Destroy(id) => self.destroy_window(id),
            wayland::window::Action::Size { id, width, height } => self.resize_window(
                id,
                width,
                height,
            ),
            wayland::window::Action::MinSize { id, size } => match self.window_surface(id) {
                Some(surface) => self.committing(
                    id,
                    surface,
                    Request::SetMinSize { surface, size },
                ),
                None => self,
            },
            wayland::window::Action::MaxSize { id, size } => match self.window_surface(id) {
                Some(surface) => self.committing(
                    id,
                    surface,
                    Request::SetMaxSize { surface, size },
                ),
                None => self,
            },
            wayland::window::Action::Title { id, title } => match self.window_surface(id) {
                Some(surface) => self.committing(id, surface, Request::SetTitle { surface, title }),
                None => self,
            },
            wayland::window::Action::AppId { id, app_id } => match self.window_surface(id) {
                Some(surface) => self.committing(
                    id,
                    surface,
                    Request::SetAppId { surface, app_id },
                ),
                None => self,
            },
            wayland::window::Action::InteractiveMove { id } => self.interact(
                id,
                |surface: ObjectId, seat: ObjectId, serial: u32|
                    Request::Move { surface, seat, serial },
            ),
            wayland::window::Action::InteractiveResize { id, edge } => self.interact(
                id,
                |surface: ObjectId, seat: ObjectId, serial: u32|
                    Request::Resize { surface, seat, serial, edge },
            ),
            wayland::window::Action::ShowWindowMenu { id, x, y } => self.interact(
                id,
                |surface: ObjectId, seat: ObjectId, serial: u32|
                    Request::ShowWindowMenu { surface, seat, serial, x, y },
            ),
            wayland::window::Action::Minimize { id } => self.ask_window(
                id,
                |surface: ObjectId| Request::SetMinimized { surface },
            ),
            wayland::window::Action::Maximize { id } => self.ask_window(
                id,
                |surface: ObjectId| Request::SetMaximized { surface },
            ),
            wayland::window::Action::UnsetMaximize { id } => self.ask_window(
                id,
                |surface: ObjectId| Request::UnsetMaximized { surface },
            ),
            wayland::window::Action::Fullscreen { id } => self.ask_window(
                id,
                |surface: ObjectId| Request::SetFullscreen { surface },
            ),
            wayland::window::Action::UnsetFullscreen { id } => self.ask_window(
                id,
                |surface: ObjectId| Request::UnsetFullscreen { surface },
            ),
            wayland::window::Action::ToggleMaximized { id } => self.toggle(id, false),
            wayland::window::Action::ToggleFullscreen { id } => self.toggle(id, true),
            wayland::window::Action::Mode(id, mode) => self.set_mode(id, mode),
        }
    }

    /// The state after a layer surface has been created on request. Without
    /// a layer shell nothing changes.
    pub open spec fn create_layer_surface(self, builder: SctkLayerSurfaceSettings) -> StateView {
        let made = self.get_layer_surface(builder);
        if self.globals.layer_shell {
            StateView {
                sctk_events: made.sctk_events.push(
                    SctkEvent::LayerSurfaceEvent {
                        variant: LayerSurfaceEventVariant::Created(
                            self.fresh(),
                            builder.id,
                            made.layer_surfaces.last().common,
                        ),
                        id: self.fresh(),
                    },
                ),
                ..made
            }
        } else {
            self
        }
    }

    /// The state after the size of a layer surface has been set. Where the
    /// compositor has configured the surface before, the user interface is
    /// told of the new size at once.
    pub open spec fn resize_layer(self, id: Id, width: Option<u32>, height: Option<u32>) -> StateView {
        match index_of_id(self.layer_surfaces, id) {
            Some(i) => {
                let l = self.layer_surfaces[i];
                let sized = l.with_requested_size(width, height);
                StateView {
                    layer_surfaces: self.layer_surfaces.update(i, sized),
                    requests: self.requests.push(
                        Request::SetLayerSize {
                            surface: l.surface,
                            width: crate::surface::or_zero(sized.requested_size.0),
                            height: crate::surface::or_zero(sized.requested_size.1),
                        },
                    ),
                    to_commit: inserted(self.to_commit, id.0, l.surface),
                    sctk_events: match l.last_configure {
                        Some(last) => self.sctk_events.push(
                            SctkEvent::LayerSurfaceEvent {
                                variant: LayerSurfaceEventVariant::Configure(
                                    resized_configure(last, width, height),
                                    l.surface,
                                    false,
                                ),
                                id: l.surface,
                            },
                        ),
                        None => self.sctk_events,
                    },
                    ..self
                }
            },
            None => self,
        }
    }

    /// The state after a layer surface has been destroyed.
    pub open spec fn destroy_layer_surface(self, id: Id) -> StateView {
        match index_of_id(self.layer_surfaces, id) {
            Some(i) => {
                let surface = self.layer_surfaces[i].surface;
                StateView {
                    layer_surfaces: self.layer_surfaces.remove(i),
                    requests: self.requests.push(Request::DestroyLayerSurface { surface }),
                    sctk_events: self.sctk_events.push(
                        SctkEvent::LayerSurfaceEvent {
                            variant: LayerSurfaceEventVariant::Done,
                            id: surface,
                        },
                    ),
                    ..self.forgetting(id, surface)
                }
            },
            None => self,
        }
    }

    /// The state after a layer surface has been anchored anew.
    pub open spec fn anchor_layer(self, id: Id, anchor: Anchor) -> StateView {
        match index_of_id(self.layer_surfaces, id) {
            Some(i) => {
                let l = self.layer_surfaces[i];
                StateView {
                    layer_surfaces: self.layer_surfaces.update(i, l.with_anchor(anchor)),
                    requests: self.requests + l.anchor_requests(anchor),
                    to_commit: inserted(self.to_commit, id.0, l.surface),
                    ..self
                }
            },
            None => self,
        }
    }

    /// The state after a property of a layer surface has been set that goes
    /// to the compositor as it is.
    pub open spec fn restyle_layer(self, id: Id, styled: SctkLayerSurface, request: Request) -> StateView {
        match index_of_id(self.layer_surfaces, id) {
            Some(i) => StateView {
                layer_surfaces: self.layer_surfaces.update(i, styled),
                ..self.committing(id, self.layer_surfaces[i].surface, request)
            },
            None => self,
        }
    }

    /// The state after a layer surface action.
    pub open spec fn layer_action(self, action: wayland::layer_surface::Action) -> StateView {
        match action {
            wayland::layer_surface::Action::LayerSurface { builder } => self.create_layer_surface(
                builder,
            ),
            wayland::layer_surface::Action::Size { id, width, height } => self.resize_layer(
                id,
                width,
                height,
            ),
            wayland::layer_surface::Action::Destroy(id) => self.destroy_layer_surface(id),
            wayland::layer_surface::Action::Anchor { id, anchor } => self.anchor_layer(id, anchor),
            wayland::layer_surface::Action::ExclusiveZone { id, exclusive_zone } => {
                match index_of_id(self.layer_surfaces, id) {
                    Some(i) => self.restyle_layer(
                        id,
                        SctkLayerSurface { exclusive_zone, ..self.layer_surfaces[i] },
                        Request::SetExclusiveZone {
                            surface: self.layer_surfaces[i].surface,
                            exclusive_zone,
                        },
                    ),
                    None => self,
                }
            },
            wayland::layer_surface::Action::Margin { id, margin } => {
                match index_of_id(self.layer_surfaces, id) {
                    Some(i) => self.restyle_layer(
                        id,
                        SctkLayerSurface { margin, ..self.layer_surfaces[i] },
                        Request::SetMargin { surface: self.layer_surfaces[i].surface, margin },
                    ),
                    None => self,
                }
            },
            wayland::layer_surface::Action::KeyboardInteractivity {
                id,
                keyboard_interactivity,
            } => {
                match index_of_id(self.layer_surfaces, id) {
                    Some(i) => self.restyle_layer(
                        id,
                        SctkLayerSurface { keyboard_interactivity, ..self.layer_surfaces[i] },
                        Request::SetKeyboardInteractivity {
                            surface: self.layer_surfaces[i].surface,
                            keyboard_interactivity,
                        },
                    ),
                    None => self,
                }
            },
            wayland::layer_surface::Action::Layer { id, layer } => {
                match index_of_id(self.layer_surfaces, id) {
                    Some(i) => self.restyle_layer(
                        id,
                        SctkLayerSurface { layer, ..self.layer_surfaces[i] },
                        Request::SetLayer { surface: self.layer_surfaces[i].surface, layer },
                    ),
                    None => self,
                }
            },
        }
    }

    /// The state after a popup has been created on request. A popup that
    /// cannot be created changes nothing.
    pub open spec fn create_popup(self, popup: SctkPopupSettings) -> StateView {
        let made = self.get_popup(popup);
        if self.popup_error(popup) is None {
            let record = made.popups.last();
            StateView {
                sctk_events: made.sctk_events.push(
                    SctkEvent::PopupEvent {
                        variant: PopupEventVariant::Created(
                            record.popup,
                            popup.id,
                            record.common,
                        ),
                        toplevel_id: record.data.toplevel,
                        parent_id: record.data.parent.spec_wl_surface(),
                        id: record.popup,
                    },
                ),
                ..made
            }
        } else {
            self
        }
    }

    /// The state after the size of a popup has been set: the popup is placed
    /// anew, under the next token.
    pub open spec fn resize_popup(self, id: Id, width: u32, height: u32) -> StateView {
        match index_of_id(self.popups, id) {
            Some(i) => {
                let p = self.popups[i];
                let sized = p.with_size(width, height);
                StateView {
                    popups: self.popups.update(i, sized),
                    token_ctr: token_after(self.token_ctr),
                    requests: self.requests.push(
                        Request::SetWindowGeometry {
                            surface: p.popup,
                            x: 0,
                            y: 0,
                            width,
                            height,
                        },
                    ).push(
                        Request::Reposition {
                            surface: p.popup,
                            positioner: sized.data.positioner,
                            token: token_after(self.token_ctr),
                        },
                    ),
                    to_commit: inserted(self.to_commit, id.0, p.popup),
                    ..self
                }
            },
            None => self,
        }
    }

    /// The state after a popup action.
    pub open spec fn popup_action(self, action: wayland::popup::Action) -> StateView {
        match action {
            wayland::popup::Action::Popup { popup } => self.create_popup(popup),
            wayland::popup::Action::Destroy { id } => self.destroy_popup(id),
            wayland::popup::Action::Size { id, width, height } => self.resize_popup(
                id,
                width,
                height,
            ),
            wayland::popup::Action::Grab { .. } => self,
        }
    }

    /// The surface that an activation token is asked for: that of the window
    /// with the given id, or else of the layer surface with it.
    pub open spec fn token_surface(self, window: Option<Id>) -> Option<ObjectId> {
        match window {
            Some(id) => match self.window_surface(id) {
                Some(surface) => Some(surface),
                None => self.layer_surface(id),
            },
            None => None,
        }
    }

    /// The state after an activation action. Without the activation global
    /// a request for a token is answered at once, with no token, and a
    /// request to activate is dropped.
    pub open spec fn activation_action(self, action: wayland::activation::Action) -> StateView {
        match action {
            wayland::activation::Action::RequestToken { app_id, window } => {
                if self.globals.activation {
                    StateView {
                        requests: self.requests.push(
                            Request::RequestToken {
                                app_id,
                                seat_and_serial: token_serial(
                                    self.seats,
                                    self.token_surface(window),
                                ),
                                surface: self.token_surface(window),
                            },
                        ),
                        ..self
                    }
                } else {
                    StateView {
                        sctk_events: self.sctk_events.push(
                            SctkEvent::ActivationToken { token: None },
                        ),
                        ..self
                    }
                }
            },
            wayland::activation::Action::Activate { window, token } => {
                match self.window_surface(window) {
                    Some(surface) => if self.globals.activation {
                        StateView {
                            requests: self.requests.push(Request::Activate { surface, token }),
                            ..self
                        }
                    } else {
                        self
                    },
                    None => self,
                }
            },
        }
    }

    /// The state after a lock surface that is no longer in the table has
    /// been destroyed.
    pub open spec fn lock_surface_gone(self, lock: SctkLockSurface) -> StateView {
        StateView {
            requests: self.requests.push(
                Request::DestroyLockSurface { surface: lock.session_lock_surface },
            ),
            sctk_events: self.sctk_events.push(
                SctkEvent::SessionLockSurfaceDone { surface: lock.session_lock_surface },
            ),
            ..self.forgetting(lock.id, lock.session_lock_surface)
        }
    }

    /// The state after the first `k` of the given lock surfaces have been
    /// destroyed, one after the other.
    pub open spec fn lock_surfaces_gone(self, gone: Seq<SctkLockSurface>, k: int) -> StateView
        decreases k,
    {
        if 0 < k <= gone.len() {
            self.lock_surfaces_gone(gone, k - 1).lock_surface_gone(gone[k - 1])
        } else {
            self
        }
    }

    /// The state after every lock surface has been destroyed.
    pub open spec fn without_lock_surfaces(self) -> StateView {
        StateView { lock_surfaces: Seq::empty(), ..self }.lock_surfaces_gone(
            self.lock_surfaces,
            self.lock_surfaces.len() as int,
        )
    }

    /// The state after the session has been locked on request. A session
    /// that is locked already stays so, and without the lock global nothing
    /// changes.
    pub open spec fn lock(self) -> StateView {
        if !self.session_lock && self.globals.session_lock {
            StateView {
                session_lock: true,
                requests: self.requests.push(Request::Lock),
                ..self
            }
        } else {
            self
        }
    }

    /// The state after the session has been unlocked on request: no lock
    /// surface is left, the lock is gone, the compositor has been waited
    /// for once, and the user interface is told.
    pub open spec fn unlock(self) -> StateView {
        let cleared = self.without_lock_surfaces();
        StateView {
            session_lock: false,
            requests: (if self.session_lock {
                cleared.requests.push(Request::Unlock)
            } else {
                cleared.requests
            }).push(Request::Roundtrip),
            sctk_events: cleared.sctk_events.push(SctkEvent::SessionUnlocked),
            ..cleared
        }
    }

    /// The state after a lock surface has been created on request. Without
    /// a lock nothing changes.
    pub open spec fn create_lock_surface(self, id: Id, output: ObjectId) -> StateView {
        let made = self.get_lock_surface(id, output);
        if self.session_lock {
            StateView {
                sctk_events: made.sctk_events.push(
                    SctkEvent::SessionLockSurfaceCreated {
                        surface: self.fresh(),
                        native_id: id,
                        common: made.lock_surfaces.last().common,
                    },
                ),
                ..made
            }
        } else {
            self
        }
    }

    /// The state after a lock surface has been destroyed on request.
    pub open spec fn destroy_lock_surface(self, id: Id) -> StateView {
        match index_of_id(self.lock_surfaces, id) {
            Some(i) => StateView {
                lock_surfaces: self.lock_surfaces.remove(i),
                ..self
            }.lock_surface_gone(self.lock_surfaces[i]),
            None => self,
        }
    }

    /// The state after a session lock action.
    pub open spec fn session_lock_action(self, action: wayland::session_lock::Action) -> StateView {
        match action {
            wayland::session_lock::Action::Lock => self.lock(),
            wayland::session_lock::Action::Unlock => self.unlock(),
            wayland::session_lock::Action::LockSurface { id, output } => self.create_lock_surface(
                id,
                output,
            ),
            wayland::session_lock::Action::DestroyLockSurface { id } => self.destroy_lock_surface(
                id,
            ),
        }
    }

    /// The state after the compositor has ended the lock, or refused it: no
    /// lock surface is left and the lock is gone.
    pub open spec fn finished(self) -> StateView {
        let cleared = self.without_lock_surfaces();
        StateView {
            session_lock: false,
            sctk_events: cleared.sctk_events.push(SctkEvent::SessionLockFinished),
            ..cleared
        }
    }

    /// The state after an action of the user interface.
    pub open spec fn handle_action(self, action: wayland::Action) -> StateView {
        match action {
            wayland::Action::LayerSurface(action) => self.layer_action(action),
            wayland::Action::Window(action) => self.window_action(action),
            wayland::Action::Popup(action) => self.popup_action(action),
            wayland::Action::Activation(action) => self.activation_action(action),
            wayland::Action::SessionLock(action) => self.session_lock_action(action),
        }
    }
}

impl SctkState {
    /// Asks something of a surface that takes effect with its next commit.
    fn commit_request(&mut self, id: Id, surface: ObjectId, request: Request)
        ensures
            final(self)@ == old(self)@.committing(id, surface, request),
    {
        self.requests.push(request);
        self.commit_later(id, surface);
    }

    /// Finds the surface of the window with the given id.
    pub fn window_surface(&self, id: Id) -> (surface: Option<ObjectId>)
        ensures
            surface == self@.window_surface(id),
    {
        match position_by_id(&self.windows, id) {
            Some(i) => Some(self.windows[i].window),
            None => None,
        }
    }

    /// Finds the surface of the layer surface with the given id.
    pub fn layer_surface(&self, id: Id) -> (surface: Option<ObjectId>)
        ensures
            surface == self@.layer_surface(id),
    {
        match position_by_id(&self.layer_surfaces, id) {
            Some(i) => Some(self.layer_surfaces[i].surface),
            None => None,
        }
    }

    /// The active seat and the serial of its last pointer press, if there
    /// is an active seat and it has seen a press.
    pub fn last_press(&self) -> (press: Option<(ObjectId, u32)>)
        ensures
            press == press_of(self.seats@),
    {
        if self.seats.len() > 0 {
            match self.seats[0].last_ptr_press {
                Some(press) => Some((self.seats[0].seat, press.serial)),
                None => None,
            }
        } else {
            None
        }
    }

    /// Creates a window and tells the user interface of it.
    fn create_window(&mut self, builder: SctkWindowSettings)
        ensures
            final(self)@ == old(self)@.create_window(builder),
    {
        let (id, surface, _) = self.get_window(builder);
        self.sctk_events.push(
            SctkEvent::WindowEvent { variant: WindowEventVariant::Created(surface, id), id: surface },
        );
    }

    /// Sets the size of a window. Once the compositor has configured the
    /// window the user interface is told of the new size at once.
    fn resize_window(&mut self, id: Id, width: u32, height: u32)
        ensures
            final(self)@ == old(self)@.resize_window(id, width, height),
    {
        match position_by_id(&self.windows, id) {
            Some(i) => {
                let surface = self.windows[i].window;
                self.windows[i].set_size(LogicalSize { width, height }, &mut self.requests);
                self.commit_later(id, surface);
                if self.windows[i].last_configure.is_some() {
                    self.sctk_events.push(
                        SctkEvent::WindowEvent {
                            variant: WindowEventVariant::Size(
                                self.windows[i].current_size,
                                surface,
                                false,
                            ),
                            id: surface,
                        },
                    );
                }
            },
            None => {},
        }
    }

    /// Destroys a window: the record goes first, then the window is
    /// destroyed, and the user interface is told that it is closed.
    fn destroy_window(&mut self, id: Id)
        ensures
            final(self)@ == old(self)@.destroy_window(id),
    {
        match position_by_id(&self.windows, id) {
            Some(i) => {
                let gone = self.windows.remove(i);
                let surface = gone.window;
                self.forget(id, surface);
                self.requests.push(Request::DestroyWindow { surface });
                self.requests.push(Request::ClearDndDestinations { surface });
                self.sctk_events.push(
                    SctkEvent::WindowEvent { variant: WindowEventVariant::Close, id: surface },
                );
            },
            None => {},
        }
    }

    /// Toggles a window between maximized and not, or between filling the
    /// screen and not. What the window is now is known from what the
    /// compositor last said of it; before it has said anything the action is
    /// dropped.
    fn toggle(&mut self, id: Id, fullscreen: bool)
        ensures
            final(self)@ == old(self)@.toggle(id, fullscreen),
    {
        match position_by_id(&self.windows, id) {
            Some(i) => {
                let surface = self.windows[i].window;
                match self.windows[i].last_configure {
                    Some(last) => {
                        let request = if fullscreen {
                            if last.state.is_fullscreen() {
                                Request::UnsetFullscreen { surface }
                            } else {
                                Request::SetFullscreen { surface }
                            }
                        } else {
                            if last.state.is_maximized() {
                                Request::UnsetMaximized { surface }
                            } else {
                                Request::SetMaximized { surface }
                            }
                        };
                        self.commit_request(id, surface, request);
                    },
                    None => {},
                }
            },
            None => {},
        }
    }

    /// Sets the mode of a window: it fills the screen or it does not. A
    /// window cannot be hidden; that is dropped.
    fn set_mode(&mut self, id: Id, mode: crate::window::Mode)
        ensures
            final(self)@ == old(self)@.set_mode(id, mode),
    {
        match (self.window_surface(id), mode) {
            (Some(surface), crate::window::Mode::Windowed) => {
                self.commit_request(id, surface, Request::UnsetFullscreen { surface });
            },
            (Some(surface), crate::window::Mode::Fullscreen) => {
                self.commit_request(id, surface, Request::SetFullscreen { surface });
            },
            _ => {},
        }
    }

    /// Handles a window action.
    ///
    /// A change of size, size limits, title, app id or mode marks the window
    /// as waiting for a commit. An interactive move or resize and the window
    /// menu need a pointer press on the active seat; without one the action
    /// is dropped. A toggle needs to know what the window is now; before the
    /// compositor has configured the window it is dropped. An action on an
    /// unknown id is ignored.
    pub fn handle_window_action(&mut self, action: wayland::window::Action)
        ensures
            final(self)@ == old(self)@.window_action(action),
            old(self)@.wf() && old(self).next_surface < u64::MAX ==> final(self)@.wf(),
    {
        proof {
            if self@.wf() && self.next_surface < u64::MAX {
                crate::wellformed::lemma_window_action_wf(self@, action);
            }
        }
        match action {
            wayland::window::Action::Window { builder } => {
                self.create_window(builder);
            },
            wayland::window::Action::Destroy(id) => {
                self.destroy_window(id);
            },
            wayland::window::Action::Size { id, width, height } => {
                self.resize_window(id, width, height);
            },
            wayland::window::Action::MinSize { id, size } => match self.window_surface(id) {
                Some(surface) => {
                    self.commit_request(id, surface, Request::SetMinSize { surface, size });
                },
                None => {},
            },
            wayland::window::Action::MaxSize { id, size } => match self.window_surface(id) {
                Some(surface) => {
                    self.commit_request(id, surface, Request::SetMaxSize { surface, size });
                },
                None => {},
            },
            wayland::window::Action::Title { id, title } => match self.window_surface(id) {
                Some(surface) => {
                    self.commit_request(id, surface, Request::SetTitle { surface, title });
                },
                None => {},
            },
            wayland::window::Action::AppId { id, app_id } => match self.window_surface(id) {
                Some(surface) => {
                    self.commit_request(id, surface, Request::SetAppId { surface, app_id });
                },
                None => {},
            },
            wayland::window::Action::InteractiveMove { id } => {
                match (self.window_surface(id), self.last_press()) {
                    (Some(surface), Some((seat, serial))) => {
                        self.commit_request(id, surface, Request::Move { surface, seat, serial });
                    },
                    _ => {},
                }
            },
            wayland::window::Action::InteractiveResize { id, edge } => {
                match (self.window_surface(id), self.last_press()) {
                    (Some(surface), Some((seat, serial))) => {
                        self.commit_request(
                            id,
                            surface,
                            Request::Resize { surface, seat, serial, edge },
                        );
                    },
                    _ => {},
                }
            },
            wayland::window::Action::ShowWindowMenu { id, x, y } => {
                match (self.window_surface(id), self.last_press()) {
                    (Some(surface), Some((seat, serial))) => {
                        self.commit_request(
                            id,
                            surface,
                            Request::ShowWindowMenu { surface, seat, serial, x, y },
                        );
                    },
                    _ => {},
                }
            },
            wayland::window::Action::Minimize { id } => match self.window_surface(id) {
                Some(surface) => {
                    self.commit_request(id, surface, Request::SetMinimized { surface });
                },
                None => {},
            },
            wayland::window::Action::Maximize { id } => match self.window_surface(id) {
                Some(surface) => {
                    self.commit_request(id, surface, Request::SetMaximized { surface });
                },
                None => {},
            },
            wayland::window::Action::UnsetMaximize { id } => match self.window_surface(id) {
                Some(surface) => {
                    self.commit_request(id, surface, Request::UnsetMaximized { surface });
                },
                None => {},
            },
            wayland::window::Action::Fullscreen { id } => match self.window_surface(id) {
                Some(surface) => {
                    self.commit_request(id, surface, Request::SetFullscreen { surface });
                },
                None => {},
            },
            wayland::window::Action::UnsetFullscreen { id } => match self.window_surface(id) {
                Some(surface) => {
                    self.commit_request(id, surface, Request::UnsetFullscreen { surface });
                },
                None => {},
            },
            wayland::window::Action::ToggleMaximized { id } => {
                self.toggle(id, false);
            },
            wayland::window::Action::ToggleFullscreen { id } => {
                self.toggle(id, true);
            },
            wayland::window::Action::Mode(id, mode) => {
                self.set_mode(id, mode);
            },
        }
    }

    /// Creates a layer surface and tells the user interface of it.
    fn create_layer_surface(&mut self, builder: SctkLayerSurfaceSettings)
        ensures
            final(self)@ == old(self)@.create_layer_surface(builder),
    {
        match self.get_layer_surface(builder) {
            Ok((id, surface, common)) => {
                self.sctk_events.push(
                    SctkEvent::LayerSurfaceEvent {
                        variant: LayerSurfaceEventVariant::Created(surface, id, common),
                        id: surface,
                    },
                );
            },
            Err(_) => {},
        }
    }

    /// Sets the size of a layer surface.
    fn resize_layer(&mut self, id: Id, width: Option<u32>, height: Option<u32>)
        ensures
            final(self)@ == old(self)@.resize_layer(id, width, height),
    {
        match position_by_id(&self.layer_surfaces, id) {
            Some(i) => {
                let surface = self.layer_surfaces[i].surface;
                self.layer_surfaces[i].set_size(width, height, &mut self.requests);
                self.commit_later(id, surface);
                match self.layer_surfaces[i].last_configure {
                    Some(last) => {
                        let told = LayerSurfaceConfigure {
                            new_size: (
                                match width {
                                    Some(w) => w,
                                    None => last.new_size.0,
                                },
                                match height {
                                    Some(h) => h,
                                    None => last.new_size.1,
                                },
                            ),
                        };
                        self.sctk_events.push(
                            SctkEvent::LayerSurfaceEvent {
                                variant: LayerSurfaceEventVariant::Configure(told, surface, false),
                                id: surface,
                            },
                        );
                    },
                    None => {},
                }
            },
            None => {},
        }
    }

    /// Destroys a layer surface.
    fn destroy_layer_surface(&mut self, id: Id)
        ensures
            final(self)@ == old(self)@.destroy_layer_surface(id),
    {
        match position_by_id(&self.layer_surfaces, id) {
            Some(i) => {
                let gone = self.layer_surfaces.remove(i);
                let surface = gone.surface;
                self.forget(id, surface);
                self.requests.push(Request::DestroyLayerSurface { surface });
                self.sctk_events.push(
                    SctkEvent::LayerSurfaceEvent {
                        variant: LayerSurfaceEventVariant::Done,
                        id: surface,
                    },
                );
            },
            None => {},
        }
    }

    /// Anchors a layer surface anew.
    fn anchor_layer(&mut self, id: Id, anchor: Anchor)
        ensures
            final(self)@ == old(self)@.anchor_layer(id, anchor),
    {
        match position_by_id(&self.layer_surfaces, id) {
            Some(i) => {
                let surface = self.layer_surfaces[i].surface;
                self.layer_surfaces[i].set_anchor(anchor, &mut self.requests);
                self.commit_later(id, surface);
            },
            None => {},
        }
    }

    /// Handles a layer surface action.
    ///
    /// Every change of a layer surface marks it as waiting for a commit. Once
    /// the compositor has configured the surface, a change of its size is
    /// told to the user interface at once, so that the layout need not wait
    /// for the compositor. An action on an unknown id is ignored.
    pub fn handle_layer_action(&mut self, action: wayland::layer_surface::Action)
        ensures
            final(self)@ == old(self)@.layer_action(action),
            old(self)@.wf() && old(self).next_surface < u64::MAX ==> final(self)@.wf(),
    {
        proof {
            if self@.wf() && self.next_surface < u64::MAX {
                crate::wellformed::lemma_layer_action_wf(self@, action);
            }
        }
        match action {
            wayland::layer_surface::Action::LayerSurface { builder } => {
                self.create_layer_surface(builder);
            },
            wayland::layer_surface::Action::Size { id, width, height } => {
                self.resize_layer(id, width, height);
            },
            wayland::layer_surface::Action::Destroy(id) => {
                self.destroy_layer_surface(id);
            },
            wayland::layer_surface::Action::Anchor { id, anchor } => {
                self.anchor_layer(id, anchor);
            },
            wayland::layer_surface::Action::ExclusiveZone { id, exclusive_zone } => {
                match position_by_id(&self.layer_surfaces, id) {
                    Some(i) => {
                        let mut styled = self.layer_surfaces[i];
                        styled.exclusive_zone = exclusive_zone;
                        self.restyle_layer(
                            id,
                            styled,
                            Request::SetExclusiveZone { surface: styled.surface, exclusive_zone },
                        );
                    },
                    None => {},
                }
            },
            wayland::layer_surface::Action::Margin { id, margin } => {
                match position_by_id(&self.layer_surfaces, id) {
                    Some(i) => {
                        let mut styled = self.layer_surfaces[i];
                        styled.margin = margin;
                        self.restyle_layer(
                            id,
                            styled,
                            Request::SetMargin { surface: styled.surface, margin },
                        );
                    },
                    None => {},
                }
            },
            wayland::layer_surface::Action::KeyboardInteractivity {
                id,
                keyboard_interactivity,
            } => {
                match position_by_id(&self.layer_surfaces, id) {
                    Some(i) => {
                        let mut styled = self.layer_surfaces[i];
                        styled.keyboard_interactivity = keyboard_interactivity;
                        self.restyle_layer(
                            id,
                            styled,
                            Request::SetKeyboardInteractivity {
                                surface: styled.surface,
                                keyboard_interactivity,
                            },
                        );
                    },
                    None => {},
                }
            },
            wayland::layer_surface::Action::Layer { id, layer } => {
                match position_by_id(&self.layer_surfaces, id) {
                    Some(i) => {
                        let mut styled = self.layer_surfaces[i];
                        styled.layer = layer;
                        self.restyle_layer(
                            id,
                            styled,
                            Request::SetLayer { surface: styled.surface, layer },
                        );
                    },
                    None => {},
                }
            },
        }
    }

    /// Puts `styled` in the place of the layer surface with the given id,
    /// and asks the compositor for the change.
    fn restyle_layer(&mut self, id: Id, styled: SctkLayerSurface, request: Request)
        ensures
            final(self)@ == old(self)@.restyle_layer(id, styled, request),
    {
        match position_by_id(&self.layer_surfaces, id) {
            Some(i) => {
                let surface = self.layer_surfaces[i].surface;
                self.layer_surfaces[i] = styled;
                self.commit_request(id, surface, request);
            },
            None => {},
        }
    }

    /// Creates a popup and tells the user interface of it.
    fn create_popup(&mut self, popup: SctkPopupSettings)
        ensures
            final(self)@ == old(self)@.create_popup(popup),
    {
        match self.get_popup(popup) {
            Ok((id, parent_id, toplevel_id, surface, common)) => {
                self.sctk_events.push(
                    SctkEvent::PopupEvent {
                        variant: PopupEventVariant::Created(surface, id, common),
                        toplevel_id,
                        parent_id,
                        id: surface,
                    },
                );
            },
            Err(_) => {},
        }
    }

    /// Sets the size of a popup: the popup is placed anew under the next
    /// token.
    fn resize_popup(&mut self, id: Id, width: u32, height: u32)
        ensures
            final(self)@ == old(self)@.resize_popup(id, width, height),
    {
        match position_by_id(&self.popups, id) {
            Some(i) => {
                let surface = self.popups[i].popup;
                self.token_ctr = if self.token_ctr == u32::MAX {
                    0
                } else {
                    self.token_ctr + 1
                };
                let token = self.token_ctr;
                self.popups[i].set_size(width, height, token, &mut self.requests);
                self.commit_later(id, surface);
            },
            None => {},
        }
    }

    /// Handles a popup action.
    ///
    /// A popup is destroyed only after every popup that is placed against
    /// it. An action on an unknown id is ignored, and so is a popup that
    /// cannot be created.
    pub fn handle_popup_action(&mut self, action: wayland::popup::Action)
        ensures
            final(self)@ == old(self)@.popup_action(action),
            old(self)@.wf() && old(self).next_surface < u64::MAX ==> final(self)@.wf(),
    {
        proof {
            if self@.wf() && self.next_surface < u64::MAX {
                crate::wellformed::lemma_popup_action_wf(self@, action);
            }
        }
        match action {
            wayland::popup::Action::Popup { popup } => {
                self.create_popup(popup);
            },
            wayland::popup::Action::Destroy { id } => {
                self.destroy_popup(id);
            },
            wayland::popup::Action::Size { id, width, height } => {
                self.resize_popup(id, width, height);
            },
            wayland::popup::Action::Grab { .. } => {},
        }
    }

    /// Finds the seat and serial that a request for an activation token
    /// goes with.
    pub fn token_serial(&self, surface: Option<ObjectId>) -> (found: Option<(ObjectId, u32)>)
        ensures
            found == token_serial(self.seats@, surface),
    {
        let surface = match surface {
            Some(surface) => surface,
            None => {
                return None;
            },
        };
        if self.seats.len() == 0 {
            return None;
        }
        let seat = self.seats[0];
        let on_keyboard: bool = match seat.kbd_focus {
            Some(focus) => focus == surface,
            None => false,
        };
        let on_pointer: bool = match seat.ptr_focus {
            Some(focus) => focus == surface,
            None => false,
        };
        if on_keyboard {
            match seat.last_kbd_press {
                Some(press) => Some((seat.seat, press.serial)),
                None => None,
            }
        } else if on_pointer {
            match seat.last_ptr_press {
                Some(press) => Some((seat.seat, press.serial)),
                None => None,
            }
        } else {
            None
        }
    }

    /// Handles an activation action.
    ///
    /// A token is asked for with the seat and serial of the last press on
    /// the surface, where a window is named and the active seat is on it;
    /// without a window, without them. Where the compositor has no
    /// activation global the user interface is told at once that there is no
    /// token, and a request to activate is dropped.
    pub fn handle_activation_action(&mut self, action: wayland::activation::Action)
        ensures
            final(self)@ == old(self)@.activation_action(action),
            old(self)@.wf() && old(self).next_surface < u64::MAX ==> final(self)@.wf(),
    {
        proof {
            if self@.wf() && self.next_surface < u64::MAX {
                crate::wellformed::lemma_handle_action_wf(self@, wayland::Action::Activation(action));
            }
        }
        match action {
            wayland::activation::Action::RequestToken { app_id, window } => {
                if self.globals.activation {
                    let surface: Option<ObjectId> = match window {
                        Some(id) => match self.window_surface(id) {
                            Some(surface) => Some(surface),
                            None => self.layer_surface(id),
                        },
                        None => None,
                    };
                    let seat_and_serial = self.token_serial(surface);
                    self.requests.push(Request::RequestToken { app_id, seat_and_serial, surface });
                } else {
                    self.sctk_events.push(SctkEvent::ActivationToken { token: None });
                }
            },
            wayland::activation::Action::Activate { window, token } => {
                match self.window_surface(window) {
                    Some(surface) => {
                        if self.globals.activation {
                            self.requests.push(Request::Activate { surface, token });
                        }
                    },
                    None => {},
                }
            },
        }
    }

    /// Destroys a lock surface that has been taken out of the table.
    fn lock_surface_gone(&mut self, lock: SctkLockSurface)
        ensures
            final(self)@ == old(self)@.lock_surface_gone(lock),
    {
        self.forget(lock.id, lock.session_lock_surface);
        self.requests.push(Request::DestroyLockSurface { surface: lock.session_lock_surface });
        self.sctk_events.push(
            SctkEvent::SessionLockSurfaceDone { surface: lock.session_lock_surface },
        );
    }

    /// Destroys every lock surface, in the order of the table.
    fn drop_lock_surfaces(&mut self)
        ensures
            final(self)@ == old(self)@.without_lock_surfaces(),
    {
        let mut gone: Vec<SctkLockSurface> = Vec::new();
        std::mem::swap(&mut self.lock_surfaces, &mut gone);
        let ghost start = self@;
        let mut k: usize = 0;
        while k < gone.len()
            invariant
                k <= gone.len(),
                self@ == start.lock_surfaces_gone(gone@, k as int),
            decreases gone.len() - k,
        {
            self.lock_surface_gone(gone[k]);
            k += 1;
        }
    }

    /// Locks the session, unless it is locked already or the compositor
    /// cannot lock it.
    fn lock(&mut self)
        ensures
            final(self)@ == old(self)@.lock(),
    {
        if !self.session_lock && self.globals.session_lock {
            self.session_lock = true;
            self.requests.push(Request::Lock);
        }
    }

    /// Unlocks the session. Every lock surface is destroyed, the lock is
    /// given up, and the compositor is waited for once, so that it has
    /// handled the unlock before the user interface is told.
    fn unlock(&mut self)
        ensures
            final(self)@ == old(self)@.unlock(),
    {
        let locked = self.session_lock;
        self.drop_lock_surfaces();
        if locked {
            self.requests.push(Request::Unlock);
        }
        self.session_lock = false;
        self.requests.push(Request::Roundtrip);
        self.sctk_events.push(SctkEvent::SessionUnlocked);
    }

    /// Creates a lock surface and tells the user interface of it.
    fn create_lock_surface(&mut self, id: Id, output: ObjectId)
        ensures
            final(self)@ == old(self)@.create_lock_surface(id, output),
    {
        match self.get_lock_surface(id, output) {
            Some((surface, common)) => {
                self.sctk_events.push(
                    SctkEvent::SessionLockSurfaceCreated { surface, native_id: id, common },
                );
            },
            None => {},
        }
    }

    /// Destroys the lock surface with the given id.
    fn destroy_lock_surface(&mut self, id: Id)
        ensures
            final(self)@ == old(self)@.destroy_lock_surface(id),
    {
        match position_by_id(&self.lock_surfaces, id) {
            Some(i) => {
                let gone = self.lock_surfaces.remove(i);
                self.lock_surface_gone(gone);
            },
            None => {},
        }
    }

    /// Handles a session lock action.
    ///
    /// Locking twice locks once. Unlocking destroys the lock surfaces and
    /// the lock and waits for the compositor once. A lock surface is created
    /// only while the session is locked: without a lock the action is
    /// dropped.
    pub fn handle_session_lock_action(&mut self, action: wayland::session_lock::Action)
        ensures
            final(self)@ == old(self)@.session_lock_action(action),
            old(self)@.wf() && old(self).next_surface < u64::MAX ==> final(self)@.wf(),
    {
        proof {
            if self@.wf() && self.next_surface < u64::MAX {
                crate::wellformed::lemma_session_lock_action_wf(self@, action);
            }
        }
        match action {
            wayland::session_lock::Action::Lock => {
                self.lock();
            },
            wayland::session_lock::Action::Unlock => {
                self.unlock();
            },
            wayland::session_lock::Action::LockSurface { id, output } => {
                self.create_lock_surface(id, output);
            },
            wayland::session_lock::Action::DestroyLockSurface { id } => {
                self.destroy_lock_surface(id);
            },
        }
    }

    /// Tells the user interface that the compositor has locked the session.
    pub fn locked(&mut self)
        ensures
            final(self)@ == (StateView {
                sctk_events: old(self)@.sctk_events.push(SctkEvent::SessionLocked),
                ..old(self)@
            }),
    {
        self.sctk_events.push(SctkEvent::SessionLocked);
    }

    /// Handles the end of the lock by the compositor, or its refusal: every
    /// lock surface is destroyed, the lock is gone, and the user interface
    /// is told.
    pub fn finished(&mut self)
        ensures
            final(self)@ == old(self)@.finished(),
            old(self)@.wf() ==> final(self)@.wf(),
    {
        proof {
            if self@.wf() {
                crate::wellformed::lemma_finished_wf(self@);
            }
        }
        self.drop_lock_surfaces();
        self.session_lock = false;
        self.sctk_events.push(SctkEvent::SessionLockFinished);
    }

    /// Hands an activation token to the user interface.
    pub fn new_token(&mut self, token: String)
        ensures
            final(self)@ == (StateView {
                sctk_events: old(self)@.sctk_events.push(
                    SctkEvent::ActivationToken { token: Some(token) },
                ),
                ..old(self)@
            }),
    {
        self.sctk_events.push(SctkEvent::ActivationToken { token: Some(token) });
    }

    /// Performs an action of the user interface.
    pub fn handle_action(&mut self, action: wayland::Action)
        ensures
            final(self)@ == old(self)@.handle_action(action),
            old(self)@.wf() && old(self).next_surface < u64::MAX ==> final(self)@.wf(),
    {
        proof {
            if self@.wf() && self.next_surface < u64::MAX {
                crate::wellformed::lemma_handle_action_wf(self@, action);
            }
        }
        match action {
            wayland::Action::LayerSurface(action) => {
                self.handle_layer_action(action);
            },
            wayland::Action::Window(action) => {
                self.handle_window_action(action);
            },
            wayland::Action::Popup(action) => {
                self.handle_popup_action(action);
            },
            wayland::Action::Activation(action) => {
                self.handle_activation_action(action);
            },
            wayland::Action::SessionLock(action) => {
                self.handle_session_lock_action(action);
            },
        }
    }
}

} // verus!
