//! What the coordinator does when the compositor speaks of a surface: a
//! change of scale, a configure, a request to close, a frame callback.

use crate::geometry::{LogicalSize, ScaleFactor};
use crate::input::WindowEvent;
use crate::request::Request;
use crate::sctk_event::{
    LayerSurfaceEventVariant, PopupEventVariant, SctkEvent, WindowEventVariant,
};
use crate::shell::{
    ConfigureKind, LayerSurfaceConfigure, ObjectId, PopupConfigure, SessionLockSurfaceConfigure,
    WindowConfigure,
};
use crate::state::{push_if, SctkState, StateView};
use crate::surface::{
    index_of_surface, position_by_surface, viewport_at, Common, SctkLayerSurface,
    SctkLockSurface, SctkPopup, SctkWindow, WpViewport,
};
use crate::table::{has_key, removed};
use crate::window::Id;
use vstd::prelude::*;

verus! {

/// The role of a surface, and the place of its record among those of its
/// role.
#[derive(Debug, Clone, Copy, PartialEq, Eq, Structural)]
pub enum Role {
    Window(usize),
    Popup(usize),
    LayerSurface(usize),
    LockSurface(usize),
}

/// `events`, followed by `event` where it is wanted.
pub open spec fn tell_if(events: Seq<SctkEvent>, wanted: bool, event: SctkEvent) -> Seq<SctkEvent> {
    if wanted {
        events.push(event)
    } else {
        events
    }
}

/// The buffer scale that goes with a scale factor: its whole part.
pub open spec fn buffer_scale(surface: ObjectId, scale: ScaleFactor) -> Request {
    Request::SetBufferScale { surface, scale: scale.0 / crate::geometry::SCALE_DENOMINATOR }
}

/// The event that tells of a new scale.
pub open spec fn scale_event(
    scale: ScaleFactor,
    viewport: Option<WpViewport>,
    surface: ObjectId,
    id: Id,
) -> SctkEvent {
    SctkEvent::SurfaceScaleFactorChanged { scale, viewport, surface, id }
}

/// The size that a popup or lock surface takes from a configure: the one
/// given, unless a dimension of it is not positive.
pub open spec fn configured_size(current: LogicalSize, width: i32, height: i32) -> LogicalSize {
    if width > 0 && height > 0 {
        LogicalSize { width: width as u32, height: height as u32 }
    } else {
        current
    }
}

impl StateView {
    /// The role of a surface: a window before a popup, a popup before a
    /// layer surface, a layer surface before a lock surface.
    pub open spec fn role_of(self, surface: ObjectId) -> Option<Role> {
        match index_of_surface(self.windows, surface) {
            Some(i) => Some(Role::Window(i as usize)),
            None => match index_of_surface(self.popups, surface) {
                Some(i) => Some(Role::Popup(i as usize)),
                None => match index_of_surface(self.layer_surfaces, surface) {
                    Some(i) => Some(Role::LayerSurface(i as usize)),
                    None => match index_of_surface(self.lock_surfaces, surface) {
                        Some(i) => Some(Role::LockSurface(i as usize)),
                        None => None,
                    },
                },
            },
        }
    }

    /// Whether reports of the fractional scale of a surface were asked for.
    pub open spec fn has_fractional_scale(self, surface: ObjectId) -> bool {
        match self.role_of(surface) {
            Some(Role::Window(i)) => self.windows[i as int].wp_fractional_scale,
            Some(Role::Popup(i)) => self.popups[i as int].wp_fractional_scale,
            Some(Role::LayerSurface(i)) => self.layer_surfaces[i as int].wp_fractional_scale,
            Some(Role::LockSurface(i)) => self.lock_surfaces[i as int].wp_fractional_scale,
            None => false,
        }
    }

    /// The scale that the user interface reads of a surface.
    pub open spec fn scale_of(self, surface: ObjectId) -> Option<ScaleFactor> {
        match self.role_of(surface) {
            Some(Role::Window(i)) => self.windows[i as int].scale_factor,
            Some(Role::Popup(i)) => self.popups[i as int].common.fractional_scale,
            Some(Role::LayerSurface(i)) => self.layer_surfaces[i as int].common.fractional_scale,
            Some(Role::LockSurface(i)) => self.lock_surfaces[i as int].common.fractional_scale,
            None => None,
        }
    }

    /// The state after the scale of a surface has changed. A whole-number
    /// scale from the outputs counts only for a surface whose fractional
    /// scale is not reported; an unknown surface changes nothing.
    pub open spec fn scale_factor_changed(
        self,
        surface: ObjectId,
        scale: ScaleFactor,
        legacy: bool,
    ) -> StateView {
        if legacy && self.has_fractional_scale(surface) {
            self
        } else {
            let requests = push_if(self.requests, legacy, buffer_scale(surface, scale));
            match self.role_of(surface) {
                Some(Role::Window(i)) => {
                    let w = self.windows[i as int];
                    StateView {
                        windows: self.windows.update(
                            i as int,
                            SctkWindow { scale_factor: Some(scale), ..w },
                        ),
                        requests,
                        sctk_events: self.sctk_events.push(
                            scale_event(scale, w.wp_viewport, surface, w.id),
                        ),
                        ..self
                    }
                },
                Some(Role::Popup(i)) => {
                    let p = self.popups[i as int];
                    StateView {
                        popups: self.popups.update(
                            i as int,
                            SctkPopup {
                                common: Common { fractional_scale: Some(scale), ..p.common },
                                ..p
                            },
                        ),
                        requests,
                        sctk_events: self.sctk_events.push(
                            scale_event(scale, p.wp_viewport, surface, p.data.id),
                        ),
                        ..self
                    }
                },
                Some(Role::LayerSurface(i)) => {
                    let l = self.layer_surfaces[i as int];
                    StateView {
                        layer_surfaces: self.layer_surfaces.update(
                            i as int,
                            SctkLayerSurface {
                                common: Common { fractional_scale: Some(scale), ..l.common },
                                ..l
                            },
                        ),
                        requests,
                        sctk_events: self.sctk_events.push(
                            scale_event(scale, l.wp_viewport, surface, l.id),
                        ),
                        ..self
                    }
                },
                Some(Role::LockSurface(i)) => {
                    let l = self.lock_surfaces[i as int];
                    StateView {
                        lock_surfaces: self.lock_surfaces.update(
                            i as int,
                            SctkLockSurface {
                                common: Common { fractional_scale: Some(scale), ..l.common },
                                ..l
                            },
                        ),
                        requests,
                        sctk_events: self.sctk_events.push(
                            scale_event(scale, l.wp_viewport, surface, l.id),
                        ),
                        ..self
                    }
                },
                None => self,
            }
        }
    }

    /// The id that the user interface gave a surface, as long as the
    /// surface is there.
    pub open spec fn id_of(self, surface: ObjectId) -> Option<Id> {
        crate::table::value_of(self.id_map, surface.0)
    }

    /// What the user interface reads of a surface: its scale, its size and
    /// its focus. Of a window only scale and size are kept.
    pub open spec fn common_of(self, surface: ObjectId) -> Option<Common> {
        match self.role_of(surface) {
            Some(Role::Window(i)) => Some(
                Common {
                    fractional_scale: self.windows[i as int].scale_factor,
                    ..Common::of_size(self.windows[i as int].current_size)
                },
            ),
            Some(Role::Popup(i)) => Some(self.popups[i as int].common),
            Some(Role::LayerSurface(i)) => Some(self.layer_surfaces[i as int].common),
            Some(Role::LockSurface(i)) => Some(self.lock_surfaces[i as int].common),
            None => None,
        }
    }

    /// The state after everything filed under a surface has been dropped:
    /// its id, its pending commit and its pending frame.
    pub open spec fn forgetting(self, id: Id, surface: ObjectId) -> StateView {
        StateView {
            id_map: removed(self.id_map, surface.0),
            to_commit: removed(self.to_commit, id.0),
            requested_frame: removed(self.requested_frame, surface.0),
            ..self
        }
    }

    /// The state after the compositor has configured a window.
    pub open spec fn configure(self, surface: ObjectId, configure: WindowConfigure) -> StateView {
        match index_of_surface(self.windows, surface) {
            Some(i) => {
                let w = self.windows[i];
                let state_changed = match w.last_configure {
                    Some(last) => last.state != configure.state,
                    None => true,
                };
                let capabilities_changed = match w.last_configure {
                    Some(last) => last.capabilities != configure.capabilities,
                    None => true,
                };
                let sized = w.with_size(configure.new_size);
                StateView {
                    windows: self.windows.update(
                        i,
                        SctkWindow { last_configure: Some(configure), ..sized },
                    ),
                    requests: self.requests + w.size_requests(configure.new_size),
                    sctk_events: tell_if(
                        tell_if(
                            self.sctk_events,
                            state_changed,
                            SctkEvent::WindowEvent {
                                variant: WindowEventVariant::StateChanged(configure.state),
                                id: surface,
                            },
                        ),
                        capabilities_changed,
                        SctkEvent::WindowEvent {
                            variant: WindowEventVariant::WmCapabilities(configure.capabilities),
                            id: surface,
                        },
                    ).push(
                        SctkEvent::WindowEvent {
                            variant: WindowEventVariant::Configure(
                                sized.current_size,
                                configure,
                                surface,
                                w.last_configure is None,
                            ),
                            id: surface,
                        },
                    ).push(SctkEvent::Frame(surface)),
                    ..self
                }
            },
            None => self,
        }
    }

    /// The state after the compositor has asked a window to close.
    pub open spec fn request_close(self, surface: ObjectId) -> StateView {
        match index_of_surface(self.windows, surface) {
            Some(_) => StateView {
                sctk_events: self.sctk_events.push(
                    SctkEvent::WindowEvent { variant: WindowEventVariant::Close, id: surface },
                ),
                ..self
            },
            None => self,
        }
    }

    /// The state after the compositor has configured a layer surface.
    pub open spec fn configure_layer(
        self,
        surface: ObjectId,
        configure: LayerSurfaceConfigure,
    ) -> StateView {
        match index_of_surface(self.layer_surfaces, surface) {
            Some(i) => {
                let l = self.layer_surfaces[i];
                let size = LogicalSize {
                    width: configure.new_size.0,
                    height: configure.new_size.1,
                };
                let sized = l.with_viewport(configure.new_size.0, configure.new_size.1);
                StateView {
                    layer_surfaces: self.layer_surfaces.update(
                        i,
                        SctkLayerSurface {
                            last_configure: Some(configure),
                            common: Common { size, ..l.common },
                            ..sized
                        },
                    ),
                    requests: self.requests + l.viewport_requests(
                        configure.new_size.0,
                        configure.new_size.1,
                    ),
                    sctk_events: self.sctk_events.push(
                        SctkEvent::LayerSurfaceEvent {
                            variant: LayerSurfaceEventVariant::Configure(
                                configure,
                                surface,
                                l.last_configure is None,
                            ),
                            id: surface,
                        },
                    ).push(SctkEvent::Frame(surface)),
                    ..self
                }
            },
            None => self,
        }
    }

    /// The state after the compositor has closed a layer surface.
    pub open spec fn closed_layer(self, surface: ObjectId) -> StateView {
        match index_of_surface(self.layer_surfaces, surface) {
            Some(i) => StateView {
                layer_surfaces: self.layer_surfaces.remove(i),
                requests: self.requests.push(Request::DestroyLayerSurface { surface }),
                sctk_events: self.sctk_events.push(
                    SctkEvent::LayerSurfaceEvent {
                        variant: LayerSurfaceEventVariant::Done,
                        id: surface,
                    },
                ),
                ..self.forgetting(self.layer_surfaces[i].id, surface)
            },
            None => self,
        }
    }

    /// The state after the compositor has configured a popup.
    pub open spec fn configure_popup(self, surface: ObjectId, configure: PopupConfigure) -> StateView {
        match index_of_surface(self.popups, surface) {
            Some(i) => {
                let p = self.popups[i];
                let size = configured_size(p.common.size, configure.width, configure.height);
                let told = self.sctk_events.push(
                    SctkEvent::PopupEvent {
                        variant: PopupEventVariant::Configure(
                            configure,
                            surface,
                            p.last_configure is None,
                        ),
                        toplevel_id: p.data.toplevel,
                        parent_id: p.data.parent.spec_wl_surface(),
                        id: surface,
                    },
                );
                StateView {
                    popups: self.popups.update(
                        i,
                        SctkPopup {
                            last_configure: Some(configure),
                            common: Common { size, ..p.common },
                            wp_viewport: viewport_at(p.wp_viewport, size),
                            ..p
                        },
                    ),
                    requests: push_if(
                        self.requests,
                        p.wp_viewport is Some,
                        Request::SetViewportDestination {
                            surface,
                            width: size.width,
                            height: size.height,
                        },
                    ),
                    sctk_events: match configure.kind {
                        ConfigureKind::Reposition { token } => told.push(
                            SctkEvent::PopupEvent {
                                variant: PopupEventVariant::RepositionionedPopup { token },
                                toplevel_id: p.data.toplevel,
                                parent_id: p.data.parent.spec_wl_surface(),
                                id: surface,
                            },
                        ),
                        _ => told,
                    },
                    ..self
                }
            },
            None => self,
        }
    }

    /// The state after the compositor has configured a lock surface.
    pub open spec fn configure_lock_surface(
        self,
        surface: ObjectId,
        configure: SessionLockSurfaceConfigure,
    ) -> StateView {
        match index_of_surface(self.lock_surfaces, surface) {
            Some(i) => {
                let l = self.lock_surfaces[i];
                let size = LogicalSize {
                    width: configure.new_size.0,
                    height: configure.new_size.1,
                };
                StateView {
                    lock_surfaces: self.lock_surfaces.update(
                        i,
                        SctkLockSurface {
                            last_configure: Some(configure),
                            common: Common { size, ..l.common },
                            wp_viewport: viewport_at(l.wp_viewport, size),
                            ..l
                        },
                    ),
                    requests: push_if(
                        self.requests,
                        l.wp_viewport is Some,
                        Request::SetViewportDestination {
                            surface,
                            width: size.width,
                            height: size.height,
                        },
                    ),
                    sctk_events: self.sctk_events.push(
                        SctkEvent::SessionLockSurfaceConfigure {
                            surface,
                            configure,
                            first: l.last_configure is None,
                        },
                    ),
                    ..self
                }
            },
            None => self,
        }
    }

    /// The state after the frame callback of a surface has fired: the
    /// surface no longer waits for one, and is to be drawn anew. A callback
    /// that nothing waits for changes nothing.
    pub open spec fn frame(self, surface: ObjectId) -> StateView {
        if has_key(self.requested_frame, surface.0) {
            StateView {
                requested_frame: removed(self.requested_frame, surface.0),
                sctk_events: self.sctk_events.push(
                    SctkEvent::Winit(surface, WindowEvent::RedrawRequested),
                ),
                ..self
            }
        } else {
            self
        }
    }
}

impl SctkState {
    /// Finds the record of a surface, whatever its role.
    pub fn find_surface(&self, surface: ObjectId) -> (role: Option<Role>)
        ensures
            role == self@.role_of(surface),
            role matches Some(Role::Window(i)) ==> i < self.windows.len(),
            role matches Some(Role::Popup(i)) ==> i < self.popups.len(),
            role matches Some(Role::LayerSurface(i)) ==> i < self.layer_surfaces.len(),
            role matches Some(Role::LockSurface(i)) ==> i < self.lock_surfaces.len(),
    {
        match position_by_surface(&self.windows, surface) {
            Some(i) => Some(Role::Window(i)),
            None => match position_by_surface(&self.popups, surface) {
                Some(i) => Some(Role::Popup(i)),
                None => match position_by_surface(&self.layer_surfaces, surface) {
                    Some(i) => Some(Role::LayerSurface(i)),
                    None => match position_by_surface(&self.lock_surfaces, surface) {
                        Some(i) => Some(Role::LockSurface(i)),
                        None => None,
                    },
                },
            },
        }
    }

    /// Finds the id that the user interface gave a surface. What the
    /// compositor says of a surface that has no id any more is dropped.
    pub fn id_of(&self, surface: ObjectId) -> (id: Option<Id>)
        ensures
            id == self@.id_of(surface),
    {
        self.id_map.get(surface.0)
    }

    /// Reads what the user interface needs of a surface without asking: its
    /// scale, its size and its focus.
    pub fn common_of(&self, surface: ObjectId) -> (common: Option<Common>)
        ensures
            common == self@.common_of(surface),
    {
        match self.find_surface(surface) {
            Some(Role::Window(i)) => {
                let mut common = Common::from_size(self.windows[i].current_size);
                common.fractional_scale = self.windows[i].scale_factor;
                Some(common)
            },
            Some(Role::Popup(i)) => Some(self.popups[i].common),
            Some(Role::LayerSurface(i)) => Some(self.layer_surfaces[i].common),
            Some(Role::LockSurface(i)) => Some(self.lock_surfaces[i].common),
            None => None,
        }
    }

    /// Drops everything filed under a surface: its id, its pending commit
    /// and its pending frame.
    pub(crate) fn forget(&mut self, id: Id, surface: ObjectId)
        ensures
            final(self)@ == old(self)@.forgetting(id, surface),
    {
        let _ = self.id_map.remove(surface.0);
        let _ = self.to_commit.remove(id.0);
        let _ = self.requested_frame.remove(surface.0);
    }

    /// Takes note of a new scale of a surface and tells the user interface.
    ///
    /// `legacy` says that the scale is the whole-number scale of the outputs
    /// that the surface is on. On a surface whose fractional scale is
    /// reported such a scale is ignored: nothing changes and nothing is
    /// told. Otherwise it is also set as the scale of the buffers. A scale
    /// for an unknown surface is ignored.
    pub fn scale_factor_changed(&mut self, surface: ObjectId, scale_factor: ScaleFactor, legacy: bool)
        ensures
            final(self)@ == old(self)@.scale_factor_changed(surface, scale_factor, legacy),
            legacy && old(self)@.has_fractional_scale(surface) ==> final(self)@ == old(self)@,
            old(self)@.wf() ==> final(self)@.wf(),
    {
        proof {
            if self@.wf() {
                crate::wellformed::lemma_scale_factor_changed_wf(
                    self@,
                    surface,
                    scale_factor,
                    legacy,
                );
            }
        }
        self.change_scale(surface, scale_factor, legacy);
    }

    /// Takes note of a new scale of a surface.
    fn change_scale(&mut self, surface: ObjectId, scale_factor: ScaleFactor, legacy: bool)
        ensures
            final(self)@ == old(self)@.scale_factor_changed(surface, scale_factor, legacy),
            legacy && old(self)@.has_fractional_scale(surface) ==> final(self)@ == old(self)@,
    {
        match self.find_surface(surface) {
            Some(Role::Window(i)) => {
                if legacy && self.windows[i].wp_fractional_scale {
                    return ;
                }
                self.windows[i].scale_factor = Some(scale_factor);
                if legacy {
                    self.requests.push(
                        Request::SetBufferScale { surface, scale: scale_factor.integer_part() },
                    );
                }
                self.sctk_events.push(
                    SctkEvent::SurfaceScaleFactorChanged {
                        scale: scale_factor,
                        viewport: self.windows[i].wp_viewport,
                        surface,
                        id: self.windows[i].id,
                    },
                );
            },
            Some(Role::Popup(i)) => {
                if legacy && self.popups[i].wp_fractional_scale {
                    return ;
                }
                self.popups[i].common.fractional_scale = Some(scale_factor);
                if legacy {
                    self.requests.push(
                        Request::SetBufferScale { surface, scale: scale_factor.integer_part() },
                    );
                }
                self.sctk_events.push(
                    SctkEvent::SurfaceScaleFactorChanged {
                        scale: scale_factor,
                        viewport: self.popups[i].wp_viewport,
                        surface,
                        id: self.popups[i].data.id,
                    },
                );
            },
            Some(Role::LayerSurface(i)) => {
                if legacy && self.layer_surfaces[i].wp_fractional_scale {
                    return ;
                }
                self.layer_surfaces[i].common.fractional_scale = Some(scale_factor);
                if legacy {
                    self.requests.push(
                        Request::SetBufferScale { surface, scale: scale_factor.integer_part() },
                    );
                }
                self.sctk_events.push(
                    SctkEvent::SurfaceScaleFactorChanged {
                        scale: scale_factor,
                        viewport: self.layer_surfaces[i].wp_viewport,
                        surface,
                        id: self.layer_surfaces[i].id,
                    },
                );
            },
            Some(Role::LockSurface(i)) => {
                if legacy && self.lock_surfaces[i].wp_fractional_scale {
                    return ;
                }
                self.lock_surfaces[i].common.fractional_scale = Some(scale_factor);
                if legacy {
                    self.requests.push(
                        Request::SetBufferScale { surface, scale: scale_factor.integer_part() },
                    );
                }
                self.sctk_events.push(
                    SctkEvent::SurfaceScaleFactorChanged {
                        scale: scale_factor,
                        viewport: self.lock_surfaces[i].wp_viewport,
                        surface,
                        id: self.lock_surfaces[i].id,
                    },
                );
            },
            None => {},
        }
    }

    /// Handles the configure of a window: tells of a changed state and of
    /// changed capabilities, takes on the new size, lets the viewport
    /// follow, and tells of the configure itself, marked as the first one
    /// where it is. A configure for an unknown surface is ignored.
    pub fn configure(&mut self, surface: ObjectId, configure: WindowConfigure)
        ensures
            final(self)@ == old(self)@.configure(surface, configure),
            old(self)@.wf() ==> final(self)@.wf(),
    {
        proof {
            if self@.wf() {
                crate::wellformed::lemma_configure_wf(self@, surface, configure);
            }
        }
        let i = match position_by_surface(&self.windows, surface) {
            Some(i) => i,
            None => {
                return ;
            },
        };
        let last = self.windows[i].last_configure;
        let state_changed: bool = match last {
            Some(last) => last.state != configure.state,
            None => true,
        };
        let capabilities_changed: bool = match last {
            Some(last) => last.capabilities != configure.capabilities,
            None => true,
        };
        if state_changed {
            self.sctk_events.push(
                SctkEvent::WindowEvent {
                    variant: WindowEventVariant::StateChanged(configure.state),
                    id: surface,
                },
            );
        }
        if capabilities_changed {
            self.sctk_events.push(
                SctkEvent::WindowEvent {
                    variant: WindowEventVariant::WmCapabilities(configure.capabilities),
                    id: surface,
                },
            );
        }
        self.windows[i].update_size(configure.new_size, &mut self.requests);
        self.windows[i].last_configure = Some(configure);
        self.sctk_events.push(
            SctkEvent::WindowEvent {
                variant: WindowEventVariant::Configure(
                    self.windows[i].current_size,
                    configure,
                    surface,
                    last.is_none(),
                ),
                id: surface,
            },
        );
        self.sctk_events.push(SctkEvent::Frame(surface));
        assert(self@ =~= old(self)@.configure(surface, configure));
    }

    /// Tells the user interface that the compositor asks a window to close.
    /// A request for an unknown surface is ignored.
    pub fn request_close(&mut self, surface: ObjectId)
        ensures
            final(self)@ == old(self)@.request_close(surface),
            old(self)@.wf() ==> final(self)@.wf(),
    {
        proof {
            if self@.wf() {
                crate::wellformed::lemma_request_close_wf(self@, surface);
            }
        }
        match position_by_surface(&self.windows, surface) {
            Some(_) => {
                self.sctk_events.push(
                    SctkEvent::WindowEvent { variant: WindowEventVariant::Close, id: surface },
                );
            },
            None => {},
        }
    }

    /// Handles the configure of a layer surface: takes on the size given,
    /// lets the viewport follow, and tells of the configure, marked as the
    /// first one where it is. A configure for an unknown surface is ignored.
    pub fn configure_layer(&mut self, surface: ObjectId, configure: LayerSurfaceConfigure)
        ensures
            final(self)@ == old(self)@.configure_layer(surface, configure),
            old(self)@.wf() ==> final(self)@.wf(),
    {
        proof {
            if self@.wf() {
                crate::wellformed::lemma_configure_layer_wf(self@, surface, configure);
            }
        }
        let i = match position_by_surface(&self.layer_surfaces, surface) {
            Some(i) => i,
            None => {
                return ;
            },
        };
        let first = self.layer_surfaces[i].last_configure.is_none();
        self.layer_surfaces[i].update_viewport(
            configure.new_size.0,
            configure.new_size.1,
            &mut self.requests,
        );
        self.layer_surfaces[i].last_configure = Some(configure);
        self.layer_surfaces[i].common.size = LogicalSize {
            width: configure.new_size.0,
            height: configure.new_size.1,
        };
        self.sctk_events.push(
            SctkEvent::LayerSurfaceEvent {
                variant: LayerSurfaceEventVariant::Configure(configure, surface, first),
                id: surface,
            },
        );
        self.sctk_events.push(SctkEvent::Frame(surface));
        assert(self@ =~= old(self)@.configure_layer(surface, configure));
    }

    /// Handles the closing of a layer surface by the compositor: the record
    /// goes first, then the surface is destroyed and the user interface is
    /// told. An unknown surface is ignored.
    pub fn closed_layer(&mut self, surface: ObjectId)
        ensures
            final(self)@ == old(self)@.closed_layer(surface),
            old(self)@.wf() ==> final(self)@.wf(),
    {
        proof {
            if self@.wf() {
                crate::wellformed::lemma_closed_layer_wf(self@, surface);
            }
        }
        match position_by_surface(&self.layer_surfaces, surface) {
            Some(i) => {
                let gone = self.layer_surfaces.remove(i);
                self.forget(gone.id, surface);
                self.requests.push(Request::DestroyLayerSurface { surface });
                self.sctk_events.push(
                    SctkEvent::LayerSurfaceEvent {
                        variant: LayerSurfaceEventVariant::Done,
                        id: surface,
                    },
                );
            },
            None => {},
        }
    }

    /// Handles the configure of a popup: takes on the size given where both
    /// of its dimensions are positive, lets the viewport follow, and tells of
    /// the configure and, where it answers a request to place the popup
    /// anew, of that too. A configure for an unknown surface is ignored.
    pub fn configure_popup(&mut self, surface: ObjectId, configure: PopupConfigure)
        ensures
            final(self)@ == old(self)@.configure_popup(surface, configure),
            old(self)@.wf() ==> final(self)@.wf(),
    {
        proof {
            if self@.wf() {
                crate::wellformed::lemma_configure_popup_wf(self@, surface, configure);
            }
        }
        let i = match position_by_surface(&self.popups, surface) {
            Some(i) => i,
            None => {
                return ;
            },
        };
        let p = self.popups[i];
        let size = if configure.width > 0 && configure.height > 0 {
            LogicalSize { width: configure.width as u32, height: configure.height as u32 }
        } else {
            p.common.size
        };
        self.popups[i].last_configure = Some(configure);
        self.popups[i].common.size = size;
        if p.wp_viewport.is_some() {
            self.popups[i].wp_viewport = Some(WpViewport { destination: Some(size) });
            self.requests.push(
                Request::SetViewportDestination {
                    surface,
                    width: size.width,
                    height: size.height,
                },
            );
        }
        self.sctk_events.push(
            SctkEvent::PopupEvent {
                variant: PopupEventVariant::Configure(
                    configure,
                    surface,
                    p.last_configure.is_none(),
                ),
                toplevel_id: p.data.toplevel,
                parent_id: p.data.parent.wl_surface(),
                id: surface,
            },
        );
        match configure.kind {
            ConfigureKind::Reposition { token } => {
                self.sctk_events.push(
                    SctkEvent::PopupEvent {
                        variant: PopupEventVariant::RepositionionedPopup { token },
                        toplevel_id: p.data.toplevel,
                        parent_id: p.data.parent.wl_surface(),
                        id: surface,
                    },
                );
            },
            _ => {},
        }
        assert(self@ =~= old(self)@.configure_popup(surface, configure));
    }

    /// Handles the configure of a lock surface: takes on the size given,
    /// lets the viewport follow, and tells of the configure, marked as the
    /// first one where it is. A configure for an unknown surface is ignored.
    pub fn configure_lock_surface(
        &mut self,
        surface: ObjectId,
        configure: SessionLockSurfaceConfigure,
    )
        ensures
            final(self)@ == old(self)@.configure_lock_surface(surface, configure),
            old(self)@.wf() ==> final(self)@.wf(),
    {
        proof {
            if self@.wf() {
                crate::wellformed::lemma_configure_lock_surface_wf(self@, surface, configure);
            }
        }
        let i = match position_by_surface(&self.lock_surfaces, surface) {
            Some(i) => i,
            None => {
                return ;
            },
        };
        let l = self.lock_surfaces[i];
        let size = LogicalSize { width: configure.new_size.0, height: configure.new_size.1 };
        self.lock_surfaces[i].last_configure = Some(configure);
        self.lock_surfaces[i].common.size = size;
        if l.wp_viewport.is_some() {
            self.lock_surfaces[i].wp_viewport = Some(WpViewport { destination: Some(size) });
            self.requests.push(
                Request::SetViewportDestination {
                    surface,
                    width: size.width,
                    height: size.height,
                },
            );
        }
        self.sctk_events.push(
            SctkEvent::SessionLockSurfaceConfigure {
                surface,
                configure,
                first: l.last_configure.is_none(),
            },
        );
        assert(self@ =~= old(self)@.configure_lock_surface(surface, configure));
    }

    /// Handles a frame callback: the surface no longer waits for one, and
    /// the user interface is told to draw it anew. A callback that nothing
    /// waits for is ignored.
    pub fn frame(&mut self, surface: ObjectId)
        ensures
            final(self)@ == old(self)@.frame(surface),
            old(self)@.wf() ==> final(self)@.wf(),
    {
        proof {
            if self@.wf() {
                crate::wellformed::lemma_frame_wf(self@, surface);
            }
        }
        if self.requested_frame.remove(surface.0) {
            self.sctk_events.push(SctkEvent::Winit(surface, WindowEvent::RedrawRequested));
        }
    }
}

} // verus!
