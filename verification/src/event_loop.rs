//! The dispatcher: the globals it binds at the start, the actions it takes
//! from the user interface, and what it hands over at the end of every
//! wake-up.

use crate::request::Request;
use crate::sctk_event::{SctkEvent, SubsurfaceState};
use crate::shell::{CursorIcon, ObjectId};
use crate::state::{Globals, SctkState, StateView};
use crate::table::{has_key, inserted, value_of};
use crate::wayland;
use vstd::prelude::*;

verus! {

/// What the dispatcher can do beyond the protocols it always has.
#[derive(Debug, Default, Clone, Copy, PartialEq, Eq)]
pub struct Features {}

/// The globals that the compositor advertises, each with its version.
#[derive(Debug, Clone, Copy, PartialEq, Eq, Structural)]
pub struct Advertised {
    pub compositor: Option<u32>,
    pub subcompositor: Option<u32>,
    pub shm: Option<u32>,
    pub xdg_wm_base: Option<u32>,
    pub layer_shell: Option<u32>,
    pub session_lock: Option<u32>,
    pub activation: Option<u32>,
    pub viewporter: Option<u32>,
    pub fractional_scale: Option<u32>,
    pub dmabuf: Option<u32>,
    pub alpha_modifier: Option<u32>,
}

/// A global that the dispatcher cannot do without.
#[derive(Debug, Clone, Copy, PartialEq, Eq, Structural)]
pub enum RequiredGlobal {
    Compositor,
    Shm,
    XdgShell,
}

/// Why the dispatcher could not start.
#[derive(Debug, Clone, Copy, PartialEq, Eq, Structural)]
pub enum InitError {
    /// A global that the dispatcher cannot do without is missing, or is
    /// advertised at too low a version.
    MissingGlobal(RequiredGlobal),
}

/// Whether a global can be bound at a version of at least `min`.
pub open spec fn usable(advertised: Option<u32>, min: u32) -> bool {
    advertised matches Some(v) && v >= min
}

/// Whether a global can be bound at a version of at least `min`.
pub fn can_bind(advertised: Option<u32>, min: u32) -> (bound: bool)
    ensures
        bound == usable(advertised, min),
{
    match advertised {
        Some(v) => v >= min,
        None => false,
    }
}

/// The first global that the dispatcher cannot do without and does not get.
pub open spec fn missing_global(advertised: Advertised) -> Option<RequiredGlobal> {
    if !usable(advertised.compositor, 1) {
        Some(RequiredGlobal::Compositor)
    } else if !usable(advertised.shm, 1) {
        Some(RequiredGlobal::Shm)
    } else if !usable(advertised.xdg_wm_base, 1) {
        Some(RequiredGlobal::XdgShell)
    } else {
        None
    }
}

/// The optional globals that are bound. Viewports serve fractional scaling
/// only: without reports of the fractional scale no viewport is used.
pub open spec fn bound_globals(advertised: Advertised) -> Globals {
    Globals {
        layer_shell: usable(advertised.layer_shell, 1),
        session_lock: usable(advertised.session_lock, 1),
        activation: usable(advertised.activation, 1),
        viewporter: usable(advertised.fractional_scale, 1) && usable(advertised.viewporter, 1),
        fractional_scaling: usable(advertised.fractional_scale, 1),
    }
}

/// What widgets get to embed surfaces of their own, where the compositor
/// offers both subsurfaces and viewports.
pub open spec fn subsurfaces(advertised: Advertised) -> Option<SubsurfaceState> {
    if usable(advertised.subcompositor, 1) && usable(advertised.viewporter, 1) {
        Some(
            SubsurfaceState {
                wp_dmabuf: usable(advertised.dmabuf, 2),
                wp_alpha_modifier: usable(advertised.alpha_modifier, 1),
            },
        )
    } else {
        None
    }
}

/// The exit code that goes with a failure of the event loop: the error
/// number of the system where there is one, else 1.
pub fn raw_os_err(code: Option<i32>) -> (exit: i32)
    ensures
        exit == match code {
            Some(c) => c,
            None => 1,
        },
{
    match code {
        Some(c) => c,
        None => 1,
    }
}

/// What the user interface sends to the dispatcher.
#[derive(Debug, Clone, PartialEq, Eq)]
pub enum Action {
    /// An action on a surface.
    Action(wayland::Action),
    /// Set the cursor icon of the application.
    SetCursor(CursorIcon),
    /// Draw a surface anew with the next frame.
    RequestRedraw(ObjectId),
    /// A surface is about to be presented.
    PrePresentNotify(ObjectId),
    /// The user interface is ready for events.
    Ready,
}

/// What the dispatcher hands over at the end of a wake-up.
#[derive(Debug, Clone, PartialEq, Eq)]
pub struct Dispatched {
    /// The requests for the compositor, in order.
    pub requests: Vec<Request>,
    /// The events for the user interface, in order.
    pub events: Vec<SctkEvent>,
}

/// `requests`, followed by a commit of each of the first `k` surfaces that
/// wait for one.
pub open spec fn with_commits(requests: Seq<Request>, pending: Seq<(u64, ObjectId)>, k: int) -> Seq<
    Request,
>
    decreases k,
{
    if 0 < k <= pending.len() {
        with_commits(requests, pending, k - 1).push(Request::Commit { surface: pending[k - 1].1 })
    } else {
        requests
    }
}

impl StateView {
    /// The state after a frame of a surface has been asked for. A surface
    /// waits for at most one frame callback: a second request before the
    /// callback has fired changes nothing, and so does a request for a
    /// surface that is not known.
    pub open spec fn request_frame(self, surface: ObjectId) -> StateView {
        match value_of(self.id_map, surface.0) {
            Some(id) => if has_key(self.requested_frame, surface.0) {
                self
            } else {
                StateView {
                    requested_frame: inserted(self.requested_frame, surface.0, ()),
                    requests: self.requests.push(Request::Frame { surface }),
                    to_commit: inserted(self.to_commit, id.0, surface),
                    ..self
                }
            },
            None => self,
        }
    }

    /// The state after what the user interface has sent.
    pub open spec fn handle(self, action: Action) -> StateView {
        match action {
            Action::Action(action) => self.handle_action(action),
            Action::SetCursor(icon) => self.set_cursor(icon),
            Action::RequestRedraw(surface) => self.request_frame(surface),
            Action::PrePresentNotify(surface) => self.request_frame(surface),
            Action::Ready => StateView { ready: true, ..self },
        }
    }

    /// The requests that are handed over at the end of a wake-up: those
    /// decided on, and one commit of every surface that waits for one.
    pub open spec fn outgoing(self) -> Seq<Request> {
        with_commits(self.requests, self.to_commit, self.to_commit.len() as int)
    }

    /// The state after a wake-up has ended: nothing waits to be handed over
    /// or committed any more. Before the user interface is ready nothing is
    /// handed over.
    pub open spec fn flushed(self) -> StateView {
        if self.ready {
            StateView {
                requests: Seq::empty(),
                sctk_events: Seq::empty(),
                to_commit: Seq::empty(),
                ..self
            }
        } else {
            self
        }
    }
}

impl SctkState {
    /// Asks for a frame of a surface, unless the surface waits for one
    /// already. The request goes out with the next commit of the surface.
    pub fn request_frame(&mut self, surface: ObjectId)
        ensures
            final(self)@ == old(self)@.request_frame(surface),
            old(self)@.wf() ==> final(self)@.wf(),
    {
        proof {
            if self@.wf() {
                crate::wellformed::lemma_request_frame_wf(self@, surface);
            }
        }
        match self.id_map.get(surface.0) {
            Some(id) => {
                if !self.requested_frame.contains_key(surface.0) {
                    self.requested_frame.insert(surface.0, ());
                    self.requests.push(Request::Frame { surface });
                    self.commit_later(id, surface);
                }
            },
            None => {},
        }
    }

    /// Handles what the user interface has sent.
    pub fn handle(&mut self, action: Action)
        ensures
            final(self)@ == old(self)@.handle(action),
            old(self)@.wf() && old(self).next_surface < u64::MAX ==> final(self)@.wf(),
    {
        proof {
            if self@.wf() && self.next_surface < u64::MAX {
                crate::wellformed::lemma_handle_wf(self@, action);
            }
        }
        match action {
            Action::Action(action) => {
                self.handle_action(action);
            },
            Action::SetCursor(icon) => {
                self.set_cursor(icon);
            },
            Action::RequestRedraw(surface) => {
                self.request_frame(surface);
            },
            Action::PrePresentNotify(surface) => {
                self.request_frame(surface);
            },
            Action::Ready => {
                self.ready = true;
            },
        }
    }

    /// Ends a wake-up: every surface that waits for a commit is committed
    /// once, however many changes it has seen, and the requests and events
    /// that have come up are handed over, each in the order in which they
    /// were decided on. Before the user interface is ready nothing is handed
    /// over and everything stays where it is.
    pub fn flush(&mut self) -> (out: Dispatched)
        ensures
            final(self)@ == old(self)@.flushed(),
            out.requests@ == if old(self).ready {
                old(self)@.outgoing()
            } else {
                Seq::<Request>::empty()
            },
            out.events@ == if old(self).ready {
                old(self)@.sctk_events
            } else {
                Seq::<SctkEvent>::empty()
            },
            old(self)@.wf() ==> final(self)@.wf(),
    {
        proof {
            if self@.wf() {
                crate::wellformed::lemma_flushed_wf(self@);
            }
        }
        if !self.ready {
            return Dispatched { requests: Vec::new(), events: Vec::new() };
        }
        let pending = self.to_commit.drain();
        let mut requests: Vec<Request> = Vec::new();
        std::mem::swap(&mut self.requests, &mut requests);
        let mut events: Vec<SctkEvent> = Vec::new();
        std::mem::swap(&mut self.sctk_events, &mut events);
        let mut k: usize = 0;
        while k < pending.len()
            invariant
                k <= pending.len(),
                requests@ == with_commits(old(self)@.requests, pending@, k as int),
            decreases pending.len() - k,
        {
            requests.push(Request::Commit { surface: pending[k].1 });
            k += 1;
        }
        Dispatched { requests, events }
    }
}

/// The dispatcher.
#[derive(Debug, Clone, PartialEq, Eq)]
pub struct SctkEventLoop {
    pub state: SctkState,
    pub features: Features,
}

impl SctkEventLoop {
    /// Starts the dispatcher on what the compositor advertises.
    ///
    /// The compositor, shared memory and the xdg shell have to be there:
    /// without one of them the dispatcher does not start. Everything else
    /// is bound where it is offered; what is missing is not asked for later.
    /// Where the compositor offers both subsurfaces and viewports, the user
    /// interface is told so at once.
    pub fn new(advertised: Advertised) -> (made: Result<SctkEventLoop, InitError>)
        ensures
            match missing_global(advertised) {
                Some(global) => made == Err::<SctkEventLoop, InitError>(
                    InitError::MissingGlobal(global),
                ),
                None => made is Ok && made->Ok_0.state@ == (StateView {
                    sctk_events: match subsurfaces(advertised) {
                        Some(state) => seq![SctkEvent::Subcompositor(state)],
                        None => Seq::empty(),
                    },
                    ..StateView::initial(bound_globals(advertised))
                }) && made->Ok_0.state@.wf(),
            },
    {
        if !can_bind(advertised.compositor, 1) {
            return Err(InitError::MissingGlobal(RequiredGlobal::Compositor));
        }
        if !can_bind(advertised.shm, 1) {
            return Err(InitError::MissingGlobal(RequiredGlobal::Shm));
        }
        if !can_bind(advertised.xdg_wm_base, 1) {
            return Err(InitError::MissingGlobal(RequiredGlobal::XdgShell));
        }
        let fractional_scaling = can_bind(advertised.fractional_scale, 1);
        let globals = Globals {
            layer_shell: can_bind(advertised.layer_shell, 1),
            session_lock: can_bind(advertised.session_lock, 1),
            activation: can_bind(advertised.activation, 1),
            viewporter: fractional_scaling && can_bind(advertised.viewporter, 1),
            fractional_scaling,
        };
        let mut state = SctkState::new(globals);
        proof {
            reveal(StateView::wf);
        }
        if can_bind(advertised.subcompositor, 1) && can_bind(advertised.viewporter, 1) {
            state.sctk_events.push(
                SctkEvent::Subcompositor(
                    SubsurfaceState {
                        wp_dmabuf: can_bind(advertised.dmabuf, 2),
                        wp_alpha_modifier: can_bind(advertised.alpha_modifier, 1),
                    },
                ),
            );
        }
        Ok(SctkEventLoop { state, features: Features {  } })
    }
}

} // verus!
