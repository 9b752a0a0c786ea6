//! The state of the coordinator, and the creation of surfaces.

use crate::geometry::{at_least_one, non_zero, LogicalSize, Point};
use crate::request::Request;
use crate::sctk_event::SctkEvent;
use crate::seat::SctkSeat;
use crate::shell::{
    IcedOutput, ObjectId, SctkPopupSettings, WindowDecorations,
};
use crate::surface::{
    fit_layer_size, index_of_id, layer_size, or_zero, position_by_id, Common, SctkLayerSurface,
    SctkLockSurface, SctkPopup, SctkPopupData, SctkSurface, SctkWindow, WpViewport,
};
use crate::table::{distinct_keys, inserted, Table};
use crate::wayland::layer_surface::SctkLayerSurfaceSettings;
use crate::wayland::window::{limit_or_none, usable_limit, SctkWindowSettings};
use crate::window::Id;
use vstd::prelude::*;

verus! {

/// The optional globals that the compositor offers and the coordinator has
/// bound. What is missing here is not asked of the compositor.
#[derive(Debug, Clone, Copy, PartialEq, Eq, Structural)]
pub struct Globals {
    pub layer_shell: bool,
    pub session_lock: bool,
    pub activation: bool,
    pub viewporter: bool,
    pub fractional_scaling: bool,
}

/// Why a global could not be used.
#[derive(Debug, Clone, Copy, PartialEq, Eq, Structural)]
pub enum GlobalError {
    /// The compositor does not offer the global.
    MissingGlobal,
    /// The compositor offers the global at too low a version.
    InvalidVersion { required: u32, available: u32 },
}

/// Why a popup could not be created.
#[derive(Debug, Clone, Copy, PartialEq, Eq, Structural)]
pub enum PopupCreationError {
    /// Positioner creation failed.
    PositionerCreationFailed(GlobalError),
    /// The specified parent is missing.
    ParentMissing,
    /// The specified size is missing.
    SizeMissing,
    /// Popup creation failed.
    PopupCreationFailed(GlobalError),
}

impl PopupCreationError {
    /// What the error says to a reader.
    pub fn message(&self) -> (text: &'static str)
        ensures
            text@ == match *self {
                PopupCreationError::PositionerCreationFailed(_) => "Positioner creation failed"@,
                PopupCreationError::ParentMissing => "The specified parent is missing"@,
                PopupCreationError::SizeMissing => "The specified size is missing"@,
                PopupCreationError::PopupCreationFailed(_) => "Popup creation failed"@,
            },
    {
        match self {
            PopupCreationError::PositionerCreationFailed(_) => "Positioner creation failed",
            PopupCreationError::ParentMissing => "The specified parent is missing",
            PopupCreationError::SizeMissing => "The specified size is missing",
            PopupCreationError::PopupCreationFailed(_) => "Popup creation failed",
        }
    }
}

/// Why a layer surface could not be created.
#[derive(Debug, Clone, Copy, PartialEq, Eq, Structural)]
pub enum LayerSurfaceCreationError {
    /// Layer shell is not supported by the compositor.
    LayerShellNotSupported,
    /// Surface creation failed.
    WlSurfaceCreationFailed(GlobalError),
    /// Layer surface creation failed.
    LayerSurfaceCreationFailed(GlobalError),
}

impl LayerSurfaceCreationError {
    /// What the error says to a reader.
    pub fn message(&self) -> (text: &'static str)
        ensures
            text@ == match *self {
                LayerSurfaceCreationError::LayerShellNotSupported =>
                    "Layer shell is not supported by the compositor"@,
                LayerSurfaceCreationError::WlSurfaceCreationFailed(_) =>
                    "WlSurface creation failed"@,
                LayerSurfaceCreationError::LayerSurfaceCreationFailed(_) =>
                    "Layer Surface creation failed"@,
            },
    {
        match self {
            LayerSurfaceCreationError::LayerShellNotSupported => {
                "Layer shell is not supported by the compositor"
            },
            LayerSurfaceCreationError::WlSurfaceCreationFailed(_) => "WlSurface creation failed",
            LayerSurfaceCreationError::LayerSurfaceCreationFailed(_) => {
                "Layer Surface creation failed"
            },
        }
    }
}

/// Where a finger is.
#[derive(Debug, Clone, Copy, PartialEq, Eq, Structural)]
pub struct TouchPoint {
    pub surface: ObjectId,
    pub position: Point,
}

/// Everything the coordinator knows.
#[derive(Debug, Clone, PartialEq, Eq)]
pub struct SctkState {
    /// All present outputs.
    pub outputs: Vec<ObjectId>,
    /// All present seats. The first one is the active seat: only its input
    /// reaches the user interface.
    pub seats: Vec<SctkSeat>,
    pub windows: Vec<SctkWindow>,
    pub layer_surfaces: Vec<SctkLayerSurface>,
    /// The popups, each after the popup it is placed against.
    pub popups: Vec<SctkPopup>,
    pub lock_surfaces: Vec<SctkLockSurface>,
    /// Where each finger is, by the number of the finger.
    pub touch_points: Table<TouchPoint>,
    /// The events for the user interface that have not been handed over yet.
    pub sctk_events: Vec<SctkEvent>,
    /// The requests to the compositor that have not been handed over yet.
    pub requests: Vec<Request>,
    /// The surfaces that wait for a frame callback.
    pub requested_frame: Table<()>,
    pub globals: Globals,
    /// Whether the session is locked by this client.
    pub session_lock: bool,
    /// The token of the last request to place a popup anew.
    pub token_ctr: u32,
    /// The id of each surface.
    pub id_map: Table<Id>,
    /// The surfaces with changes that wait for a commit, by id.
    pub to_commit: Table<ObjectId>,
    /// Whether the user interface is ready for events.
    pub ready: bool,
    /// The name that the next surface gets.
    pub next_surface: u64,
}

/// The coordinator's state as mathematics.
#[verifier::ext_equal]
pub struct StateView {
    pub outputs: Seq<ObjectId>,
    pub seats: Seq<SctkSeat>,
    pub windows: Seq<SctkWindow>,
    pub layer_surfaces: Seq<SctkLayerSurface>,
    pub popups: Seq<SctkPopup>,
    pub lock_surfaces: Seq<SctkLockSurface>,
    pub touch_points: Seq<(u64, TouchPoint)>,
    pub sctk_events: Seq<SctkEvent>,
    pub requests: Seq<Request>,
    pub requested_frame: Seq<(u64, ())>,
    pub globals: Globals,
    pub session_lock: bool,
    pub token_ctr: u32,
    pub id_map: Seq<(u64, Id)>,
    pub to_commit: Seq<(u64, ObjectId)>,
    pub ready: bool,
    pub next_surface: u64,
}

impl View for SctkState {
    type V = StateView;

    open spec fn view(&self) -> StateView {
        StateView {
            outputs: self.outputs@,
            seats: self.seats@,
            windows: self.windows@,
            layer_surfaces: self.layer_surfaces@,
            popups: self.popups@,
            lock_surfaces: self.lock_surfaces@,
            touch_points: self.touch_points@,
            sctk_events: self.sctk_events@,
            requests: self.requests@,
            requested_frame: self.requested_frame@,
            globals: self.globals,
            session_lock: self.session_lock,
            token_ctr: self.token_ctr,
            id_map: self.id_map@,
            to_commit: self.to_commit@,
            ready: self.ready,
            next_surface: self.next_surface,
        }
    }
}

/// Whether the popup at `i` is placed against no popup, or against one that
/// stands before it.
pub open spec fn parent_stands_before(popups: Seq<SctkPopup>, i: int) -> bool {
    popups[i].data.parent matches SctkSurface::Popup(p) ==> exists|j: int|
        0 <= j < i && #[trigger] stands_at(popups, j, p)
}

/// Whether the popup at `j` has the surface `surface`.
pub open spec fn stands_at(popups: Seq<SctkPopup>, j: int, surface: ObjectId) -> bool {
    0 <= j < popups.len() && popups[j].popup == surface
}

/// Whether every popup has a surface of its own, named before the next
/// surface, and stands after the popup it is placed against.
pub open spec fn popups_ordered(popups: Seq<SctkPopup>, next_surface: u64) -> bool {
    &&& forall|i: int| 0 <= i < popups.len() ==> (#[trigger] popups[i]).popup.0 < next_surface
    &&& forall|i: int, j: int|
        0 <= i < j < popups.len() ==> (#[trigger] popups[i]).popup != (#[trigger] popups[j]).popup
    &&& forall|i: int| 0 <= i < popups.len() ==> #[trigger] parent_stands_before(popups, i)
}

/// The viewport that a new surface gets, where the compositor offers
/// viewports.
pub open spec fn new_viewport(globals: Globals, destination: Option<LogicalSize>) -> Option<
    WpViewport,
> {
    if globals.viewporter {
        Some(WpViewport { destination })
    } else {
        None
    }
}

/// `requests`, followed by `request` where it is wanted.
pub open spec fn push_if(requests: Seq<Request>, wanted: bool, request: Request) -> Seq<Request> {
    if wanted {
        requests.push(request)
    } else {
        requests
    }
}

/// `requests`, followed by what a new surface asks for beyond its role: a
/// viewport and reports of its fractional scale, where the compositor offers
/// them.
pub open spec fn scaling_requests(requests: Seq<Request>, globals: Globals, surface: ObjectId) -> Seq<
    Request,
> {
    push_if(
        push_if(requests, globals.viewporter, Request::GetViewport { surface }),
        globals.fractional_scaling,
        Request::GetFractionalScale { surface },
    )
}

/// The name after `next`, wrapping around at the end of the range.
pub open spec fn name_after(next: u64) -> u64 {
    if next == u64::MAX {
        0
    } else {
        (next + 1) as u64
    }
}

/// The decorations that a new window asks for.
pub open spec fn decorations_for(client_decorations: bool) -> WindowDecorations {
    if client_decorations {
        WindowDecorations::RequestClient
    } else {
        WindowDecorations::RequestServer
    }
}

/// The size a new window starts with: no dimension is zero.
pub open spec fn initial_size(settings: SctkWindowSettings) -> LogicalSize {
    LogicalSize {
        width: at_least_one(settings.size.width),
        height: at_least_one(settings.size.height),
    }
}

/// `requests`, followed by the requests that create a window on `surface`.
pub open spec fn window_requests(
    requests: Seq<Request>,
    settings: SctkWindowSettings,
    globals: Globals,
    surface: ObjectId,
) -> Seq<Request> {
    let created = requests.push(Request::CreateSurface { surface }).push(
        Request::CreateWindow {
            surface,
            decorations: decorations_for(settings.client_decorations),
        },
    );
    let named = match settings.app_id {
        Some(app_id) => created.push(Request::SetAppId { surface, app_id }),
        None => created,
    };
    let bounded_below = match usable_limit(settings.size_limits.min) {
        Some(size) => named.push(Request::SetMinSize { surface, size: Some(size) }),
        None => named,
    };
    let bounded = match usable_limit(settings.size_limits.max) {
        Some(size) => bounded_below.push(Request::SetMaxSize { surface, size: Some(size) }),
        None => bounded_below,
    };
    let titled = match settings.title {
        Some(title) => bounded.push(Request::SetTitle { surface, title }),
        None => bounded,
    };
    let committed = titled.push(
        Request::SetWindowGeometry {
            surface,
            x: 0,
            y: 0,
            width: initial_size(settings).width,
            height: initial_size(settings).height,
        },
    ).push(Request::Commit { surface });
    let activated = match settings.xdg_activation_token {
        Some(token) => push_if(
            committed,
            globals.activation,
            Request::Activate { surface, token },
        ),
        None => committed,
    };
    scaling_requests(activated, globals, surface)
}

/// The record of a new window on `surface`.
pub open spec fn window_record(settings: SctkWindowSettings, globals: Globals, surface: ObjectId) -> SctkWindow {
    SctkWindow {
        id: settings.window_id,
        window: surface,
        scale_factor: None,
        requested_size: Some(initial_size(settings)),
        current_size: initial_size(settings),
        last_configure: None,
        resizable: settings.resizable,
        wp_fractional_scale: globals.fractional_scaling,
        wp_viewport: new_viewport(globals, None),
    }
}

/// The output named by a choice of outputs, if it names one.
pub open spec fn chosen_output(output: IcedOutput) -> Option<ObjectId> {
    match output {
        IcedOutput::Output(o) => Some(o),
        _ => None,
    }
}

/// The size a new layer surface asks for.
pub open spec fn layer_request_size(settings: SctkLayerSurfaceSettings) -> (Option<u32>, Option<u32>) {
    layer_size(
        settings.anchor,
        match settings.size {
            Some(size) => size,
            None => (None, None),
        },
    )
}

/// The size a new layer surface is taken to have before the compositor has
/// said anything: one pixel in each dimension that is not asked for.
pub open spec fn layer_first_size(settings: SctkLayerSurfaceSettings) -> LogicalSize {
    LogicalSize {
        width: match layer_request_size(settings).0 {
            Some(w) => w,
            None => 1,
        },
        height: match layer_request_size(settings).1 {
            Some(h) => h,
            None => 1,
        },
    }
}

/// `requests`, followed by the requests that create a layer surface on
/// `surface`.
pub open spec fn layer_requests(
    requests: Seq<Request>,
    settings: SctkLayerSurfaceSettings,
    globals: Globals,
    surface: ObjectId,
) -> Seq<Request> {
    let shaped = requests.push(Request::CreateSurface { surface }).push(
        Request::CreateLayerSurface {
            surface,
            layer: settings.layer,
            namespace: settings.namespace,
            output: chosen_output(settings.output),
        },
    ).push(Request::SetAnchor { surface, anchor: settings.anchor }).push(
        Request::SetKeyboardInteractivity {
            surface,
            keyboard_interactivity: settings.keyboard_interactivity,
        },
    ).push(Request::SetMargin { surface, margin: settings.margin }).push(
        Request::SetLayerSize {
            surface,
            width: or_zero(layer_request_size(settings).0),
            height: or_zero(layer_request_size(settings).1),
        },
    ).push(Request::SetExclusiveZone { surface, exclusive_zone: settings.exclusive_zone });
    let committed = push_if(
        shaped,
        !settings.pointer_interactivity,
        Request::SetEmptyInputRegion { surface },
    ).push(Request::Commit { surface });
    scaling_requests(committed, globals, surface)
}

/// The record of a new layer surface on `surface`.
pub open spec fn layer_record(settings: SctkLayerSurfaceSettings, globals: Globals, surface: ObjectId) -> SctkLayerSurface {
    SctkLayerSurface {
        id: settings.id,
        surface,
        requested_size: layer_request_size(settings),
        current_size: None,
        layer: settings.layer,
        anchor: settings.anchor,
        keyboard_interactivity: settings.keyboard_interactivity,
        margin: settings.margin,
        exclusive_zone: settings.exclusive_zone,
        last_configure: None,
        wp_fractional_scale: globals.fractional_scaling,
        wp_viewport: new_viewport(globals, None),
        common: Common::of_size(layer_first_size(settings)),
    }
}

impl StateView {
    /// Whether the state is one that the coordinator can be in: every record
    /// is well-formed, the popups are in order, nothing is filed twice, and
    /// lock surfaces are there only while the session is locked.
    #[verifier::opaque]
    pub open spec fn wf(self) -> bool {
        &&& forall|i: int| 0 <= i < self.windows.len() ==> (#[trigger] self.windows[i]).wf()
        &&& forall|i: int|
            0 <= i < self.layer_surfaces.len() ==> (#[trigger] self.layer_surfaces[i]).wf()
        &&& forall|i: int| 0 <= i < self.popups.len() ==> (#[trigger] self.popups[i]).wf()
        &&& forall|i: int|
            0 <= i < self.lock_surfaces.len() ==> (#[trigger] self.lock_surfaces[i]).wf()
        &&& popups_ordered(self.popups, self.next_surface)
        &&& distinct_keys(self.to_commit)
        &&& distinct_keys(self.requested_frame)
        &&& distinct_keys(self.id_map)
        &&& distinct_keys(self.touch_points)
        &&& !self.session_lock ==> self.lock_surfaces.len() == 0
    }

    /// The state of a coordinator that has bound the given globals and
    /// knows of nothing else yet. The first surface gets the name 1.
    pub open spec fn initial(globals: Globals) -> StateView {
        StateView {
            outputs: Seq::empty(),
            seats: Seq::empty(),
            windows: Seq::empty(),
            layer_surfaces: Seq::empty(),
            popups: Seq::empty(),
            lock_surfaces: Seq::empty(),
            touch_points: Seq::empty(),
            sctk_events: Seq::empty(),
            requests: Seq::empty(),
            requested_frame: Seq::empty(),
            globals,
            session_lock: false,
            token_ctr: 0,
            id_map: Seq::empty(),
            to_commit: Seq::empty(),
            ready: true,
            next_surface: 1,
        }
    }

    /// The surface that is created next.
    pub open spec fn fresh(self) -> ObjectId {
        ObjectId(self.next_surface)
    }

    /// The state after the next surface has been named and filed under `id`.
    pub open spec fn named(self, id: Id) -> StateView {
        StateView {
            next_surface: name_after(self.next_surface),
            id_map: inserted(self.id_map, self.next_surface, id),
            ..self
        }
    }

    /// The state after `surface` has been marked as waiting for a commit.
    pub open spec fn pending(self, id: Id, surface: ObjectId) -> StateView {
        StateView { to_commit: inserted(self.to_commit, id.0, surface), ..self }
    }

    /// The state after a window has been created.
    pub open spec fn get_window(self, settings: SctkWindowSettings) -> StateView {
        let surface = self.fresh();
        StateView {
            windows: self.windows.push(window_record(settings, self.globals, surface)),
            requests: window_requests(self.requests, settings, self.globals, surface),
            ..self.named(settings.window_id)
        }
    }

    /// The state after a layer surface has been created, where the
    /// compositor has a layer shell.
    pub open spec fn get_layer_surface(self, settings: SctkLayerSurfaceSettings) -> StateView {
        if self.globals.layer_shell {
            let surface = self.fresh();
            StateView {
                layer_surfaces: self.layer_surfaces.push(
                    layer_record(settings, self.globals, surface),
                ),
                requests: layer_requests(self.requests, settings, self.globals, surface),
                ..self.named(settings.id)
            }
        } else {
            self
        }
    }

    /// The surface that a popup under `parent` is placed against, together
    /// with the window or layer surface at the root: a layer surface before
    /// a window, a window before a popup.
    pub open spec fn popup_parent(self, parent: Id) -> Option<(SctkSurface, ObjectId)> {
        match index_of_id(self.layer_surfaces, parent) {
            Some(i) => Some(
                (
                    SctkSurface::LayerSurface(self.layer_surfaces[i].surface),
                    self.layer_surfaces[i].surface,
                ),
            ),
            None => match index_of_id(self.windows, parent) {
                Some(i) => Some(
                    (SctkSurface::Window(self.windows[i].window), self.windows[i].window),
                ),
                None => match index_of_id(self.popups, parent) {
                    Some(i) => Some(
                        (SctkSurface::Popup(self.popups[i].popup), self.popups[i].data.toplevel),
                    ),
                    None => None,
                },
            },
        }
    }

    /// Why a popup cannot be created, if it cannot.
    pub open spec fn popup_error(self, settings: SctkPopupSettings) -> Option<PopupCreationError> {
        if self.popup_parent(settings.parent) is None {
            Some(PopupCreationError::ParentMissing)
        } else if settings.positioner.size is None {
            Some(PopupCreationError::SizeMissing)
        } else {
            None
        }
    }

    /// `requests`, followed by the requests that create a popup on
    /// `surface`. A popup that asks for a grab grabs the active seat, with
    /// the serial of its last press.
    pub open spec fn popup_requests(self, settings: SctkPopupSettings, surface: ObjectId) -> Seq<
        Request,
    > {
        let size = settings.positioner.size.unwrap();
        let created = self.requests.push(Request::CreateSurface { surface }).push(
            Request::CreatePopup {
                surface,
                parent: self.popup_parent(settings.parent).unwrap().0,
                positioner: settings.positioner,
                adjustment: settings.positioner.spec_known_adjustment(),
            },
        );
        let grabbed = if settings.grab && self.seats.len() > 0 {
            created.push(
                Request::Grab {
                    surface,
                    seat: self.seats[0].seat,
                    serial: self.seats[0].spec_grab_serial(),
                },
            )
        } else {
            created
        };
        let committed = grabbed.push(Request::Commit { surface });
        let shown = if self.globals.viewporter {
            committed.push(Request::GetViewport { surface }).push(
                Request::SetViewportDestination { surface, width: size.0, height: size.1 },
            )
        } else {
            committed
        };
        push_if(shown, self.globals.fractional_scaling, Request::GetFractionalScale { surface })
    }

    /// The record of a new popup on `surface`.
    pub open spec fn popup_record(self, settings: SctkPopupSettings, surface: ObjectId) -> SctkPopup {
        let size = LogicalSize {
            width: settings.positioner.size.unwrap().0,
            height: settings.positioner.size.unwrap().1,
        };
        SctkPopup {
            popup: surface,
            last_configure: None,
            data: SctkPopupData {
                id: settings.id,
                parent: self.popup_parent(settings.parent).unwrap().0,
                toplevel: self.popup_parent(settings.parent).unwrap().1,
                positioner: settings.positioner,
            },
            common: Common::of_size(size),
            wp_fractional_scale: self.globals.fractional_scaling,
            wp_viewport: new_viewport(self.globals, Some(size)),
        }
    }

    /// The state after a popup has been created, where it can be.
    pub open spec fn get_popup(self, settings: SctkPopupSettings) -> StateView {
        if self.popup_error(settings) is None {
            let surface = self.fresh();
            StateView {
                popups: self.popups.push(self.popup_record(settings, surface)),
                requests: self.popup_requests(settings, surface),
                ..self.named(settings.id)
            }
        } else {
            self
        }
    }

    /// The record of a new lock surface on `surface`.
    pub open spec fn lock_record(self, id: Id, surface: ObjectId) -> SctkLockSurface {
        SctkLockSurface {
            id,
            session_lock_surface: surface,
            last_configure: None,
            wp_fractional_scale: self.globals.fractional_scaling,
            wp_viewport: new_viewport(self.globals, None),
            common: Common::of_size(LogicalSize { width: 1, height: 1 }),
        }
    }

    /// The state after a lock surface has been created, where the session is
    /// locked.
    pub open spec fn get_lock_surface(self, id: Id, output: ObjectId) -> StateView {
        if self.session_lock {
            let surface = self.fresh();
            StateView {
                lock_surfaces: self.lock_surfaces.push(self.lock_record(id, surface)),
                requests: scaling_requests(
                    self.requests.push(Request::CreateSurface { surface }).push(
                        Request::CreateLockSurface { surface, output },
                    ),
                    self.globals,
                    surface,
                ),
                ..self.named(id)
            }
        } else {
            self
        }
    }
}

/// Appends the requests that create a window on `surface`.
fn push_window_requests(
    requests: &mut Vec<Request>,
    settings: SctkWindowSettings,
    globals: Globals,
    surface: ObjectId,
)
    ensures
        final(requests)@ == window_requests(old(requests)@, settings, globals, surface),
{
    let size = LogicalSize {
        width: non_zero(settings.size.width),
        height: non_zero(settings.size.height),
    };
    let decorations = if settings.client_decorations {
        WindowDecorations::RequestClient
    } else {
        WindowDecorations::RequestServer
    };
    requests.push(Request::CreateSurface { surface });
    requests.push(Request::CreateWindow { surface, decorations });
    match settings.app_id {
        Some(app_id) => {
            requests.push(Request::SetAppId { surface, app_id });
        },
        None => {},
    }
    match limit_or_none(settings.size_limits.min) {
        Some(limit) => {
            requests.push(Request::SetMinSize { surface, size: Some(limit) });
        },
        None => {},
    }
    match limit_or_none(settings.size_limits.max) {
        Some(limit) => {
            requests.push(Request::SetMaxSize { surface, size: Some(limit) });
        },
        None => {},
    }
    match settings.title {
        Some(title) => {
            requests.push(Request::SetTitle { surface, title });
        },
        None => {},
    }
    requests.push(
        Request::SetWindowGeometry { surface, x: 0, y: 0, width: size.width, height: size.height },
    );
    requests.push(Request::Commit { surface });
    match settings.xdg_activation_token {
        Some(token) => {
            if globals.activation {
                requests.push(Request::Activate { surface, token });
            }
        },
        None => {},
    }
    push_scaling_requests(requests, globals, surface);
}

/// Appends what a new surface asks for beyond its role.
fn push_scaling_requests(requests: &mut Vec<Request>, globals: Globals, surface: ObjectId)
    ensures
        final(requests)@ == scaling_requests(old(requests)@, globals, surface),
{
    if globals.viewporter {
        requests.push(Request::GetViewport { surface });
    }
    if globals.fractional_scaling {
        requests.push(Request::GetFractionalScale { surface });
    }
}

/// Appends the requests that create a layer surface on `surface`.
fn push_layer_requests(
    requests: &mut Vec<Request>,
    settings: SctkLayerSurfaceSettings,
    globals: Globals,
    surface: ObjectId,
)
    ensures
        final(requests)@ == layer_requests(old(requests)@, settings, globals, surface),
{
    let size = fit_layer_size(
        settings.anchor,
        match settings.size {
            Some(size) => size,
            None => (None, None),
        },
    );
    let output: Option<ObjectId> = match settings.output {
        IcedOutput::Output(o) => Some(o),
        _ => None,
    };
    requests.push(Request::CreateSurface { surface });
    requests.push(
        Request::CreateLayerSurface {
            surface,
            layer: settings.layer,
            namespace: settings.namespace,
            output,
        },
    );
    requests.push(Request::SetAnchor { surface, anchor: settings.anchor });
    requests.push(
        Request::SetKeyboardInteractivity {
            surface,
            keyboard_interactivity: settings.keyboard_interactivity,
        },
    );
    requests.push(Request::SetMargin { surface, margin: settings.margin });
    requests.push(
        Request::SetLayerSize {
            surface,
            width: match size.0 {
                Some(w) => w,
                None => 0,
            },
            height: match size.1 {
                Some(h) => h,
                None => 0,
            },
        },
    );
    requests.push(Request::SetExclusiveZone { surface, exclusive_zone: settings.exclusive_zone });
    if !settings.pointer_interactivity {
        requests.push(Request::SetEmptyInputRegion { surface });
    }
    requests.push(Request::Commit { surface });
    push_scaling_requests(requests, globals, surface);
}

impl SctkState {
    /// The state of a coordinator that has bound the given globals and knows
    /// of nothing else yet.
    pub fn new(globals: Globals) -> (state: SctkState)
        ensures
            state@ == StateView::initial(globals),
            state@.wf(),
    {
        reveal(StateView::wf);
        SctkState {
            outputs: Vec::new(),
            seats: Vec::new(),
            windows: Vec::new(),
            layer_surfaces: Vec::new(),
            popups: Vec::new(),
            lock_surfaces: Vec::new(),
            touch_points: Table::new(),
            sctk_events: Vec::new(),
            requests: Vec::new(),
            requested_frame: Table::new(),
            globals,
            session_lock: false,
            token_ctr: 0,
            id_map: Table::new(),
            to_commit: Table::new(),
            ready: true,
            next_surface: 1,
        }
    }

    /// Names the next surface and files it under `id`.
    pub(crate) fn name_surface(&mut self, id: Id) -> (surface: ObjectId)
        ensures
            surface == old(self)@.fresh(),
            final(self)@ == old(self)@.named(id),
    {
        let taken: u64 = self.next_surface;
        self.next_surface = if taken == u64::MAX {
            0
        } else {
            taken + 1
        };
        self.id_map.insert(taken, id);
        ObjectId(taken)
    }

    /// Marks a surface as waiting for a commit.
    pub(crate) fn commit_later(&mut self, id: Id, surface: ObjectId)
        ensures
            final(self)@ == old(self)@.pending(id, surface),
    {
        self.to_commit.insert(id.0, surface);
    }

    /// The viewport of a new surface.
    pub(crate) fn viewport_for(&self, destination: Option<LogicalSize>) -> (viewport: Option<
        WpViewport,
    >)
        ensures
            viewport == new_viewport(self.globals, destination),
    {
        if self.globals.viewporter {
            Some(WpViewport { destination })
        } else {
            None
        }
    }

    /// Creates a window: a surface with the role of a top-level window, with
    /// its app id, title, size limits and geometry, committed once.
    ///
    /// Returns the id of the window, its surface, and what the user interface
    /// reads of it.
    pub fn get_window(&mut self, settings: SctkWindowSettings) -> (made: (Id, ObjectId, Common))
        ensures
            final(self)@ == old(self)@.get_window(settings),
            made == (
                settings.window_id,
                old(self)@.fresh(),
                Common::of_size(initial_size(settings)),
            ),
            old(self)@.wf() && old(self).next_surface < u64::MAX ==> final(self)@.wf(),
    {
        proof {
            if self@.wf() && self.next_surface < u64::MAX {
                crate::wellformed::lemma_get_window_wf(self@, settings);
            }
        }
        let id = settings.window_id;
        let resizable = settings.resizable;
        let size = LogicalSize {
            width: non_zero(settings.size.width),
            height: non_zero(settings.size.height),
        };
        let surface = self.name_surface(id);
        push_window_requests(&mut self.requests, settings, self.globals, surface);
        let viewport = self.viewport_for(None);
        self.windows.push(
            SctkWindow {
                id,
                window: surface,
                scale_factor: None,
                requested_size: Some(size),
                current_size: size,
                last_configure: None,
                resizable,
                wp_fractional_scale: self.globals.fractional_scaling,
                wp_viewport: viewport,
            },
        );
        (id, surface, Common::from_size(size))
    }

    /// Creates a layer surface. A dimension that is stretched between two
    /// opposite edges is left to the compositor; every other is at least one.
    /// A surface without pointer interactivity gets an empty input region.
    ///
    /// Fails where the compositor has no layer shell, and then changes
    /// nothing.
    pub fn get_layer_surface(&mut self, settings: SctkLayerSurfaceSettings) -> (made: Result<
        (Id, ObjectId, Common),
        LayerSurfaceCreationError,
    >)
        ensures
            final(self)@ == old(self)@.get_layer_surface(settings),
            made == if old(self).globals.layer_shell {
                Ok::<(Id, ObjectId, Common), LayerSurfaceCreationError>(
                    (settings.id, old(self)@.fresh(), Common::of_size(layer_first_size(settings))),
                )
            } else {
                Err::<(Id, ObjectId, Common), LayerSurfaceCreationError>(
                    LayerSurfaceCreationError::LayerShellNotSupported,
                )
            },
            old(self)@.wf() && old(self).next_surface < u64::MAX ==> final(self)@.wf(),
    {
        proof {
            if self@.wf() && self.next_surface < u64::MAX {
                crate::wellformed::lemma_get_layer_surface_wf(self@, settings);
            }
        }
        if !self.globals.layer_shell {
            return Err(LayerSurfaceCreationError::LayerShellNotSupported);
        }
        let id = settings.id;
        let layer = settings.layer;
        let anchor = settings.anchor;
        let keyboard_interactivity = settings.keyboard_interactivity;
        let margin = settings.margin;
        let exclusive_zone = settings.exclusive_zone;
        let size = fit_layer_size(
            settings.anchor,
            match settings.size {
                Some(size) => size,
                None => (None, None),
            },
        );
        let first = LogicalSize {
            width: match size.0 {
                Some(w) => w,
                None => 1,
            },
            height: match size.1 {
                Some(h) => h,
                None => 1,
            },
        };
        let surface = self.name_surface(id);
        push_layer_requests(&mut self.requests, settings, self.globals, surface);
        let viewport = self.viewport_for(None);
        let common = Common::from_size(first);
        self.layer_surfaces.push(
            SctkLayerSurface {
                id,
                surface,
                requested_size: size,
                current_size: None,
                layer,
                anchor,
                keyboard_interactivity,
                margin,
                exclusive_zone,
                last_configure: None,
                wp_fractional_scale: self.globals.fractional_scaling,
                wp_viewport: viewport,
                common,
            },
        );
        Ok((id, surface, common))
    }

    /// Finds the surface that a popup under `parent` is placed against:
    /// among the layer surfaces first, then the windows, then the popups.
    pub fn popup_parent(&self, parent: Id) -> (found: Option<(SctkSurface, ObjectId)>)
        ensures
            found == self@.popup_parent(parent),
    {
        match position_by_id(&self.layer_surfaces, parent) {
            Some(i) => {
                let surface = self.layer_surfaces[i].surface;
                Some((SctkSurface::LayerSurface(surface), surface))
            },
            None => match position_by_id(&self.windows, parent) {
                Some(i) => {
                    let surface = self.windows[i].window;
                    Some((SctkSurface::Window(surface), surface))
                },
                None => match position_by_id(&self.popups, parent) {
                    Some(i) => Some(
                        (SctkSurface::Popup(self.popups[i].popup), self.popups[i].data.toplevel),
                    ),
                    None => None,
                },
            },
        }
    }

    /// Creates a popup against the surface with the id `settings.parent`.
    ///
    /// Fails with `ParentMissing` where no layer surface, window or popup has
    /// that id, and with `SizeMissing` where the positioner has no size; a
    /// failure changes nothing. A popup that asks for a grab grabs the
    /// active seat, with the serial of its last pointer press, or else of
    /// its last key press.
    ///
    /// Returns the id of the popup, the surface it is placed against, the
    /// window or layer surface at the root, its own surface, and what the
    /// user interface reads of it.
    pub fn get_popup(&mut self, settings: SctkPopupSettings) -> (made: Result<
        (Id, ObjectId, ObjectId, ObjectId, Common),
        PopupCreationError,
    >)
        ensures
            final(self)@ == old(self)@.get_popup(settings),
            made == match old(self)@.popup_error(settings) {
                Some(error) => Err::<(Id, ObjectId, ObjectId, ObjectId, Common), PopupCreationError>(
                    error,
                ),
                None => Ok::<(Id, ObjectId, ObjectId, ObjectId, Common), PopupCreationError>(
                    (
                        settings.id,
                        old(self)@.popup_parent(settings.parent).unwrap().0.spec_wl_surface(),
                        old(self)@.popup_parent(settings.parent).unwrap().1,
                        old(self)@.fresh(),
                        old(self)@.popup_record(settings, old(self)@.fresh()).common,
                    ),
                ),
            },
            old(self)@.wf() && old(self).next_surface < u64::MAX ==> final(self)@.wf(),
    {
        proof {
            if self@.wf() && self.next_surface < u64::MAX {
                crate::wellformed::lemma_get_popup_wf(self@, settings);
            }
        }
        let (parent, toplevel) = match self.popup_parent(settings.parent) {
            Some(found) => found,
            None => {
                return Err(PopupCreationError::ParentMissing);
            },
        };
        let size = match settings.positioner.size {
            Some(size) => size,
            None => {
                return Err(PopupCreationError::SizeMissing);
            },
        };
        let surface = self.name_surface(settings.id);
        self.requests.push(Request::CreateSurface { surface });
        self.requests.push(
            Request::CreatePopup {
                surface,
                parent,
                positioner: settings.positioner,
                adjustment: settings.positioner.known_adjustment(),
            },
        );
        if settings.grab && self.seats.len() > 0 {
            let seat = self.seats[0];
            self.requests.push(
                Request::Grab { surface, seat: seat.seat, serial: seat.grab_serial() },
            );
        }
        self.requests.push(Request::Commit { surface });
        if self.globals.viewporter {
            self.requests.push(Request::GetViewport { surface });
            self.requests.push(
                Request::SetViewportDestination { surface, width: size.0, height: size.1 },
            );
        }
        if self.globals.fractional_scaling {
            self.requests.push(Request::GetFractionalScale { surface });
        }
        let logical = LogicalSize { width: size.0, height: size.1 };
        let viewport = self.viewport_for(Some(logical));
        let common = Common::from_size(logical);
        self.popups.push(
            SctkPopup {
                popup: surface,
                last_configure: None,
                data: SctkPopupData {
                    id: settings.id,
                    parent,
                    toplevel,
                    positioner: settings.positioner,
                },
                common,
                wp_fractional_scale: self.globals.fractional_scaling,
                wp_viewport: viewport,
            },
        );
        Ok((settings.id, parent.wl_surface(), toplevel, surface, common))
    }

    /// Creates the lock surface of an output, where the session is locked.
    /// Without a lock nothing is created and nothing changes.
    pub fn get_lock_surface(&mut self, id: Id, output: ObjectId) -> (made: Option<
        (ObjectId, Common),
    >)
        ensures
            final(self)@ == old(self)@.get_lock_surface(id, output),
            made == if old(self).session_lock {
                Some((old(self)@.fresh(), Common::of_size(LogicalSize { width: 1, height: 1 })))
            } else {
                None::<(ObjectId, Common)>
            },
            old(self)@.wf() && old(self).next_surface < u64::MAX ==> final(self)@.wf(),
    {
        proof {
            if self@.wf() && self.next_surface < u64::MAX {
                crate::wellformed::lemma_get_lock_surface_wf(self@, id, output);
            }
        }
        if !self.session_lock {
            return None;
        }
        let surface = self.name_surface(id);
        self.requests.push(Request::CreateSurface { surface });
        self.requests.push(Request::CreateLockSurface { surface, output });
        push_scaling_requests(&mut self.requests, self.globals, surface);
        let viewport = self.viewport_for(None);
        let common = Common::from_size(LogicalSize { width: 1, height: 1 });
        self.lock_surfaces.push(
            SctkLockSurface {
                id,
                session_lock_surface: surface,
                last_configure: None,
                wp_fractional_scale: self.globals.fractional_scaling,
                wp_viewport: viewport,
                common,
            },
        );
        Some((surface, common))
    }
}

} // verus!
