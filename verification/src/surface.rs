//! The records the coordinator keeps of its surfaces, one kind for each role.

use crate::geometry::{non_zero, at_least_one, LogicalPosition, LogicalSize, ScaleFactor};
use crate::request::Request;
use crate::shell::{
    Anchor, IcedMargin, KeyboardInteractivity, Layer, LayerSurfaceConfigure, ObjectId,
    PopupConfigure, SctkPositioner, SessionLockSurfaceConfigure, WindowConfigure,
};
use crate::window::Id;
use vstd::prelude::*;

verus! {

/// The viewport of a surface: the logical size its buffer is shown at, once
/// one has been set.
#[derive(Debug, Clone, Copy, PartialEq, Eq, Structural, Hash)]
pub struct WpViewport {
    pub destination: Option<LogicalSize>,
}

/// What the user interface reads of a surface without asking: its scale, its
/// size and its focus.
#[derive(Debug, Clone, Copy, PartialEq, Eq, Structural, Hash)]
pub struct Common {
    pub fractional_scale: Option<ScaleFactor>,
    pub has_focus: bool,
    pub ime_pos: LogicalPosition,
    pub ime_size: LogicalSize,
    pub size: LogicalSize,
}

impl Common {
    /// The block of a surface of which only the size is known.
    pub open spec fn of_size(size: LogicalSize) -> Common {
        Common {
            fractional_scale: None,
            has_focus: false,
            ime_pos: LogicalPosition { x: 0, y: 0 },
            ime_size: LogicalSize { width: 0, height: 0 },
            size,
        }
    }

    /// The block of a surface of which only the size is known.
    pub fn from_size(size: LogicalSize) -> (common: Common)
        ensures
            common == Common::of_size(size),
    {
        Common {
            fractional_scale: None,
            has_focus: false,
            ime_pos: LogicalPosition { x: 0, y: 0 },
            ime_size: LogicalSize { width: 0, height: 0 },
            size,
        }
    }
}

impl Default for Common {
    /// The block of a surface of which nothing is known: one pixel large.
    fn default() -> (common: Common)
        ensures
            common == Common::of_size(LogicalSize { width: 1, height: 1 }),
    {
        Common::from_size(LogicalSize { width: 1, height: 1 })
    }
}

/// A surface together with the role it has.
#[derive(Debug, Clone, Copy, PartialEq, Eq, Structural, Hash)]
pub enum SctkSurface {
    LayerSurface(ObjectId),
    Window(ObjectId),
    Popup(ObjectId),
}

impl SctkSurface {
    /// The surface, whatever its role.
    pub open spec fn spec_wl_surface(&self) -> ObjectId {
        match *self {
            SctkSurface::LayerSurface(s) => s,
            SctkSurface::Window(s) => s,
            SctkSurface::Popup(s) => s,
        }
    }

    /// The surface, whatever its role.
    #[verifier::when_used_as_spec(spec_wl_surface)]
    pub fn wl_surface(&self) -> (surface: ObjectId)
        ensures
            surface == self.spec_wl_surface(),
    {
        match *self {
            SctkSurface::LayerSurface(s) => s,
            SctkSurface::Window(s) => s,
            SctkSurface::Popup(s) => s,
        }
    }
}

/// What the lookups need of a record: the id the user interface gave it and
/// the surface it stands for.
pub trait Record: Sized {
    spec fn spec_id(&self) -> Id;

    spec fn spec_surface(&self) -> ObjectId;

    fn id(&self) -> (id: Id)
        ensures
            id == self.spec_id(),
    ;

    fn surface(&self) -> (surface: ObjectId)
        ensures
            surface == self.spec_surface(),
    ;
}

/// Whether `i` is the place of the first record with the given id.
pub open spec fn first_with_id<R: Record>(records: Seq<R>, id: Id, i: int) -> bool {
    &&& 0 <= i < records.len()
    &&& records[i].spec_id() == id
    &&& forall|j: int| 0 <= j < i ==> (#[trigger] records[j]).spec_id() != id
}

/// Whether `i` is the place of the first record of the given surface.
pub open spec fn first_with_surface<R: Record>(records: Seq<R>, surface: ObjectId, i: int) -> bool {
    &&& 0 <= i < records.len()
    &&& records[i].spec_surface() == surface
    &&& forall|j: int| 0 <= j < i ==> (#[trigger] records[j]).spec_surface() != surface
}

/// The place of the first record with the given id, if there is one.
pub open spec fn index_of_id<R: Record>(records: Seq<R>, id: Id) -> Option<int> {
    if exists|i: int| first_with_id(records, id, i) {
        Some(choose|i: int| first_with_id(records, id, i))
    } else {
        None
    }
}

/// The place of the first record of the given surface, if there is one.
pub open spec fn index_of_surface<R: Record>(records: Seq<R>, surface: ObjectId) -> Option<int> {
    if exists|i: int| first_with_surface(records, surface, i) {
        Some(choose|i: int| first_with_surface(records, surface, i))
    } else {
        None
    }
}

/// A place in a vector as a place in the sequence it stands for.
pub open spec fn as_place(found: Option<usize>) -> Option<int> {
    match found {
        Some(i) => Some(i as int),
        None => None,
    }
}

/// Finds the first record with the given id.
pub fn position_by_id<R: Record>(records: &Vec<R>, id: Id) -> (found: Option<usize>)
    ensures
        as_place(found) == index_of_id(records@, id),
        found matches Some(i) ==> first_with_id(records@, id, i as int),
        found is None ==> forall|j: int|
            0 <= j < records.len() ==> (#[trigger] records@[j]).spec_id() != id,
{
    let mut i: usize = 0;
    while i < records.len()
        invariant
            i <= records.len(),
            forall|j: int| 0 <= j < i ==> (#[trigger] records@[j]).spec_id() != id,
        decreases records.len() - i,
    {
        if records[i].id() == id {
            assert(first_with_id(records@, id, i as int));
            return Some(i);
        }
        i += 1;
    }
    None
}

/// Finds the first record of the given surface.
pub fn position_by_surface<R: Record>(records: &Vec<R>, surface: ObjectId) -> (found: Option<
    usize,
>)
    ensures
        as_place(found) == index_of_surface(records@, surface),
        found matches Some(i) ==> first_with_surface(records@, surface, i as int),
        found is None ==> forall|j: int|
            0 <= j < records.len() ==> (#[trigger] records@[j]).spec_surface() != surface,
{
    let mut i: usize = 0;
    while i < records.len()
        invariant
            i <= records.len(),
            forall|j: int| 0 <= j < i ==> (#[trigger] records@[j]).spec_surface() != surface,
        decreases records.len() - i,
    {
        if records[i].surface() == surface {
            assert(first_with_surface(records@, surface, i as int));
            return Some(i);
        }
        i += 1;
    }
    None
}

/// A top-level window.
#[derive(Debug, Clone, Copy, PartialEq, Eq)]
pub struct SctkWindow {
    pub id: Id,
    /// The surface of the window.
    pub window: ObjectId,
    pub scale_factor: Option<ScaleFactor>,
    pub requested_size: Option<LogicalSize>,
    /// The logical size of the window; no dimension of it is zero.
    pub current_size: LogicalSize,
    pub last_configure: Option<WindowConfigure>,
    /// The width of the border that starts a resize when it is dragged, in
    /// logical pixels. Without one the window is not resized by its border.
    pub resizable: Option<u32>,
    /// Whether the preferred fractional scale of the surface is reported.
    pub wp_fractional_scale: bool,
    pub wp_viewport: Option<WpViewport>,
}

/// The viewport after its destination has been set to `size`, where there is
/// one.
pub open spec fn viewport_at(viewport: Option<WpViewport>, size: LogicalSize) -> Option<WpViewport> {
    match viewport {
        Some(_) => Some(WpViewport { destination: Some(size) }),
        None => None,
    }
}

/// Whether a viewport, where there is one, shows its buffer at `size`.
pub open spec fn viewport_shows(viewport: Option<WpViewport>, size: LogicalSize) -> bool {
    viewport matches Some(v) ==> v.destination == Some(size)
}

/// Whether a viewport, where there is one and its destination has been set,
/// shows its buffer at `size`.
pub open spec fn viewport_agrees(viewport: Option<WpViewport>, size: LogicalSize) -> bool {
    viewport matches Some(v) ==> (v.destination matches Some(d) ==> d == size)
}

impl SctkWindow {
    /// No dimension is zero, and the viewport follows the size: once its
    /// destination has been set it is the size of the window, and it has
    /// been set once the compositor has configured the window.
    pub open spec fn wf(self) -> bool {
        &&& self.current_size.width >= 1
        &&& self.current_size.height >= 1
        &&& viewport_agrees(self.wp_viewport, self.current_size)
        &&& self.last_configure is Some ==> viewport_shows(self.wp_viewport, self.current_size)
    }

    /// The size after an update that leaves a missing dimension as it is and
    /// collapses a zero to one.
    pub open spec fn updated_size(self, size: (Option<u32>, Option<u32>)) -> LogicalSize {
        LogicalSize {
            width: match size.0 {
                Some(w) => at_least_one(w),
                None => self.current_size.width,
            },
            height: match size.1 {
                Some(h) => at_least_one(h),
                None => self.current_size.height,
            },
        }
    }

    /// The window after its size has been updated.
    pub open spec fn with_size(self, size: (Option<u32>, Option<u32>)) -> SctkWindow {
        SctkWindow {
            current_size: self.updated_size(size),
            wp_viewport: viewport_at(self.wp_viewport, self.updated_size(size)),
            ..self
        }
    }

    /// What an update of the size asks of the compositor: the new geometry
    /// where the size changes, and the new destination of the viewport where
    /// it does not show the buffer at that size yet.
    pub open spec fn size_requests(self, size: (Option<u32>, Option<u32>)) -> Seq<Request> {
        let new = self.updated_size(size);
        let geometry = if new != self.current_size {
            seq![
                Request::SetWindowGeometry {
                    surface: self.window,
                    x: 0,
                    y: 0,
                    width: new.width,
                    height: new.height,
                },
            ]
        } else {
            Seq::<Request>::empty()
        };
        let destination = if self.wp_viewport is Some && !viewport_shows(self.wp_viewport, new) {
            seq![
                Request::SetViewportDestination {
                    surface: self.window,
                    width: new.width,
                    height: new.height,
                },
            ]
        } else {
            Seq::<Request>::empty()
        };
        geometry + destination
    }

    /// Sets the size the user interface asks for.
    pub fn set_size(&mut self, logical_size: LogicalSize, requests: &mut Vec<Request>)
        ensures
            *final(self) == (SctkWindow {
                requested_size: Some(
                    LogicalSize {
                        width: at_least_one(logical_size.width),
                        height: at_least_one(logical_size.height),
                    },
                ),
                ..*old(self)
            }).with_size((Some(logical_size.width), Some(logical_size.height))),
            final(requests)@ == old(requests)@ + old(self).size_requests(
                (Some(logical_size.width), Some(logical_size.height)),
            ),
            old(self).wf() ==> final(self).wf(),
    {
        self.requested_size = Some(
            LogicalSize {
                width: non_zero(logical_size.width),
                height: non_zero(logical_size.height),
            },
        );
        self.update_size((Some(logical_size.width), Some(logical_size.height)), requests);
    }

    /// Takes on a new size. A missing dimension stays as it is, a zero
    /// collapses to one, and the viewport follows.
    pub fn update_size(&mut self, size: (Option<u32>, Option<u32>), requests: &mut Vec<Request>)
        ensures
            *final(self) == old(self).with_size(size),
            final(requests)@ == old(requests)@ + old(self).size_requests(size),
            viewport_shows(final(self).wp_viewport, final(self).current_size),
            old(self).wf() ==> final(self).wf(),
    {
        let width: u32 = match size.0 {
            Some(w) => non_zero(w),
            None => self.current_size.width,
        };
        let height: u32 = match size.1 {
            Some(h) => non_zero(h),
            None => self.current_size.height,
        };
        let new = LogicalSize { width, height };
        let ghost before = requests@;
        if new != self.current_size {
            requests.push(
                Request::SetWindowGeometry { surface: self.window, x: 0, y: 0, width, height },
            );
            self.current_size = new;
        }
        match self.wp_viewport {
            Some(viewport) => {
                let shown: bool = match viewport.destination {
                    Some(d) => d == new,
                    None => false,
                };
                if !shown {
                    requests.push(
                        Request::SetViewportDestination { surface: self.window, width, height },
                    );
                }
                self.wp_viewport = Some(WpViewport { destination: Some(new) });
            },
            None => {},
        }
        assert(requests@ =~= before + old(self).size_requests(size));
    }
}

impl Record for SctkWindow {
    open spec fn spec_id(&self) -> Id {
        self.id
    }

    open spec fn spec_surface(&self) -> ObjectId {
        self.window
    }

    fn id(&self) -> (id: Id) {
        self.id
    }

    fn surface(&self) -> (surface: ObjectId) {
        self.window
    }
}

/// The size of a layer surface that is handed to the compositor: a dimension
/// that is stretched between two opposite edges is left out, and every other
/// is at least one.
pub open spec fn layer_size(anchor: Anchor, size: (Option<u32>, Option<u32>)) -> (
    Option<u32>,
    Option<u32>,
) {
    (
        if anchor.spans_horizontally() {
            None
        } else {
            Some(
                match size.0 {
                    Some(w) => at_least_one(w),
                    None => 1u32,
                },
            )
        },
        if anchor.spans_vertically() {
            None
        } else {
            Some(
                match size.1 {
                    Some(h) => at_least_one(h),
                    None => 1u32,
                },
            )
        },
    )
}

/// Fits the size asked for to the anchors.
pub fn fit_layer_size(anchor: Anchor, size: (Option<u32>, Option<u32>)) -> (fitted: (
    Option<u32>,
    Option<u32>,
))
    ensures
        fitted == layer_size(anchor, size),
{
    let width: Option<u32> = if anchor.left && anchor.right {
        None
    } else {
        Some(
            match size.0 {
                Some(w) => non_zero(w),
                None => 1,
            },
        )
    };
    let height: Option<u32> = if anchor.top && anchor.bottom {
        None
    } else {
        Some(
            match size.1 {
                Some(h) => non_zero(h),
                None => 1,
            },
        )
    };
    (width, height)
}

/// The number that stands for a dimension on the wire: zero leaves it to the
/// anchors.
pub open spec fn or_zero(dimension: Option<u32>) -> u32 {
    match dimension {
        Some(d) => d,
        None => 0,
    }
}

/// A layer surface.
#[derive(Debug, Clone, Copy, PartialEq, Eq)]
pub struct SctkLayerSurface {
    pub id: Id,
    pub surface: ObjectId,
    /// The size asked for. A dimension is missing exactly where the surface
    /// is stretched between two opposite edges.
    pub requested_size: (Option<u32>, Option<u32>),
    /// The size the compositor gave, once it has configured the surface.
    pub current_size: Option<LogicalSize>,
    pub layer: Layer,
    pub anchor: Anchor,
    pub keyboard_interactivity: KeyboardInteractivity,
    pub margin: IcedMargin,
    pub exclusive_zone: i32,
    pub last_configure: Option<LayerSurfaceConfigure>,
    pub wp_fractional_scale: bool,
    pub wp_viewport: Option<WpViewport>,
    pub common: Common,
}

impl SctkLayerSurface {
    /// A dimension that is stretched between two opposite edges is not asked
    /// for, and the viewport follows the size: its destination is the size
    /// the compositor gave, and there is one once the compositor has
    /// configured the surface.
    pub open spec fn wf(self) -> bool {
        &&& self.anchor.spans_horizontally() ==> self.requested_size.0 is None
        &&& self.anchor.spans_vertically() ==> self.requested_size.1 is None
        &&& self.wp_viewport matches Some(v) ==> v.destination == self.current_size
        &&& self.last_configure is Some ==> self.current_size is Some
    }

    /// The surface after a size has been asked for.
    pub open spec fn with_requested_size(self, w: Option<u32>, h: Option<u32>) -> SctkLayerSurface {
        SctkLayerSurface {
            requested_size: (
                if self.anchor.spans_horizontally() {
                    None
                } else {
                    w
                },
                if self.anchor.spans_vertically() {
                    None
                } else {
                    h
                },
            ),
            ..self
        }
    }

    /// Asks for a size. A dimension that is stretched between two opposite
    /// edges stays with the anchors.
    pub fn set_size(&mut self, w: Option<u32>, h: Option<u32>, requests: &mut Vec<Request>)
        ensures
            *final(self) == old(self).with_requested_size(w, h),
            final(requests)@ == old(requests)@.push(
                Request::SetLayerSize {
                    surface: old(self).surface,
                    width: or_zero(final(self).requested_size.0),
                    height: or_zero(final(self).requested_size.1),
                },
            ),
            old(self).wf() ==> final(self).wf(),
    {
        let width: Option<u32> = if self.anchor.left && self.anchor.right {
            None
        } else {
            w
        };
        let height: Option<u32> = if self.anchor.top && self.anchor.bottom {
            None
        } else {
            h
        };
        self.requested_size = (width, height);
        requests.push(
            Request::SetLayerSize {
                surface: self.surface,
                width: match width {
                    Some(d) => d,
                    None => 0,
                },
                height: match height {
                    Some(d) => d,
                    None => 0,
                },
            },
        );
    }

    /// The surface after it has been anchored anew.
    pub open spec fn with_anchor(self, anchor: Anchor) -> SctkLayerSurface {
        SctkLayerSurface {
            anchor,
            requested_size: (
                if anchor.spans_horizontally() {
                    None
                } else {
                    self.requested_size.0
                },
                if anchor.spans_vertically() {
                    None
                } else {
                    self.requested_size.1
                },
            ),
            ..self
        }
    }

    /// What a new anchor asks of the compositor: the anchor, and the size
    /// where a dimension has gone over to the anchors.
    pub open spec fn anchor_requests(self, anchor: Anchor) -> Seq<Request> {
        let after = self.with_anchor(anchor);
        let resize = if after.requested_size != self.requested_size {
            seq![
                Request::SetLayerSize {
                    surface: self.surface,
                    width: or_zero(after.requested_size.0),
                    height: or_zero(after.requested_size.1),
                },
            ]
        } else {
            Seq::<Request>::empty()
        };
        seq![Request::SetAnchor { surface: self.surface, anchor }] + resize
    }

    /// Anchors the surface anew. A dimension that is now stretched between
    /// two opposite edges is no longer asked for.
    pub fn set_anchor(&mut self, anchor: Anchor, requests: &mut Vec<Request>)
        ensures
            *final(self) == old(self).with_anchor(anchor),
            final(requests)@ == old(requests)@ + old(self).anchor_requests(anchor),
            old(self).wf() ==> final(self).wf(),
    {
        let ghost before = requests@;
        self.anchor = anchor;
        requests.push(Request::SetAnchor { surface: self.surface, anchor });
        let drop_width: bool = anchor.left && anchor.right && self.requested_size.0.is_some();
        let drop_height: bool = anchor.top && anchor.bottom && self.requested_size.1.is_some();
        if drop_width || drop_height {
            let width: Option<u32> = if drop_width {
                None
            } else {
                self.requested_size.0
            };
            let height: Option<u32> = if drop_height {
                None
            } else {
                self.requested_size.1
            };
            self.requested_size = (width, height);
            requests.push(
                Request::SetLayerSize {
                    surface: self.surface,
                    width: match width {
                        Some(d) => d,
                        None => 0,
                    },
                    height: match height {
                        Some(d) => d,
                        None => 0,
                    },
                },
            );
        }
        assert(requests@ =~= before + old(self).anchor_requests(anchor));
    }

    /// The surface after the compositor has given it a size.
    pub open spec fn with_viewport(self, w: u32, h: u32) -> SctkLayerSurface {
        SctkLayerSurface {
            current_size: Some(LogicalSize { width: w, height: h }),
            wp_viewport: viewport_at(self.wp_viewport, LogicalSize { width: w, height: h }),
            ..self
        }
    }

    /// What a new size asks of the compositor: the destination of the
    /// viewport, where there is one.
    pub open spec fn viewport_requests(self, w: u32, h: u32) -> Seq<Request> {
        if self.wp_viewport is Some {
            seq![Request::SetViewportDestination { surface: self.surface, width: w, height: h }]
        } else {
            Seq::<Request>::empty()
        }
    }

    /// Takes on the size the compositor gave, and lets the viewport follow.
    pub fn update_viewport(&mut self, w: u32, h: u32, requests: &mut Vec<Request>)
        ensures
            *final(self) == old(self).with_viewport(w, h),
            final(requests)@ == old(requests)@ + old(self).viewport_requests(w, h),
            viewport_shows(final(self).wp_viewport, LogicalSize { width: w, height: h }),
            old(self).wf() ==> final(self).wf(),
    {
        let ghost before = requests@;
        let size = LogicalSize::new(w, h);
        self.current_size = Some(size);
        if self.wp_viewport.is_some() {
            requests.push(
                Request::SetViewportDestination { surface: self.surface, width: w, height: h },
            );
            self.wp_viewport = Some(WpViewport { destination: Some(size) });
        }
        assert(requests@ =~= before + old(self).viewport_requests(w, h));
    }
}

impl Record for SctkLayerSurface {
    open spec fn spec_id(&self) -> Id {
        self.id
    }

    open spec fn spec_surface(&self) -> ObjectId {
        self.surface
    }

    fn id(&self) -> (id: Id) {
        self.id
    }

    fn surface(&self) -> (surface: ObjectId) {
        self.surface
    }
}

/// What a popup was made from.
#[derive(Debug, Clone, Copy, PartialEq, Eq)]
pub struct SctkPopupData {
    pub id: Id,
    /// The surface the popup is placed against.
    pub parent: SctkSurface,
    /// The window or layer surface at the root of the popup's chain of
    /// parents: the surface that the popup's input is routed by.
    pub toplevel: ObjectId,
    pub positioner: SctkPositioner,
}

/// A popup.
#[derive(Debug, Clone, Copy, PartialEq, Eq)]
pub struct SctkPopup {
    /// The surface of the popup.
    pub popup: ObjectId,
    pub last_configure: Option<PopupConfigure>,
    pub data: SctkPopupData,
    pub common: Common,
    pub wp_fractional_scale: bool,
    pub wp_viewport: Option<WpViewport>,
}

impl SctkPopup {
    /// The viewport follows the size.
    pub open spec fn wf(self) -> bool {
        viewport_shows(self.wp_viewport, self.common.size)
    }

    /// The popup after it has been given a new size.
    pub open spec fn with_size(self, w: u32, h: u32) -> SctkPopup {
        SctkPopup {
            data: SctkPopupData {
                positioner: SctkPositioner { size: Some((w, h)), ..self.data.positioner },
                ..self.data
            },
            ..self
        }
    }

    /// Asks to be placed anew at another size. The token comes back with the
    /// configure that answers.
    pub fn set_size(&mut self, w: u32, h: u32, token: u32, requests: &mut Vec<Request>)
        ensures
            *final(self) == old(self).with_size(w, h),
            final(requests)@ == old(requests)@.push(
                Request::SetWindowGeometry {
                    surface: old(self).popup,
                    x: 0,
                    y: 0,
                    width: w,
                    height: h,
                },
            ).push(
                Request::Reposition {
                    surface: old(self).popup,
                    positioner: final(self).data.positioner,
                    token,
                },
            ),
            old(self).wf() ==> final(self).wf(),
    {
        requests.push(
            Request::SetWindowGeometry { surface: self.popup, x: 0, y: 0, width: w, height: h },
        );
        self.data.positioner.size = Some((w, h));
        requests.push(
            Request::Reposition { surface: self.popup, positioner: self.data.positioner, token },
        );
    }
}

impl Record for SctkPopup {
    open spec fn spec_id(&self) -> Id {
        self.data.id
    }

    open spec fn spec_surface(&self) -> ObjectId {
        self.popup
    }

    fn id(&self) -> (id: Id) {
        self.data.id
    }

    fn surface(&self) -> (surface: ObjectId) {
        self.popup
    }
}

/// The lock surface of an output.
#[derive(Debug, Clone, Copy, PartialEq, Eq)]
pub struct SctkLockSurface {
    pub id: Id,
    pub session_lock_surface: ObjectId,
    pub last_configure: Option<SessionLockSurfaceConfigure>,
    pub wp_fractional_scale: bool,
    pub wp_viewport: Option<WpViewport>,
    pub common: Common,
}

impl SctkLockSurface {
    /// The viewport follows the size: once its destination has been set it
    /// is the size of the surface, and it has been set once the compositor
    /// has configured the surface.
    pub open spec fn wf(self) -> bool {
        &&& viewport_agrees(self.wp_viewport, self.common.size)
        &&& self.last_configure is Some ==> viewport_shows(self.wp_viewport, self.common.size)
    }
}

impl Record for SctkLockSurface {
    open spec fn spec_id(&self) -> Id {
        self.id
    }

    open spec fn spec_surface(&self) -> ObjectId {
        self.session_lock_surface
    }

    fn id(&self) -> (id: Id) {
        self.id
    }

    fn surface(&self) -> (surface: ObjectId) {
        self.session_lock_surface
    }
}

} // verus!
