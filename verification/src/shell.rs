//! The vocabulary of the shell protocols: object names, anchors, layers,
//! positioners, resize edges, cursor icons and configure messages.

use crate::geometry::Rectangle;
use crate::window::Id;
use vstd::prelude::*;

verus! {

/// The coordinator's name for a protocol object.
///
/// Surfaces are named by the coordinator when it decides to create them;
/// seats, input devices and outputs are named by the shell when the
/// compositor announces them. The shell keeps the live object under that name.
#[derive(Debug, Clone, Copy, PartialEq, Eq, Structural, Hash)]
pub struct ObjectId(pub u64);

/// The edges of the screen that a layer surface is anchored to.
#[derive(Debug, Clone, Copy, PartialEq, Eq, Structural, Hash)]
pub struct Anchor {
    pub top: bool,
    pub bottom: bool,
    pub left: bool,
    pub right: bool,
}

impl Anchor {
    pub fn empty() -> (anchor: Anchor)
        ensures
            anchor == (Anchor { top: false, bottom: false, left: false, right: false }),
    {
        Anchor { top: false, bottom: false, left: false, right: false }
    }

    pub fn top() -> (anchor: Anchor)
        ensures
            anchor == (Anchor { top: true, bottom: false, left: false, right: false }),
    {
        Anchor { top: true, bottom: false, left: false, right: false }
    }

    pub fn bottom() -> (anchor: Anchor)
        ensures
            anchor == (Anchor { top: false, bottom: true, left: false, right: false }),
    {
        Anchor { top: false, bottom: true, left: false, right: false }
    }

    pub fn left() -> (anchor: Anchor)
        ensures
            anchor == (Anchor { top: false, bottom: false, left: true, right: false }),
    {
        Anchor { top: false, bottom: false, left: true, right: false }
    }

    pub fn right() -> (anchor: Anchor)
        ensures
            anchor == (Anchor { top: false, bottom: false, left: false, right: true }),
    {
        Anchor { top: false, bottom: false, left: false, right: true }
    }

    /// Every edge that either of the two names.
    pub open spec fn spec_union(self, other: Anchor) -> Anchor {
        Anchor {
            top: self.top || other.top,
            bottom: self.bottom || other.bottom,
            left: self.left || other.left,
            right: self.right || other.right,
        }
    }

    /// Whether every edge of `other` is among these.
    pub open spec fn spec_contains(self, other: Anchor) -> bool {
        &&& other.top ==> self.top
        &&& other.bottom ==> self.bottom
        &&& other.left ==> self.left
        &&& other.right ==> self.right
    }

    /// Whether the surface is stretched from the top edge to the bottom one.
    pub open spec fn spans_vertically(self) -> bool {
        self.top && self.bottom
    }

    /// Whether the surface is stretched from the left edge to the right one.
    pub open spec fn spans_horizontally(self) -> bool {
        self.left && self.right
    }

    #[verifier::when_used_as_spec(spec_union)]
    pub fn union(self, other: Anchor) -> (both: Anchor)
        ensures
            both == self.spec_union(other),
    {
        Anchor {
            top: self.top || other.top,
            bottom: self.bottom || other.bottom,
            left: self.left || other.left,
            right: self.right || other.right,
        }
    }

    #[verifier::when_used_as_spec(spec_contains)]
    pub fn contains(self, other: Anchor) -> (all: bool)
        ensures
            all == self.spec_contains(other),
    {
        (!other.top || self.top) && (!other.bottom || self.bottom) && (!other.left || self.left)
            && (!other.right || self.right)
    }
}

/// The z-depth of a layer surface.
#[derive(Debug, Clone, Copy, PartialEq, Eq, Structural, Hash)]
pub enum Layer {
    Background,
    Bottom,
    Top,
    Overlay,
}

/// How a layer surface takes keyboard focus.
#[derive(Debug, Clone, Copy, PartialEq, Eq, Structural, Hash)]
pub enum KeyboardInteractivity {
    /// No keyboard focus is possible.
    Never,
    Exclusive,
    OnDemand,
}

/// The distance of a layer surface from each edge it is anchored to.
#[derive(Debug, Clone, Copy, PartialEq, Eq, Structural, Hash)]
pub struct IcedMargin {
    pub top: i32,
    pub right: i32,
    pub bottom: i32,
    pub left: i32,
}

/// The output that a layer surface is shown on.
#[derive(Debug, Clone, Copy, PartialEq, Eq, Structural, Hash)]
pub enum IcedOutput {
    All,
    Active,
    Output(ObjectId),
}

/// The point of the anchor rectangle that a popup is placed against, and the
/// direction it grows in when used as a gravity.
#[derive(Debug, Clone, Copy, PartialEq, Eq, Structural, Hash)]
pub enum Edge {
    /// The centre: no edge at all.
    Center,
    Top,
    Bottom,
    Left,
    Right,
    TopLeft,
    BottomLeft,
    TopRight,
    BottomRight,
}

/// The largest constraint adjustment that names only known adjustments:
/// slide, flip and resize, each along x and y.
pub const CONSTRAINT_ADJUSTMENT_ALL: u32 = 63;

/// Where a popup goes relative to its parent.
#[derive(Debug, Clone, Copy, PartialEq, Eq, Hash)]
pub struct SctkPositioner {
    pub size: Option<(u32, u32)>,
    pub anchor_rect: Rectangle,
    pub anchor: Edge,
    pub gravity: Edge,
    /// A bit for each way the compositor may adjust a constrained popup.
    pub constraint_adjustment: u32,
    pub offset: (i32, i32),
    pub reactive: bool,
}

impl SctkPositioner {
    /// The adjustment that is handed to the compositor: the one asked for,
    /// unless it names an adjustment that does not exist.
    pub open spec fn spec_known_adjustment(self) -> Option<u32> {
        if self.constraint_adjustment <= CONSTRAINT_ADJUSTMENT_ALL {
            Some(self.constraint_adjustment)
        } else {
            None
        }
    }

    #[verifier::when_used_as_spec(spec_known_adjustment)]
    pub fn known_adjustment(self) -> (adjustment: Option<u32>)
        ensures
            adjustment == self.spec_known_adjustment(),
    {
        if self.constraint_adjustment <= CONSTRAINT_ADJUSTMENT_ALL {
            Some(self.constraint_adjustment)
        } else {
            None
        }
    }
}

/// The edge of a window that an interactive resize drags.
#[derive(Debug, Clone, Copy, PartialEq, Eq, Structural, Hash)]
pub enum ResizeEdge {
    /// No edge at all.
    Interior,
    Top,
    Bottom,
    Left,
    TopLeft,
    BottomLeft,
    Right,
    TopRight,
    BottomRight,
}

/// The shape of the pointer.
#[derive(Debug, Clone, Copy, PartialEq, Eq, Structural, Hash)]
pub enum CursorIcon {
    Default,
    ContextMenu,
    Help,
    Pointer,
    Progress,
    Wait,
    Cell,
    Crosshair,
    Text,
    VerticalText,
    Alias,
    Copy,
    Move,
    NoDrop,
    NotAllowed,
    Grab,
    Grabbing,
    EResize,
    NResize,
    NeResize,
    NwResize,
    SResize,
    SeResize,
    SwResize,
    WResize,
    EwResize,
    NsResize,
    NeswResize,
    NwseResize,
    ColResize,
    RowResize,
    AllScroll,
    ZoomIn,
    ZoomOut,
}

/// Who draws the decorations of a window.
#[derive(Debug, Clone, Copy, PartialEq, Eq, Structural, Hash)]
pub enum DecorationMode {
    Client,
    Server,
}

/// Which decorations a new window asks for.
#[derive(Debug, Clone, Copy, PartialEq, Eq, Structural, Hash)]
pub enum WindowDecorations {
    RequestServer,
    RequestClient,
}

/// The tiling and activation state of a window, one bit per state. The
/// lowest bit says that the window is maximized, the next that it fills the
/// screen.
#[derive(Debug, Clone, Copy, PartialEq, Eq, Structural, Hash)]
pub struct WindowState(pub u16);

impl WindowState {
    /// Whether the window is maximized.
    pub open spec fn spec_is_maximized(self) -> bool {
        self.0 % 2 == 1
    }

    /// Whether the window fills the screen.
    pub open spec fn spec_is_fullscreen(self) -> bool {
        (self.0 / 2) % 2 == 1
    }

    /// Whether the window is maximized.
    #[verifier::when_used_as_spec(spec_is_maximized)]
    pub fn is_maximized(self) -> (maximized: bool)
        ensures
            maximized == self.spec_is_maximized(),
    {
        self.0 % 2 == 1
    }

    /// Whether the window fills the screen.
    #[verifier::when_used_as_spec(spec_is_fullscreen)]
    pub fn is_fullscreen(self) -> (fullscreen: bool)
        ensures
            fullscreen == self.spec_is_fullscreen(),
    {
        (self.0 / 2) % 2 == 1
    }
}

/// What the window manager can do to a window, one bit per capability.
#[derive(Debug, Clone, Copy, PartialEq, Eq, Structural, Hash)]
pub struct WindowManagerCapabilities(pub u16);

/// What the compositor says of a window when it configures it.
#[derive(Debug, Clone, Copy, PartialEq, Eq, Hash)]
pub struct WindowConfigure {
    /// The size the compositor suggests; a missing dimension is left to the
    /// client.
    pub new_size: (Option<u32>, Option<u32>),
    pub suggested_bounds: Option<(u32, u32)>,
    pub decoration_mode: DecorationMode,
    pub state: WindowState,
    pub capabilities: WindowManagerCapabilities,
}

/// What the compositor says of a layer surface when it configures it.
#[derive(Debug, Clone, Copy, PartialEq, Eq, Hash)]
pub struct LayerSurfaceConfigure {
    pub new_size: (u32, u32),
}

/// Why a popup is configured.
#[derive(Debug, Clone, Copy, PartialEq, Eq, Structural, Hash)]
pub enum ConfigureKind {
    Initial,
    Reactive,
    Reposition { token: u32 },
}

/// What the compositor says of a popup when it configures it.
#[derive(Debug, Clone, Copy, PartialEq, Eq, Hash)]
pub struct PopupConfigure {
    pub position: (i32, i32),
    pub width: i32,
    pub height: i32,
    pub kind: ConfigureKind,
}

/// What the compositor says of a lock surface when it configures it.
#[derive(Debug, Clone, Copy, PartialEq, Eq, Hash)]
pub struct SessionLockSurfaceConfigure {
    pub new_size: (u32, u32),
}

/// What a popup is asked to be.
#[derive(Debug, Clone, Copy, PartialEq, Eq, Hash)]
pub struct SctkPopupSettings {
    /// The surface the popup is placed against.
    pub parent: Id,
    pub id: Id,
    pub positioner: SctkPositioner,
    pub parent_size: Option<(u32, u32)>,
    /// Whether the popup takes an explicit grab of the input.
    pub grab: bool,
}

} // verus!
