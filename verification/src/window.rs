//! Window identifiers.

use crate::geometry::{LogicalPosition, LogicalSize};
use vstd::prelude::*;

verus! {

/// The id of a window or any other surface the user interface renders to.
///
/// Ids are minted by the user interface before the surface exists.
#[derive(Debug, Clone, Copy, PartialEq, Eq, Structural, Hash)]
pub struct Id(pub u64);

/// The counter that window ids are minted from.
///
/// A program keeps exactly one of these; every id it hands out is different
/// until the counter has gone once around the whole 64-bit range.
#[derive(Debug)]
pub struct Counter {
    pub next: u64,
}

/// The number that a counter standing at `next` hands out: zero is skipped.
pub open spec fn minted(next: u64) -> u64 {
    if next == 0 {
        1
    } else {
        next
    }
}

/// Where a counter standing at `next` stands after it has handed out an id.
pub open spec fn advanced(next: u64) -> u64 {
    if next == 0 {
        2
    } else if next == u64::MAX {
        0
    } else {
        (next + 1) as u64
    }
}

impl Counter {
    /// A counter that has handed out nothing yet. Its first id is 1.
    pub fn new() -> (counter: Counter)
        ensures
            counter.next == 1,
    {
        Counter { next: 1 }
    }

    /// Takes the current number and moves the counter on by one, wrapping
    /// around at the end of the range.
    fn fetch_add(&mut self) -> (taken: u64)
        ensures
            taken == old(self).next,
            final(self).next == if old(self).next == u64::MAX {
                0
            } else {
                (old(self).next + 1) as u64
            },
    {
        let taken: u64 = self.next;
        self.next = if taken == u64::MAX {
            0
        } else {
            taken + 1
        };
        taken
    }
}

impl Id {
    /// The id that no window ever has.
    pub fn none() -> (id: Id)
        ensures
            id == Id(0),
    {
        Id(0)
    }

    /// Creates a new unique window [`Id`]. The id is never the reserved zero.
    pub fn unique(counter: &mut Counter) -> (id: Id)
        ensures
            id.0 == minted(old(counter).next),
            id.0 != 0,
            final(counter).next == advanced(old(counter).next),
    {
        let taken: u64 = counter.fetch_add();
        if taken == 0 {
            Id(counter.fetch_add())
        } else {
            Id(taken)
        }
    }
}

/// Window ids are strictly monotone: an id that is minted later is larger,
/// until the counter comes to the end of its range.
pub proof fn lemma_unique_monotone(next: u64)
    requires
        next < u64::MAX,
    ensures
        minted(next) < minted(advanced(next)),
        minted(next) != 0,
{
}

/// Where a new window is placed.
#[derive(Debug, Clone, Copy, PartialEq, Eq, Structural)]
pub enum Position {
    /// Wherever the compositor puts it.
    Default,
    /// In the middle of the screen.
    Centered,
}

/// Whether a window stays above or below the others.
#[derive(Debug, Clone, Copy, PartialEq, Eq, Structural)]
pub enum Level {
    Normal,
    AlwaysOnBottom,
    AlwaysOnTop,
}

/// How a window is shown.
#[derive(Debug, Clone, Copy, PartialEq, Eq, Structural)]
pub enum Mode {
    Windowed,
    Fullscreen,
    Hidden,
}

/// The settings a window starts with.
#[derive(Debug, Clone, PartialEq, Eq)]
pub struct Settings {
    /// The initial logical size of the window.
    pub size: LogicalSize,
    /// The initial position of the window.
    pub position: Position,
    /// The minimum size of the window.
    pub min_size: Option<LogicalSize>,
    /// The maximum size of the window.
    pub max_size: Option<LogicalSize>,
    /// Whether the window should be visible or not.
    pub visible: bool,
    /// Whether the window should be resizable or not.
    pub resizable: bool,
    /// Whether the window should have a border, a title bar, etc. or not.
    pub decorations: bool,
    /// Whether the window should be transparent.
    pub transparent: bool,
    /// The window level.
    pub level: Level,
    /// Whether the application exits when this window is asked to close.
    pub exit_on_close_request: bool,
    /// The width of the border that starts a resize when it is dragged, in
    /// logical pixels.
    pub resize_border: u32,
    /// The id that the application is known by to the compositor.
    pub application_id: String,
}

impl Settings {
    /// The settings of a plain window with the given application id: 1024
    /// by 768, visible, decorated, resizable on a border of 8 pixels.
    pub fn new(application_id: String) -> (settings: Settings)
        ensures
            settings == (Settings {
                size: LogicalSize { width: 1024, height: 768 },
                position: Position::Default,
                min_size: None::<LogicalSize>,
                max_size: None::<LogicalSize>,
                visible: true,
                resizable: true,
                decorations: true,
                transparent: false,
                level: Level::Normal,
                exit_on_close_request: true,
                resize_border: 8,
                application_id,
            }),
    {
        Settings {
            size: LogicalSize { width: 1024, height: 768 },
            position: Position::Default,
            min_size: None,
            max_size: None,
            visible: true,
            resizable: true,
            decorations: true,
            transparent: false,
            level: Level::Normal,
            exit_on_close_request: true,
            resize_border: 8,
            application_id,
        }
    }
}

/// What an application can ask of a window, whatever the windowing system.
#[derive(Debug, Clone, PartialEq, Eq)]
pub enum Action {
    /// Open a new window with the given settings.
    Open(Id, Settings),
    /// Close the window.
    Close(Id),
    /// Ask for the oldest window.
    GetOldest,
    /// Ask for the latest window.
    GetLatest,
    /// Move the window with the left mouse button until the button is
    /// released.
    Drag(Id),
    /// Resize the window to the given logical size.
    Resize(Id, LogicalSize),
    /// Ask for the size of the window.
    GetSize(Id),
    /// Ask whether the window is maximized.
    GetMaximized(Id),
    /// Set the window to maximized or back.
    Maximize(Id, bool),
    /// Ask whether the window is minimized.
    GetMinimized(Id),
    /// Set the window to minimized or back.
    Minimize(Id, bool),
    /// Ask for the position of the window.
    GetPosition(Id),
    /// Move the window to the given logical position.
    Move(Id, LogicalPosition),
    /// Change how the window is shown.
    ChangeMode(Id, Mode),
    /// Ask how the window is shown.
    GetMode(Id),
    /// Toggle the window between maximized and not.
    ToggleMaximize(Id),
    /// Toggle the decorations of the window.
    ToggleDecorations(Id),
    /// Ask for the attention of the user.
    RequestUserAttention(Id),
    /// Bring the window to the front and set input focus.
    GainFocus(Id),
    /// Change the window level.
    ChangeLevel(Id, Level),
    /// Show the system menu at the cursor position.
    ShowSystemMenu(Id),
    /// Ask for the id that the windowing system has for the window.
    GetRawId(Id),
    /// Change the window icon.
    ChangeIcon(Id),
    /// Run something with the native handle of the window.
    RunWithHandle(Id),
    /// Take a screenshot of the window.
    Screenshot(Id),
}

} // verus!
