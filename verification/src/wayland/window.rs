use crate::geometry::LogicalSize;
use crate::shell::ResizeEdge;
use crate::window::Id;
use vstd::prelude::*;

verus! {

/// The smallest and the largest size a window may take.
#[derive(Debug, Clone, Copy, PartialEq, Eq)]
pub struct Limits {
    pub min: (u32, u32),
    pub max: (u32, u32),
}

/// The largest dimension that a size limit can name.
pub const LIMIT_MAX: u32 = 65535;

/// The limit that is handed to the compositor: none where a dimension is
/// zero or beyond what a limit can name.
pub open spec fn usable_limit(size: (u32, u32)) -> Option<(u32, u32)> {
    if size.0 == 0 || size.1 == 0 || size.0 > LIMIT_MAX || size.1 > LIMIT_MAX {
        None
    } else {
        Some(size)
    }
}

/// Sorts out a size limit that the compositor cannot be given.
pub fn limit_or_none(size: (u32, u32)) -> (limit: Option<(u32, u32)>)
    ensures
        limit == usable_limit(size),
{
    if size.0 == 0 || size.1 == 0 || size.0 > LIMIT_MAX || size.1 > LIMIT_MAX {
        None
    } else {
        Some(size)
    }
}

/// What a window is asked to be.
#[derive(Debug, Clone, PartialEq, Eq)]
pub struct SctkWindowSettings {
    /// Window id.
    pub window_id: Id,
    /// Optional app id.
    pub app_id: Option<String>,
    /// Optional window title.
    pub title: Option<String>,
    /// Optional window parent.
    pub parent: Option<Id>,
    /// Autosize the window to fit its contents.
    pub autosize: bool,
    /// Limits of the window size.
    pub size_limits: Limits,
    /// The initial size of the window.
    pub size: LogicalSize,
    /// Whether the window can be resized, and if so the width of the border
    /// that can be dragged for a resize, in logical pixels.
    pub resizable: Option<u32>,
    /// Whether the window draws its own border and title bar.
    pub client_decorations: bool,
    /// Whether the window should be transparent.
    pub transparent: bool,
    /// Activation token.
    pub xdg_activation_token: Option<String>,
}

impl SctkWindowSettings {
    /// The settings of a plain window: 1024 by 768, resizable on a border of
    /// 8 pixels, with its own decorations.
    pub fn new(window_id: Id) -> (settings: SctkWindowSettings)
        ensures
            settings == (SctkWindowSettings {
                window_id,
                app_id: None::<String>,
                title: None::<String>,
                parent: None::<Id>,
                autosize: false,
                size_limits: Limits { min: (1u32, 1u32), max: (1920u32, 1080u32) },
                size: LogicalSize { width: 1024, height: 768 },
                resizable: Some(8u32),
                client_decorations: true,
                transparent: false,
                xdg_activation_token: None::<String>,
            }),
    {
        SctkWindowSettings {
            window_id,
            app_id: None,
            title: None,
            parent: None,
            autosize: false,
            size_limits: Limits { min: (1, 1), max: (1920, 1080) },
            size: LogicalSize { width: 1024, height: 768 },
            resizable: Some(8),
            client_decorations: true,
            transparent: false,
            xdg_activation_token: None,
        }
    }
}

/// Window actions.
#[derive(Debug, Clone, PartialEq, Eq)]
pub enum Action {
    /// Create a window.
    Window {
        /// What the window is asked to be.
        builder: SctkWindowSettings,
    },
    /// Destroy the window.
    Destroy(Id),
    /// Set size of the window.
    Size {
        /// Id of the window.
        id: Id,
        /// The new logical width of the window.
        width: u32,
        /// The new logical height of the window.
        height: u32,
    },
    /// Set min size of the window.
    MinSize {
        /// Id of the window.
        id: Id,
        /// Optional size.
        size: Option<(u32, u32)>,
    },
    /// Set max size of the window.
    MaxSize {
        /// Id of the window.
        id: Id,
        /// Optional size.
        size: Option<(u32, u32)>,
    },
    /// Set title of the window.
    Title {
        /// Id of the window.
        id: Id,
        /// The new title.
        title: String,
    },
    /// Start an interactive resize of the window.
    InteractiveResize {
        /// Id of the window.
        id: Id,
        /// Edge being resized.
        edge: ResizeEdge,
    },
    /// Start an interactive move of the window.
    InteractiveMove {
        /// Id of the window.
        id: Id,
    },
    /// Show the window context menu.
    ShowWindowMenu {
        /// Id of the window.
        id: Id,
        /// x location of the menu.
        x: i32,
        /// y location of the menu.
        y: i32,
    },
    /// Set the app id of the window.
    AppId {
        /// Id of the window.
        id: Id,
        /// App id of the window.
        app_id: String,
    },
    /// Minimize the window.
    Minimize {
        /// Id of the window.
        id: Id,
    },
    /// Toggle maximization of the window.
    ToggleMaximized {
        /// Id of the window.
        id: Id,
    },
    /// Maximize the window.
    Maximize {
        /// Id of the window.
        id: Id,
    },
    /// Bring the window back from being maximized.
    UnsetMaximize {
        /// Id of the window.
        id: Id,
    },
    /// Toggle whether the window fills the screen.
    ToggleFullscreen {
        /// Id of the window.
        id: Id,
    },
    /// Let the window fill the screen.
    Fullscreen {
        /// Id of the window.
        id: Id,
    },
    /// Bring the window back from filling the screen.
    UnsetFullscreen {
        /// Id of the window.
        id: Id,
    },
    /// Set the mode of the window.
    Mode(Id, crate::window::Mode),
}

/// Error type for unsupported actions.
#[derive(Debug, Clone, Copy, PartialEq, Eq, Structural)]
pub enum Error {
    /// Not supported.
    NotSupported,
}

impl Error {
    /// What the error says to a reader.
    pub fn message(&self) -> (text: &'static str)
        ensures
            text@ == "Not supported"@,
    {
        "Not supported"
    }
}

/// The dimensions of a size as a pair, or `fallback` where there is none.
pub open spec fn pair_or(size: Option<LogicalSize>, fallback: (u32, u32)) -> (u32, u32) {
    match size {
        Some(size) => (size.width, size.height),
        None => fallback,
    }
}

/// What a new window is asked to be, from the settings the application
/// gave. A window without a smallest size can be as small as one pixel, and
/// one without a largest size has no limit.
pub open spec fn builder_of(id: Id, settings: crate::window::Settings) -> SctkWindowSettings {
    SctkWindowSettings {
        window_id: id,
        app_id: Some(settings.application_id),
        title: None,
        parent: None,
        autosize: false,
        size_limits: Limits {
            min: pair_or(settings.min_size, (1u32, 1u32)),
            max: pair_or(settings.max_size, (u32::MAX, u32::MAX)),
        },
        size: settings.size,
        resizable: if settings.resizable {
            Some(settings.resize_border)
        } else {
            None
        },
        client_decorations: !settings.decorations,
        transparent: settings.transparent,
        xdg_activation_token: None,
    }
}

/// The action on a Wayland window that an action on a window stands for,
/// where there is one.
pub open spec fn translated(value: crate::window::Action) -> Result<Action, Error> {
    match value {
        crate::window::Action::Open(id, settings) => Ok(
            Action::Window { builder: builder_of(id, settings) },
        ),
        crate::window::Action::Close(id) => Ok(Action::Destroy(id)),
        crate::window::Action::Resize(id, size) => Ok(
            Action::Size { id, width: size.width, height: size.height },
        ),
        crate::window::Action::Drag(id) => Ok(Action::InteractiveMove { id }),
        crate::window::Action::Maximize(id, maximized) => if maximized {
            Ok(Action::Maximize { id })
        } else {
            Ok(Action::UnsetMaximize { id })
        },
        crate::window::Action::Minimize(id, minimized) => if minimized {
            Ok(Action::Minimize { id })
        } else {
            Err(Error::NotSupported)
        },
        crate::window::Action::ChangeMode(id, mode) => Ok(Action::Mode(id, mode)),
        _ => Err(Error::NotSupported),
    }
}

impl Action {
    /// Turns an action on a window into the action on a Wayland window that
    /// stands for it. Opening, closing, resizing, dragging, maximizing,
    /// minimizing and a change of mode have one; a window cannot be brought
    /// back from being minimized, and every other action is not supported.
    pub fn try_from(value: crate::window::Action) -> (action: Result<Action, Error>)
        ensures
            action == translated(value),
    {
        match value {
            crate::window::Action::Open(id, settings) => {
                let min: (u32, u32) = match settings.min_size {
                    Some(size) => (size.width, size.height),
                    None => (1, 1),
                };
                let max: (u32, u32) = match settings.max_size {
                    Some(size) => (size.width, size.height),
                    None => (u32::MAX, u32::MAX),
                };
                let builder = SctkWindowSettings {
                    window_id: id,
                    app_id: Some(settings.application_id),
                    title: None,
                    parent: None,
                    autosize: false,
                    size_limits: Limits { min, max },
                    size: settings.size,
                    resizable: if settings.resizable {
                        Some(settings.resize_border)
                    } else {
                        None
                    },
                    client_decorations: !settings.decorations,
                    transparent: settings.transparent,
                    xdg_activation_token: None,
                };
                Ok(Action::Window { builder })
            },
            crate::window::Action::Close(id) => Ok(Action::Destroy(id)),
            crate::window::Action::Resize(id, size) => Ok(
                Action::Size { id, width: size.width, height: size.height },
            ),
            crate::window::Action::Drag(id) => Ok(Action::InteractiveMove { id }),
            crate::window::Action::Maximize(id, maximized) => {
                if maximized {
                    Ok(Action::Maximize { id })
                } else {
                    Ok(Action::UnsetMaximize { id })
                }
            },
            crate::window::Action::Minimize(id, minimized) => {
                if minimized {
                    Ok(Action::Minimize { id })
                } else {
                    Err(Error::NotSupported)
                }
            },
            crate::window::Action::ChangeMode(id, mode) => Ok(Action::Mode(id, mode)),
            _ => Err(Error::NotSupported),
        }
    }
}

} // verus!
