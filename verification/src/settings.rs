//! Configure your application.

use vstd::prelude::*;

verus! {

/// The family of a font.
#[derive(Debug, Clone, Copy, PartialEq, Eq, Structural)]
pub enum Family {
    Serif,
    SansSerif,
    Cursive,
    Fantasy,
    Monospace,
}

/// A font.
#[derive(Debug, Clone, Copy, PartialEq, Eq, Structural)]
pub struct Font {
    pub family: Family,
    pub bold: bool,
    pub italic: bool,
}

/// The text size that is used by default, in logical pixels.
pub const DEFAULT_TEXT_SIZE: u32 = 14;

/// The settings of a program.
#[derive(Debug, Clone, PartialEq, Eq)]
pub struct Settings {
    /// The identifier of the application.
    ///
    /// If provided, this identifier may be used to identify the application
    /// or communicate with it through the windowing system.
    pub id: Option<String>,
    /// The fonts to load on boot.
    pub fonts: Vec<Vec<u8>>,
    /// The default font to be used: an upright sans-serif of normal weight,
    /// unless set otherwise.
    pub default_font: Font,
    /// The text size that will be used by default, in logical pixels.
    pub default_text_size: u32,
    /// If set to true, the renderer will try to perform antialiasing for
    /// some primitives. By default, it is disabled.
    pub antialiasing: bool,
    /// If set to true the application will exit when the main window is
    /// closed.
    pub exit_on_close_request: bool,
}

impl Default for Settings {
    fn default() -> (settings: Settings)
        ensures
            settings.id is None,
            settings.fonts@.len() == 0,
            settings.default_font == (Font {
                family: Family::SansSerif,
                bold: false,
                italic: false,
            }),
            settings.default_text_size == DEFAULT_TEXT_SIZE,
            !settings.antialiasing,
            !settings.exit_on_close_request,
    {
        Settings {
            id: None,
            fonts: Vec::new(),
            default_font: Font { family: Family::SansSerif, bold: false, italic: false },
            default_text_size: DEFAULT_TEXT_SIZE,
            antialiasing: false,
            exit_on_close_request: false,
        }
    }
}

} // verus!
