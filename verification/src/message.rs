//! All application messages (events, user actions, signals), and the
//! start-up argument types.

use vstd::prelude::*;

use crate::document::lower_code;

verus! {

/// Command-line arguments of the viewer.
#[derive(Debug, Clone)]
pub struct Args {
    /// File to open on startup.
    pub file: Option<String>,
    /// UI language (e.g. "en", "de").
    pub language: String,
}

/// Flags passed from the entry point into the application.
#[derive(Debug, Clone)]
pub enum Flags {
    Args(Args),
}

/// Context page displayed in the right drawer.
#[derive(Copy, Clone, Debug, Eq, PartialEq, Structural)]
pub enum ContextPage {
    Properties,
}

impl Default for ContextPage {
    /// The properties page is the only context page.
    fn default() -> (r: ContextPage)
        ensures
            r == ContextPage::Properties,
    {
        ContextPage::Properties
    }
}

/// Messages emitted by user actions, asynchronous work, or internal
/// signals.
#[derive(Debug, Clone)]
pub enum AppMessage {
    /// Open a file at the given path.
    OpenPath(String),
    /// Navigate to the next document in the folder.
    NextDocument,
    /// Navigate to the previous document in the folder.
    PrevDocument,
    /// Rotate 90 degrees clockwise.
    RotateCW,
    /// Rotate 90 degrees counter-clockwise.
    RotateCCW,
    /// Flip horizontally (mirror).
    FlipHorizontal,
    /// Flip vertically.
    FlipVertical,
    /// Zoom in by a fixed step.
    ZoomIn,
    /// Zoom out by a fixed step.
    ZoomOut,
    /// Reset zoom to 100%.
    ZoomReset,
    /// Fit document to window.
    ZoomFit,
    /// Update zoom and pan from the viewer (mouse interaction); the scale
    /// is in thousandths, the offsets in pixels.
    ViewerStateChanged { scale: u32, offset_x: i64, offset_y: i64 },
    /// Pan image left.
    PanLeft,
    /// Pan image right.
    PanRight,
    /// Pan image up.
    PanUp,
    /// Pan image down.
    PanDown,
    /// Reset pan to center.
    PanReset,
    /// Toggle crop mode.
    ToggleCropMode,
    /// Toggle scale mode.
    ToggleScaleMode,
    /// Toggle a context drawer page.
    ToggleContextPage(ContextPage),
    /// Toggle the nav bar (left panel) visibility.
    ToggleNavBar,
    /// Navigate to a specific page of a paginated document.
    GotoPage(usize),
    /// Generate the thumbnail for one page.
    GenerateThumbnailPage(usize),
    /// Bump the redraw counter while thumbnails are outstanding.
    RefreshView,
    /// Refresh metadata from the current document.
    RefreshMetadata,
    /// Set the current image as the desktop wallpaper.
    SetAsWallpaper,
    /// Display an error message.
    ShowError(String),
    /// Clear the current error.
    ClearError,
    /// Fallback for unhandled or no-op cases.
    NoOp,
}

/// A key press, reduced to what the bindings distinguish: a character or
/// one of the arrow keys.
#[derive(Debug, Clone, Copy, PartialEq, Eq, Structural)]
pub enum KeyInput {
    Character(char),
    ArrowLeft,
    ArrowRight,
    ArrowUp,
    ArrowDown,
}

/// The modifier state accompanying a key press.
#[derive(Debug, Clone, Copy, PartialEq, Eq, Structural)]
pub struct KeyModifiers {
    pub control: bool,
    pub shift: bool,
    pub alt: bool,
    pub logo: bool,
}

/// Whether a pressed character matches a binding letter, ignoring ASCII
/// case.
pub open spec fn spec_key_is(c: char, letter: char) -> bool {
    lower_code(c as int) == lower_code(letter as int)
}

/// The message a key press maps to: control plus an arrow pans; with any
/// other command-style modifier the press is ignored; bare arrows
/// navigate between documents; letters and digits select transforms,
/// zoom, tools, panels and the wallpaper action, with shift turning the
/// rotation counter-clockwise.
pub open spec fn spec_key_message(key: KeyInput, m: KeyModifiers) -> Option<AppMessage> {
    if m.control && !m.shift && !m.alt && !m.logo {
        match key {
            KeyInput::ArrowLeft => Some(AppMessage::PanLeft),
            KeyInput::ArrowRight => Some(AppMessage::PanRight),
            KeyInput::ArrowUp => Some(AppMessage::PanUp),
            KeyInput::ArrowDown => Some(AppMessage::PanDown),
            _ => None,
        }
    } else if m.control || m.alt || m.logo {
        None
    } else {
        match key {
            KeyInput::ArrowRight => Some(AppMessage::NextDocument),
            KeyInput::ArrowLeft => Some(AppMessage::PrevDocument),
            KeyInput::Character(c) => {
                if spec_key_is(c, 'h') {
                    Some(AppMessage::FlipHorizontal)
                } else if spec_key_is(c, 'v') {
                    Some(AppMessage::FlipVertical)
                } else if spec_key_is(c, 'r') {
                    if m.shift {
                        Some(AppMessage::RotateCCW)
                    } else {
                        Some(AppMessage::RotateCW)
                    }
                } else if c == '+' || c == '=' {
                    Some(AppMessage::ZoomIn)
                } else if c == '-' {
                    Some(AppMessage::ZoomOut)
                } else if c == '1' {
                    Some(AppMessage::ZoomReset)
                } else if spec_key_is(c, 'f') {
                    Some(AppMessage::ZoomFit)
                } else if spec_key_is(c, 'c') {
                    Some(AppMessage::ToggleCropMode)
                } else if spec_key_is(c, 's') {
                    Some(AppMessage::ToggleScaleMode)
                } else if c == '0' {
                    Some(AppMessage::PanReset)
                } else if spec_key_is(c, 'i') {
                    Some(AppMessage::ToggleContextPage(ContextPage::Properties))
                } else if spec_key_is(c, 'n') {
                    Some(AppMessage::ToggleNavBar)
                } else if spec_key_is(c, 'w') {
                    Some(AppMessage::SetAsWallpaper)
                } else {
                    None
                }
            },
            _ => None,
        }
    }
}

/// Whether a pressed character matches a binding letter, ignoring ASCII
/// case.
fn key_is(c: char, letter: char) -> (r: bool)
    ensures
        r == spec_key_is(c, letter),
{
    let a = c as u32;
    let b = letter as u32;
    let la = if 65 <= a && a <= 90 {
        a + 32
    } else {
        a
    };
    let lb = if 65 <= b && b <= 90 {
        b + 32
    } else {
        b
    };
    la == lb
}

/// Map a key press with its modifiers to an application message.
pub fn handle_key_press(key: KeyInput, modifiers: KeyModifiers) -> (r: Option<AppMessage>)
    ensures
        r == spec_key_message(key, modifiers),
{
    if modifiers.control && !modifiers.shift && !modifiers.alt && !modifiers.logo {
        return match key {
            KeyInput::ArrowLeft => Some(AppMessage::PanLeft),
            KeyInput::ArrowRight => Some(AppMessage::PanRight),
            KeyInput::ArrowUp => Some(AppMessage::PanUp),
            KeyInput::ArrowDown => Some(AppMessage::PanDown),
            _ => None,
        };
    }
    if modifiers.control || modifiers.alt || modifiers.logo {
        return None;
    }
    match key {
        KeyInput::ArrowRight => Some(AppMessage::NextDocument),
        KeyInput::ArrowLeft => Some(AppMessage::PrevDocument),
        KeyInput::Character(c) => {
            if key_is(c, 'h') {
                Some(AppMessage::FlipHorizontal)
            } else if key_is(c, 'v') {
                Some(AppMessage::FlipVertical)
            } else if key_is(c, 'r') {
                if modifiers.shift {
                    Some(AppMessage::RotateCCW)
                } else {
                    Some(AppMessage::RotateCW)
                }
            } else if c == '+' || c == '=' {
                Some(AppMessage::ZoomIn)
            } else if c == '-' {
                Some(AppMessage::ZoomOut)
            } else if c == '1' {
                Some(AppMessage::ZoomReset)
            } else if key_is(c, 'f') {
                Some(AppMessage::ZoomFit)
            } else if key_is(c, 'c') {
                Some(AppMessage::ToggleCropMode)
            } else if key_is(c, 's') {
                Some(AppMessage::ToggleScaleMode)
            } else if c == '0' {
                Some(AppMessage::PanReset)
            } else if key_is(c, 'i') {
                Some(AppMessage::ToggleContextPage(ContextPage::Properties))
            } else if key_is(c, 'n') {
                Some(AppMessage::ToggleNavBar)
            } else if key_is(c, 'w') {
                Some(AppMessage::SetAsWallpaper)
            } else {
                None
            }
        },
        _ => None,
    }
}


} // verus!
