//! Global application state.
//!
//! Scales are integers in thousandths (1000 = 100%), pan offsets integer
//! pixels, as in the viewport controller. The model owns the currently
//! opened document, the folder listing used for navigation, and the view
//! state; its invariant keeps the document well formed, the folder index
//! in range, and every numeric field within the machine limits the zoom
//! arithmetic needs.

use vstd::prelude::*;

use crate::content::DocumentContent;
use crate::meta::DocumentMeta;
use crate::viewer::{MAX_SCALE_LIMIT, MAX_VIEW_POS};

verus! {

/// How the document is currently fitted into the window.
#[derive(Debug, Clone, Copy, PartialEq, Eq, Structural)]
pub enum ViewMode {
    /// Fit document to available window size.
    Fit,
    /// Display at 100% (scale 1000).
    ActualSize,
    /// Custom zoom factor in thousandths (500 = 50%, 2000 = 200%).
    Custom(u32),
}

impl ViewMode {
    /// The effective zoom factor of this mode, in thousandths; `None` for
    /// fit-to-window, whose factor depends on the window size.
    pub open spec fn spec_zoom_factor(self) -> Option<u32> {
        match self {
            ViewMode::Fit => None,
            ViewMode::ActualSize => Some(1000u32),
            ViewMode::Custom(z) => Some(z),
        }
    }

    /// Return the effective zoom factor for this mode.
    pub fn zoom_factor(&self) -> (r: Option<u32>)
        ensures
            r == self.spec_zoom_factor(),
    {
        match *self {
            ViewMode::Fit => None,
            ViewMode::ActualSize => Some(1000),
            ViewMode::Custom(z) => Some(z),
        }
    }
}

/// Current editing / interaction mode.
#[derive(Debug, Clone, Copy, PartialEq, Eq, Structural)]
pub enum ToolMode {
    Inactive,
    Crop,
    Scale,
}

/// Pan step size in pixels per key press.
pub const PAN_STEP: i64 = 50;

/// Global configuration for the application.
#[derive(Debug, Clone, PartialEq)]
pub struct AppConfig {
    /// Default directory to open when browsing for documents.
    pub default_image_dir: Option<String>,
    /// Show page navigation panel.
    pub nav_bar_visible: bool,
    /// Show properties panel.
    pub context_drawer_visible: bool,
    /// Zoom step multiplier per keyboard shortcut, in thousandths
    /// (1100 = 10% increase per step).
    pub scale_step: u32,
    /// Pan distance in pixels per arrow key press.
    pub pan_step: i64,
    /// Minimum zoom level in thousandths (100 = 10%).
    pub min_scale: u32,
    /// Maximum zoom level in thousandths (8000 = 800%).
    pub max_scale: u32,
}

impl AppConfig {
    /// Sane limits: ordered positive scale bounds, a step that grows the
    /// scale, a positive pan step, all within machine limits.
    pub open spec fn wf(&self) -> bool {
        &&& 0 < self.min_scale <= self.max_scale <= MAX_SCALE_LIMIT
        &&& 1000 < self.scale_step <= MAX_SCALE_LIMIT
        &&& 0 < self.pan_step <= MAX_VIEW_POS
    }
}

impl Default for AppConfig {
    /// The stock configuration: panels hidden, 10% zoom steps, 50-pixel
    /// pans, zoom range from 10% to 800%. The default directory is the
    /// owning application's to resolve.
    fn default() -> (r: AppConfig)
        ensures
            r.wf(),
            r == (AppConfig {
                default_image_dir: None::<String>,
                nav_bar_visible: false,
                context_drawer_visible: false,
                scale_step: 1100u32,
                pan_step: 50i64,
                min_scale: 100u32,
                max_scale: 8000u32,
            }),
    {
        AppConfig {
            default_image_dir: None,
            nav_bar_visible: false,
            context_drawer_visible: false,
            scale_step: 1100,
            pan_step: 50,
            min_scale: 100,
            max_scale: 8000,
        }
    }
}

/// Global application state.
pub struct AppModel {
    /// Static configuration loaded at startup.
    pub config: AppConfig,
    /// Currently opened document (raster/vector/portable).
    pub document: Option<DocumentContent>,
    /// Cached metadata for the current document, loaded lazily.
    pub metadata: Option<DocumentMeta>,
    /// Path of the currently opened document, if any.
    pub current_path: Option<String>,
    /// List of files in the current folder for navigation.
    pub folder_entries: Vec<String>,
    /// Index into `folder_entries` of the current file.
    pub current_index: Option<usize>,
    /// View / zoom state.
    pub view_mode: ViewMode,
    /// Pan offset in pixels, relative to the centered position.
    pub pan_x: i64,
    /// Pan offset in pixels, relative to the centered position.
    pub pan_y: i64,
    /// Left panel visibility.
    pub show_left_panel: bool,
    /// Right panel visibility.
    pub show_right_panel: bool,
    /// Current tool mode.
    pub tool_mode: ToolMode,
    /// Last error message to be shown, if any.
    pub error: Option<String>,
    /// Redraw counter, bumped by view refreshes during thumbnail
    /// generation.
    pub tick: u64,
}

impl AppModel {
    /// The model's invariant: a well-formed configuration and document, a
    /// folder index in range, and view numbers within machine limits.
    pub open spec fn wf(&self) -> bool {
        &&& self.config.wf()
        &&& (self.document matches Some(d) ==> d.wf())
        &&& (self.current_index matches Some(i) ==> (i as int) < self.folder_entries@.len())
        &&& (self.view_mode matches ViewMode::Custom(z) ==> 0 < z <= MAX_SCALE_LIMIT)
        &&& -MAX_VIEW_POS <= self.pan_x <= MAX_VIEW_POS
        &&& -MAX_VIEW_POS <= self.pan_y <= MAX_VIEW_POS
    }

    /// Construct a new application state from configuration.
    pub fn new(config: AppConfig) -> (r: AppModel)
        requires
            config.wf(),
        ensures
            r.wf(),
            r.config == config,
            r.document is None,
            r.metadata is None,
            r.current_path is None,
            r.folder_entries@.len() == 0,
            r.current_index is None,
            r.view_mode == ViewMode::Fit,
            r.pan_x == 0 && r.pan_y == 0,
            !r.show_left_panel && !r.show_right_panel,
            r.tool_mode == ToolMode::Inactive,
            r.error is None,
            r.tick == 0,
    {
        AppModel {
            config,
            document: None,
            metadata: None,
            current_path: None,
            folder_entries: Vec::new(),
            current_index: None,
            view_mode: ViewMode::Fit,
            pan_x: 0,
            pan_y: 0,
            show_left_panel: false,
            show_right_panel: false,
            tool_mode: ToolMode::Inactive,
            error: None,
            tick: 0,
        }
    }

    /// Helper: set an error string.
    pub fn set_error(&mut self, msg: String)
        ensures
            *final(self) == (AppModel { error: Some(msg), ..*old(self) }),
    {
        self.error = Some(msg);
    }

    /// Helper: clear current error.
    pub fn clear_error(&mut self)
        ensures
            *final(self) == (AppModel { error: None::<String>, ..*old(self) }),
    {
        self.error = None;
    }

    /// Reset pan offset to center.
    pub fn reset_pan(&mut self)
        ensures
            *final(self) == (AppModel { pan_x: 0i64, pan_y: 0i64, ..*old(self) }),
    {
        self.pan_x = 0;
        self.pan_y = 0;
    }

    /// Get the current zoom factor, if applicable.
    pub fn zoom_factor(&self) -> (r: Option<u32>)
        ensures
            r == self.view_mode.spec_zoom_factor(),
    {
        self.view_mode.zoom_factor()
    }
}

} // verus!
