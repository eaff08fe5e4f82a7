//! Application update loop: applies messages to the global model state.
//!
//! Every message's effect on the model is decided here; what needs the
//! outside world — opening a file, rasterizing a page, touching the
//! desktop — is returned as an [`UpdateResult`] request that the owning
//! event loop performs before feeding the outcome back as another
//! message. Zoom steps multiply the scale by the configured step (in
//! thousandths), clamp it into the configured range, and scale the pan
//! offsets by the same ratio so the view stays anchored.

use vstd::prelude::*;
use vstd::string::StringExecFns;

use crate::file::{navigate_next, navigate_prev, spec_next_index, spec_prev_index};
use crate::message::AppMessage;
use crate::meta::DocumentMeta;
use crate::model::{AppModel, ToolMode, ViewMode};
use crate::viewer::{spec_clamp_mag, spec_div_trunc, MAX_SCALE_LIMIT, MAX_VIEW_POS};

verus! {

/// What the owning event loop must do after an update: nothing, open a
/// path and install the outcome, generate one thumbnail page (re-arming
/// with the returned next page), recompute metadata, or set the
/// wallpaper.
pub enum UpdateResult {
    /// No outside work.
    Idle,
    /// Open the file at the path and install the outcome.
    OpenRequest(String),
    /// Drive the thumbnail pipeline for this page.
    GenerateThumbnail(usize),
    /// Recompute the current document's metadata.
    MetadataRequest,
    /// Set the file at the path as the desktop wallpaper.
    WallpaperRequest(String),
}

/// The zoom factor the keyboard zoom helpers treat as current: the custom
/// factor, or 100% for the fitted and actual-size modes.
pub open spec fn spec_current_zoom(m: AppModel) -> int {
    match m.view_mode {
        ViewMode::Custom(z) => z as int,
        _ => 1000,
    }
}

/// One keyboard zoom step from a current factor: multiplied (or divided)
/// by the configured step in thousandths, truncating, then clamped into
/// the configured scale range.
pub open spec fn spec_zoom_target(cur: int, step: int, zoom_in: bool, min: int, max: int) -> int {
    let raw = if zoom_in {
        cur * step / 1000
    } else {
        cur * 1000 / step
    };
    if raw < min {
        min
    } else if raw > max {
        max
    } else {
        raw
    }
}

/// A pan offset rescaled by the ratio of a new to an old zoom factor,
/// truncating, saturated at the machine position limit.
pub open spec fn spec_rescaled_pan(pan: int, new: int, cur: int) -> int {
    spec_clamp_mag(spec_div_trunc(pan * new, cur), MAX_VIEW_POS as int)
}

/// The current zoom factor in thousandths (100% outside custom mode).
pub fn current_zoom(model: &AppModel) -> (r: u32)
    requires
        model.wf(),
    ensures
        r as int == spec_current_zoom(*model),
        0 < r <= MAX_SCALE_LIMIT,
{
    match model.view_mode {
        ViewMode::Fit | ViewMode::ActualSize => 1000,
        ViewMode::Custom(z) => z,
    }
}

/// Clamp a pan offset to the machine position limit.
fn clamp_pan(v: i128) -> (r: i64)
    requires
        -0x7fffffffffffffffffffffffffff <= v <= 0x7fffffffffffffffffffffffffff,
    ensures
        r as int == spec_clamp_mag(v as int, MAX_VIEW_POS as int),
{
    if v < -(MAX_VIEW_POS as i128) {
        -MAX_VIEW_POS
    } else if v > MAX_VIEW_POS as i128 {
        MAX_VIEW_POS
    } else {
        v as i64
    }
}

/// Truncating division of a bounded value by a positive divisor.
fn div_pan(a: i128, b: i128) -> (r: i128)
    requires
        b > 0,
        -0x7fffffffffffffffffffffffffff <= a <= 0x7fffffffffffffffffffffffffff,
    ensures
        r as int == spec_div_trunc(a as int, b as int),
        -0x7fffffffffffffffffffffffffff <= r <= 0x7fffffffffffffffffffffffffff,
{
    proof {
        vstd::arithmetic::div_mod::lemma_div_is_ordered_by_denominator(
            if a >= 0 {
                a as int
            } else {
                -(a as int)
            },
            1,
            b as int,
        );
        vstd::arithmetic::div_mod::lemma_div_basics(
            if a >= 0 {
                a as int
            } else {
                -(a as int)
            },
        );
        vstd::arithmetic::div_mod::lemma_div_pos_is_pos(
            if a >= 0 {
                a as int
            } else {
                -(a as int)
            },
            b as int,
        );
    }
    if a >= 0 {
        let q: u128 = (a as u128) / (b as u128);
        q as i128
    } else {
        let q: u128 = ((-a) as u128) / (b as u128);
        -(q as i128)
    }
}

/// Apply one keyboard zoom step: the view mode becomes the clamped
/// target factor and both pan offsets are rescaled by the ratio of the
/// new to the old factor, so the viewed point stays anchored.
fn apply_zoom(model: &mut AppModel, zoom_in: bool)
    requires
        old(model).wf(),
    ensures
        final(model).wf(),
        ({
            let cur = spec_current_zoom(*old(model));
            let target = spec_zoom_target(
                cur,
                old(model).config.scale_step as int,
                zoom_in,
                old(model).config.min_scale as int,
                old(model).config.max_scale as int,
            );
            *final(model) == (AppModel {
                view_mode: ViewMode::Custom(target as u32),
                pan_x: spec_rescaled_pan(old(model).pan_x as int, target, cur) as i64,
                pan_y: spec_rescaled_pan(old(model).pan_y as int, target, cur) as i64,
                ..*old(model)
            })
        }),
{
    let cur = current_zoom(model);
    proof {
        assert((cur as int) * (model.config.scale_step as int) <= 0x100000 * 0x100000)
            by (nonlinear_arith)
            requires
                0 < cur <= MAX_SCALE_LIMIT,
                0 < model.config.scale_step <= MAX_SCALE_LIMIT,
        ;
    }
    let raw: u64 = if zoom_in {
        (cur as u64) * (model.config.scale_step as u64) / 1000
    } else {
        (cur as u64) * 1000 / (model.config.scale_step as u64)
    };
    let target: u32 = if raw < model.config.min_scale as u64 {
        model.config.min_scale
    } else if raw > model.config.max_scale as u64 {
        model.config.max_scale
    } else {
        raw as u32
    };
    proof {
        assert((model.pan_x as int) * (target as int) <= 0x10000000000 * 0x100000
            && (model.pan_x as int) * (target as int) >= -0x10000000000 * 0x100000)
            by (nonlinear_arith)
            requires
                -MAX_VIEW_POS <= model.pan_x <= MAX_VIEW_POS,
                0 < target <= MAX_SCALE_LIMIT,
        ;
        assert((model.pan_y as int) * (target as int) <= 0x10000000000 * 0x100000
            && (model.pan_y as int) * (target as int) >= -0x10000000000 * 0x100000)
            by (nonlinear_arith)
            requires
                -MAX_VIEW_POS <= model.pan_y <= MAX_VIEW_POS,
                0 < target <= MAX_SCALE_LIMIT,
        ;
    }
    let px = div_pan((model.pan_x as i128) * (target as i128), cur as i128);
    let py = div_pan((model.pan_y as i128) * (target as i128), cur as i128);
    model.pan_x = clamp_pan(px);
    model.pan_y = clamp_pan(py);
    model.view_mode = ViewMode::Custom(target);
}

/// Recompute the current document's metadata from its path, raw bytes
/// and file size, caching the record on the model; without an open
/// document or path the cached record is cleared.
pub fn refresh_metadata(model: &mut AppModel, data: &Vec<u8>, file_size: u64)
    requires
        old(model).wf(),
        (old(model).document matches Some(d) ==> (d.page_count_opt() matches Some(n) ==> n
            <= 0xffffffff)),
    ensures
        final(model).wf(),
        final(model).document == old(model).document,
        final(model).view_mode == old(model).view_mode,
        final(model).current_path == old(model).current_path,
        (old(model).document matches Some(d) ==> (old(model).current_path matches Some(p) ==> (
        final(model).metadata matches Some(m) && d.spec_meta_matches(p@, data@, file_size, m)))),
        (!(old(model).document is Some && old(model).current_path is Some) ==> final(model).metadata is None),
{
    match (&model.document, &model.current_path) {
        (Some(doc), Some(path)) => {
            let meta = doc.extract_meta(path.as_str(), data, file_size);
            model.metadata = Some(meta);
        },
        _ => {
            model.metadata = None;
        },
    }
}

/// Apply a message to the model, returning what outside work the owner
/// must perform. Every pure effect is stated exactly per message; work
/// that touches the outside world (opening files, rasterizing pages,
/// setting the wallpaper) is returned as a request.
pub fn update(model: &mut AppModel, msg: &AppMessage) -> (r: UpdateResult)
    requires
        old(model).wf(),
    ensures
        final(model).wf(),
        ({
            match *msg {
                AppMessage::OpenPath(ref p) => *final(model) == *old(model) && (r matches
                    UpdateResult::OpenRequest(q) && q@ == p@),
                AppMessage::NextDocument => {
                    if old(model).folder_entries@.len() == 0 {
                        *final(model) == *old(model) && r is Idle
                    } else {
                        let ix = spec_next_index(
                            old(model).current_index,
                            old(model).folder_entries@.len() as int,
                        );
                        &&& *final(model) == (AppModel {
                            current_index: Some(ix as usize),
                            ..*old(model)
                        })
                        &&& (r matches UpdateResult::OpenRequest(q) && q@ == old(model).folder_entries@[ix]@)
                    }
                },
                AppMessage::PrevDocument => {
                    if old(model).folder_entries@.len() == 0 {
                        *final(model) == *old(model) && r is Idle
                    } else {
                        let ix = spec_prev_index(
                            old(model).current_index,
                            old(model).folder_entries@.len() as int,
                        );
                        &&& *final(model) == (AppModel {
                            current_index: Some(ix as usize),
                            ..*old(model)
                        })
                        &&& (r matches UpdateResult::OpenRequest(q) && q@ == old(model).folder_entries@[ix]@)
                    }
                },
                AppMessage::GotoPage(page) => {
                    &&& r is Idle
                    &&& (old(model).document is None ==> *final(model) == *old(model))
                    &&& (old(model).document matches Some(d) ==> (final(model).document matches
                        Some(fd) && fd.kind_spec() == d.kind_spec() && fd.page_count_opt()
                        == d.page_count_opt() && ((d.page_count_opt() matches Some(n) && (page
                        as int) < n) ==> fd.current_page_opt() == Some(page as int))
                        && (!(d.page_count_opt() matches Some(n) && (page as int) < n)
                        ==> fd.current_page_opt() == d.current_page_opt() && fd.surface_of()
                        == d.surface_of())))
                },
                AppMessage::GenerateThumbnailPage(page) => {
                    &&& *final(model) == *old(model)
                    &&& (old(model).document is None ==> r is Idle)
                    &&& (old(model).document is Some ==> (r matches UpdateResult::GenerateThumbnail(
                        g,
                    ) && g == page))
                },
                AppMessage::RefreshView => {
                    &&& r is Idle
                    &&& *final(model) == (AppModel {
                        tick: (if old(model).tick == 0xffffffffffffffffu64 {
                            0u64
                        } else {
                            (old(model).tick + 1) as u64
                        }),
                        ..*old(model)
                    })
                },
                AppMessage::ZoomIn => {
                    let cur = spec_current_zoom(*old(model));
                    let target = spec_zoom_target(
                        cur,
                        old(model).config.scale_step as int,
                        true,
                        old(model).config.min_scale as int,
                        old(model).config.max_scale as int,
                    );
                    r is Idle && *final(model) == (AppModel {
                        view_mode: ViewMode::Custom(target as u32),
                        pan_x: spec_rescaled_pan(old(model).pan_x as int, target, cur) as i64,
                        pan_y: spec_rescaled_pan(old(model).pan_y as int, target, cur) as i64,
                        ..*old(model)
                    })
                },
                AppMessage::ZoomOut => {
                    let cur = spec_current_zoom(*old(model));
                    let target = spec_zoom_target(
                        cur,
                        old(model).config.scale_step as int,
                        false,
                        old(model).config.min_scale as int,
                        old(model).config.max_scale as int,
                    );
                    r is Idle && *final(model) == (AppModel {
                        view_mode: ViewMode::Custom(target as u32),
                        pan_x: spec_rescaled_pan(old(model).pan_x as int, target, cur) as i64,
                        pan_y: spec_rescaled_pan(old(model).pan_y as int, target, cur) as i64,
                        ..*old(model)
                    })
                },
                AppMessage::ZoomReset => r is Idle && *final(model) == (AppModel {
                    view_mode: ViewMode::ActualSize,
                    pan_x: 0i64,
                    pan_y: 0i64,
                    ..*old(model)
                }),
                AppMessage::ZoomFit => r is Idle && *final(model) == (AppModel {
                    view_mode: ViewMode::Fit,
                    pan_x: 0i64,
                    pan_y: 0i64,
                    ..*old(model)
                }),
                AppMessage::ViewerStateChanged { scale, offset_x, offset_y } => r is Idle && *final(model) == (AppModel {
                    view_mode: ViewMode::Custom(
                        (if scale == 0 {
                            1u32
                        } else if scale > MAX_SCALE_LIMIT {
                            MAX_SCALE_LIMIT
                        } else {
                            scale
                        }),
                    ),
                    pan_x: spec_clamp_mag(offset_x as int, MAX_VIEW_POS as int) as i64,
                    pan_y: spec_clamp_mag(offset_y as int, MAX_VIEW_POS as int) as i64,
                    ..*old(model)
                }),
                AppMessage::PanLeft => r is Idle && *final(model) == (AppModel {
                    pan_x: spec_clamp_mag(
                        old(model).pan_x - old(model).config.pan_step,
                        MAX_VIEW_POS as int,
                    ) as i64,
                    ..*old(model)
                }),
                AppMessage::PanRight => r is Idle && *final(model) == (AppModel {
                    pan_x: spec_clamp_mag(
                        old(model).pan_x + old(model).config.pan_step,
                        MAX_VIEW_POS as int,
                    ) as i64,
                    ..*old(model)
                }),
                AppMessage::PanUp => r is Idle && *final(model) == (AppModel {
                    pan_y: spec_clamp_mag(
                        old(model).pan_y - old(model).config.pan_step,
                        MAX_VIEW_POS as int,
                    ) as i64,
                    ..*old(model)
                }),
                AppMessage::PanDown => r is Idle && *final(model) == (AppModel {
                    pan_y: spec_clamp_mag(
                        old(model).pan_y + old(model).config.pan_step,
                        MAX_VIEW_POS as int,
                    ) as i64,
                    ..*old(model)
                }),
                AppMessage::PanReset => r is Idle && *final(model) == (AppModel {
                    pan_x: 0i64,
                    pan_y: 0i64,
                    ..*old(model)
                }),
                AppMessage::ToggleCropMode => r is Idle && *final(model) == (AppModel {
                    tool_mode: (if old(model).tool_mode == ToolMode::Crop {
                        ToolMode::Inactive
                    } else {
                        ToolMode::Crop
                    }),
                    ..*old(model)
                }),
                AppMessage::ToggleScaleMode => r is Idle && *final(model) == (AppModel {
                    tool_mode: (if old(model).tool_mode == ToolMode::Scale {
                        ToolMode::Inactive
                    } else {
                        ToolMode::Scale
                    }),
                    ..*old(model)
                }),
                AppMessage::FlipHorizontal => {
                    &&& r is Idle
                    &&& (old(model).document is None ==> *final(model) == *old(model))
                    &&& (old(model).document matches Some(d) ==> (final(model).document matches
                        Some(fd) && fd.kind_spec() == d.kind_spec() && fd.transform_spec()
                        == d.transform_spec().spec_flipped(
                        crate::transform::FlipDirection::Horizontal,
                    )))
                },
                AppMessage::FlipVertical => {
                    &&& r is Idle
                    &&& (old(model).document is None ==> *final(model) == *old(model))
                    &&& (old(model).document matches Some(d) ==> (final(model).document matches
                        Some(fd) && fd.kind_spec() == d.kind_spec() && fd.transform_spec()
                        == d.transform_spec().spec_flipped(
                        crate::transform::FlipDirection::Vertical,
                    )))
                },
                AppMessage::RotateCW => {
                    &&& r is Idle
                    &&& (old(model).document is None ==> *final(model) == *old(model))
                    &&& (old(model).document matches Some(d) ==> (final(model).document matches
                        Some(fd) && fd.kind_spec() == d.kind_spec() && fd.transform_spec()
                        == (crate::transform::TransformState {
                        rotation: d.transform_spec().rotation.spec_rotate_cw(),
                        ..d.transform_spec()
                    })))
                },
                AppMessage::RotateCCW => {
                    &&& r is Idle
                    &&& (old(model).document is None ==> *final(model) == *old(model))
                    &&& (old(model).document matches Some(d) ==> (final(model).document matches
                        Some(fd) && fd.kind_spec() == d.kind_spec() && fd.transform_spec()
                        == (crate::transform::TransformState {
                        rotation: d.transform_spec().rotation.spec_rotate_ccw(),
                        ..d.transform_spec()
                    })))
                },
                AppMessage::RefreshMetadata => {
                    if old(model).document is Some && old(model).current_path is Some {
                        *final(model) == *old(model) && r is MetadataRequest
                    } else {
                        r is Idle && *final(model) == (AppModel {
                            metadata: None::<DocumentMeta>,
                            ..*old(model)
                        })
                    }
                },
                AppMessage::SetAsWallpaper => {
                    match old(model).current_path {
                        Some(ref p) => *final(model) == *old(model) && (r matches
                            UpdateResult::WallpaperRequest(q) && q@ == p@),
                        None => r is Idle && (final(model).error matches Some(m) && m@
                            == "No image loaded"@) && final(model).document == old(model).document,
                    }
                },
                AppMessage::ShowError(ref m) => r is Idle && (final(model).error matches Some(e)
                    && e@ == m@) && *final(model) == (AppModel {
                    error: final(model).error,
                    ..*old(model)
                }),
                AppMessage::ClearError => r is Idle && *final(model) == (AppModel {
                    error: None::<String>,
                    ..*old(model)
                }),
                AppMessage::ToggleContextPage(_) | AppMessage::ToggleNavBar | AppMessage::NoOp => r
                    is Idle && *final(model) == *old(model),
            }
        }),
{
    match msg {
        AppMessage::OpenPath(path) => UpdateResult::OpenRequest(path.clone()),
        AppMessage::NextDocument => {
            match navigate_next(model) {
                Some(path) => UpdateResult::OpenRequest(path),
                None => UpdateResult::Idle,
            }
        },
        AppMessage::PrevDocument => {
            match navigate_prev(model) {
                Some(path) => UpdateResult::OpenRequest(path),
                None => UpdateResult::Idle,
            }
        },
        AppMessage::GotoPage(page) => {
            if let Some(doc) = &mut model.document {
                let _outcome = doc.go_to_page(*page);
            }
            UpdateResult::Idle
        },
        AppMessage::GenerateThumbnailPage(page) => {
            if model.document.is_some() {
                UpdateResult::GenerateThumbnail(*page)
            } else {
                UpdateResult::Idle
            }
        },
        AppMessage::RefreshView => {
            model.tick = if model.tick == u64::MAX {
                0
            } else {
                model.tick + 1
            };
            UpdateResult::Idle
        },
        AppMessage::ZoomIn => {
            apply_zoom(model, true);
            UpdateResult::Idle
        },
        AppMessage::ZoomOut => {
            apply_zoom(model, false);
            UpdateResult::Idle
        },
        AppMessage::ZoomReset => {
            model.view_mode = ViewMode::ActualSize;
            model.reset_pan();
            UpdateResult::Idle
        },
        AppMessage::ZoomFit => {
            model.view_mode = ViewMode::Fit;
            model.reset_pan();
            UpdateResult::Idle
        },
        AppMessage::ViewerStateChanged { scale, offset_x, offset_y } => {
            let clamped_scale: u32 = if *scale == 0 {
                1
            } else if *scale > MAX_SCALE_LIMIT {
                MAX_SCALE_LIMIT
            } else {
                *scale
            };
            model.view_mode = ViewMode::Custom(clamped_scale);
            model.pan_x = clamp_pan(*offset_x as i128);
            model.pan_y = clamp_pan(*offset_y as i128);
            UpdateResult::Idle
        },
        AppMessage::PanLeft => {
            model.pan_x = clamp_pan((model.pan_x as i128) - (model.config.pan_step as i128));
            UpdateResult::Idle
        },
        AppMessage::PanRight => {
            model.pan_x = clamp_pan((model.pan_x as i128) + (model.config.pan_step as i128));
            UpdateResult::Idle
        },
        AppMessage::PanUp => {
            model.pan_y = clamp_pan((model.pan_y as i128) - (model.config.pan_step as i128));
            UpdateResult::Idle
        },
        AppMessage::PanDown => {
            model.pan_y = clamp_pan((model.pan_y as i128) + (model.config.pan_step as i128));
            UpdateResult::Idle
        },
        AppMessage::PanReset => {
            model.reset_pan();
            UpdateResult::Idle
        },
        AppMessage::ToggleCropMode => {
            model.tool_mode = if model.tool_mode == ToolMode::Crop {
                ToolMode::Inactive
            } else {
                ToolMode::Crop
            };
            UpdateResult::Idle
        },
        AppMessage::ToggleScaleMode => {
            model.tool_mode = if model.tool_mode == ToolMode::Scale {
                ToolMode::Inactive
            } else {
                ToolMode::Scale
            };
            UpdateResult::Idle
        },
        AppMessage::FlipHorizontal => {
            if let Some(doc) = &mut model.document {
                doc.flip_horizontal();
            }
            UpdateResult::Idle
        },
        AppMessage::FlipVertical => {
            if let Some(doc) = &mut model.document {
                doc.flip_vertical();
            }
            UpdateResult::Idle
        },
        AppMessage::RotateCW => {
            if let Some(doc) = &mut model.document {
                doc.rotate_cw();
            }
            UpdateResult::Idle
        },
        AppMessage::RotateCCW => {
            if let Some(doc) = &mut model.document {
                doc.rotate_ccw();
            }
            UpdateResult::Idle
        },
        AppMessage::RefreshMetadata => {
            if model.document.is_some() && model.current_path.is_some() {
                UpdateResult::MetadataRequest
            } else {
                model.metadata = None;
                UpdateResult::Idle
            }
        },
        AppMessage::SetAsWallpaper => {
            match &model.current_path {
                Some(path) => UpdateResult::WallpaperRequest(path.clone()),
                None => {
                    model.set_error(String::from_str("No image loaded"));
                    UpdateResult::Idle
                },
            }
        },
        AppMessage::ShowError(m) => {
            model.set_error(m.clone());
            UpdateResult::Idle
        },
        AppMessage::ClearError => {
            model.clear_error();
            UpdateResult::Idle
        },
        AppMessage::ToggleContextPage(_) | AppMessage::ToggleNavBar | AppMessage::NoOp => {
            UpdateResult::Idle
        },
    }
}


} // verus!
