//! The session update loop and folder navigation.

use noctua::file::{collect_supported_files, load_document_into_model, refresh_folder_entries};
use noctua::message::AppMessage;
use noctua::model::{AppConfig, AppModel, ToolMode, ViewMode};
use noctua::update::{current_zoom, update, UpdateResult};

fn model() -> AppModel {
    AppModel::new(AppConfig::default())
}

#[test]
fn zoom_in_multiplies_by_configured_step() {
    let mut m = model();
    assert_eq!(current_zoom(&m), 1000);
    update(&mut m, &AppMessage::ZoomIn);
    assert_eq!(m.view_mode, ViewMode::Custom(1100));
    update(&mut m, &AppMessage::ZoomIn);
    assert_eq!(m.view_mode, ViewMode::Custom(1210));
}

#[test]
fn zoom_clamps_at_configured_bounds() {
    let mut m = model();
    for _ in 0..40 {
        update(&mut m, &AppMessage::ZoomIn);
    }
    assert_eq!(m.view_mode, ViewMode::Custom(m.config.max_scale));
    for _ in 0..80 {
        update(&mut m, &AppMessage::ZoomOut);
    }
    assert_eq!(m.view_mode, ViewMode::Custom(m.config.min_scale));
}

#[test]
fn zoom_rescales_pan_offsets() {
    let mut m = model();
    m.pan_x = 100;
    m.pan_y = -40;
    update(&mut m, &AppMessage::ZoomIn);
    // Factor 1.1: offsets follow the scale so the view stays anchored.
    assert_eq!(m.pan_x, 110);
    assert_eq!(m.pan_y, -44);
}

#[test]
fn zoom_and_pan_reset_messages() {
    let mut m = model();
    m.pan_x = 5;
    m.pan_y = 6;
    update(&mut m, &AppMessage::ZoomReset);
    assert_eq!(m.view_mode, ViewMode::ActualSize);
    assert_eq!((m.pan_x, m.pan_y), (0, 0));
    update(&mut m, &AppMessage::ZoomFit);
    assert_eq!(m.view_mode, ViewMode::Fit);
}

#[test]
fn pan_messages_move_by_step() {
    let mut m = model();
    update(&mut m, &AppMessage::PanRight);
    update(&mut m, &AppMessage::PanRight);
    update(&mut m, &AppMessage::PanUp);
    assert_eq!(m.pan_x, 2 * m.config.pan_step);
    assert_eq!(m.pan_y, -m.config.pan_step);
    update(&mut m, &AppMessage::PanReset);
    assert_eq!((m.pan_x, m.pan_y), (0, 0));
}

#[test]
fn viewer_state_changed_syncs_model() {
    let mut m = model();
    update(
        &mut m,
        &AppMessage::ViewerStateChanged { scale: 1500, offset_x: 12, offset_y: -7 },
    );
    assert_eq!(m.view_mode, ViewMode::Custom(1500));
    assert_eq!((m.pan_x, m.pan_y), (12, -7));
}

#[test]
fn tool_modes_toggle() {
    let mut m = model();
    update(&mut m, &AppMessage::ToggleCropMode);
    assert_eq!(m.tool_mode, ToolMode::Crop);
    update(&mut m, &AppMessage::ToggleCropMode);
    assert_eq!(m.tool_mode, ToolMode::Inactive);
    update(&mut m, &AppMessage::ToggleScaleMode);
    assert_eq!(m.tool_mode, ToolMode::Scale);
}

#[test]
fn open_path_is_delegated_to_the_owner() {
    let mut m = model();
    let r = update(&mut m, &AppMessage::OpenPath("/photos/cat.png".to_string()));
    assert!(matches!(r, UpdateResult::OpenRequest(p) if p == "/photos/cat.png"));
}

#[test]
fn navigation_wraps_around_the_folder() {
    let mut m = model();
    m.folder_entries = vec!["/a.png".to_string(), "/b.png".to_string(), "/c.png".to_string()];
    m.current_index = Some(2);
    let r = update(&mut m, &AppMessage::NextDocument);
    assert!(matches!(r, UpdateResult::OpenRequest(p) if p == "/a.png"));
    assert_eq!(m.current_index, Some(0));
    let r = update(&mut m, &AppMessage::PrevDocument);
    assert!(matches!(r, UpdateResult::OpenRequest(p) if p == "/c.png"));
    assert_eq!(m.current_index, Some(2));
}

#[test]
fn navigation_in_empty_folder_is_idle() {
    let mut m = model();
    let r = update(&mut m, &AppMessage::NextDocument);
    assert!(matches!(r, UpdateResult::Idle));
    assert_eq!(m.current_index, None);
}

#[test]
fn refresh_view_bumps_tick() {
    let mut m = model();
    update(&mut m, &AppMessage::RefreshView);
    update(&mut m, &AppMessage::RefreshView);
    assert_eq!(m.tick, 2);
}

#[test]
fn errors_are_recorded_and_cleared() {
    let mut m = model();
    update(&mut m, &AppMessage::ShowError("broken".to_string()));
    assert_eq!(m.error.as_deref(), Some("broken"));
    update(&mut m, &AppMessage::ClearError);
    assert!(m.error.is_none());
}

#[test]
fn wallpaper_without_image_reports_error() {
    let mut m = model();
    let r = update(&mut m, &AppMessage::SetAsWallpaper);
    assert!(matches!(r, UpdateResult::Idle));
    assert_eq!(m.error.as_deref(), Some("No image loaded"));
}

#[test]
fn collect_supported_files_filters_by_kind() {
    let paths = vec![
        "/d/a.png".to_string(),
        "/d/notes.txt".to_string(),
        "/d/b.pdf".to_string(),
        "/d/c.svg".to_string(),
        "/d/.hidden".to_string(),
    ];
    let kept = collect_supported_files(paths);
    assert_eq!(kept, vec!["/d/a.png", "/d/b.pdf", "/d/c.svg"]);
}

#[test]
fn refresh_folder_entries_finds_current() {
    let mut m = model();
    let entries = vec!["/d/a.png".to_string(), "/d/b.png".to_string()];
    refresh_folder_entries(&mut m, entries, "/d/b.png");
    assert_eq!(m.current_index, Some(1));
    let entries = vec!["/d/a.png".to_string()];
    refresh_folder_entries(&mut m, entries, "/d/zzz.png");
    assert_eq!(m.current_index, None);
}

#[test]
fn failed_open_records_error_and_clears_document() {
    let mut m = model();
    load_document_into_model(
        &mut m,
        "/d/broken.png",
        Err(noctua::document::DocumentError::DecodeFailed),
    );
    assert!(m.document.is_none());
    assert!(m.current_path.is_none());
    assert_eq!(m.error.as_deref(), Some("Failed to decode document"));
}
