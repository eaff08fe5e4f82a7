//! The type-erased document content and the raster decode path.

use noctua::codec::encode_png;
use noctua::content::DocumentContent;
use noctua::document::DocumentError;
use noctua::file::load_document_into_model;
use noctua::message::AppMessage;
use noctua::model::{AppConfig, AppModel, ViewMode};
use noctua::raster::RasterDocument;
use noctua::surface::Surface;
use noctua::transform::{FlipDirection, Rotation};
use noctua::update::update;
use noctua::vector::{render_target_dims, VectorDocument};

fn sample_surface() -> Surface {
    let mut pixels = Vec::new();
    for i in 0..6u8 {
        pixels.extend_from_slice(&[i, 10 + i, 20 + i, 255]);
    }
    Surface {
        width: 3,
        height: 2,
        pixels,
    }
}

fn open_raster() -> RasterDocument {
    let png = encode_png(&sample_surface());
    RasterDocument::open(&png).expect("valid PNG")
}

#[test]
fn raster_open_decodes_png_bytes() {
    let doc = open_raster();
    assert_eq!(doc.dimensions(), (3, 2));
    let info = doc.info();
    assert_eq!((info.width, info.height), (3, 2));
    assert_eq!(info.format, "Raster");
}

#[test]
fn raster_open_rejects_garbage() {
    let r = RasterDocument::open(&vec![1, 2, 3, 4]);
    assert!(matches!(r, Err(DocumentError::DecodeFailed)));
}

#[test]
fn raster_rotation_is_relative_to_tracked_state() {
    let mut doc = open_raster();
    doc.rotate_to(Rotation::Cw90);
    assert_eq!(doc.dimensions(), (2, 3));
    // Requesting the same absolute rotation again is a no-op.
    doc.rotate_to(Rotation::Cw90);
    assert_eq!(doc.dimensions(), (2, 3));
    doc.rotate_to(Rotation::Cw0);
    assert_eq!(doc.dimensions(), (3, 2));
}

#[test]
fn content_rotation_cycle_restores_dimensions() {
    // Four cumulative quarter turns return the pixel dimensions (and on
    // raster sources the exact pixels) to the original.
    let original = sample_surface();
    let mut content = DocumentContent::Raster(open_raster());
    for _ in 0..4 {
        content.rotate_cw();
    }
    assert_eq!(content.dimensions(), (3, 2));
    assert_eq!(content.transform_state().rotation, Rotation::Cw0);
    let handle = content.handle();
    assert_eq!(handle.pixels, original.pixels);
}

#[test]
fn content_flip_twice_restores_pixels() {
    let original = sample_surface();
    let mut content = DocumentContent::Raster(open_raster());
    content.flip(FlipDirection::Vertical);
    assert!(content.transform_state().flip_v);
    content.flip(FlipDirection::Vertical);
    assert!(!content.transform_state().flip_v);
    assert_eq!(content.handle().pixels, original.pixels);
}

#[test]
fn non_paginated_content_has_no_pages() {
    let mut content = DocumentContent::Raster(open_raster());
    assert!(!content.is_multi_page());
    assert_eq!(content.page_count(), None);
    assert_eq!(content.current_page(), None);
    assert!(content.go_to_page(0).is_err());
    assert!(content.get_thumbnail(0).is_none());
    assert_eq!(content.thumbnails_loaded(), 0);
}

#[test]
fn vector_document_defers_rerendering_to_owner() {
    let mut doc = VectorDocument::new(100, 50, sample_surface());
    assert_eq!(doc.dimensions(), (3, 2));
    assert!(doc.render_at_scale(2000));
    assert!(!doc.render_at_scale(2000));
    doc.apply_rendered(sample_surface());
    assert_eq!(doc.dimensions(), (3, 2));
    doc.rotate_to(Rotation::Cw90);
    doc.apply_rendered(sample_surface());
    // Orientation is applied to the fresh rasterization.
    assert_eq!(doc.dimensions(), (2, 3));
}

#[test]
fn vector_target_dims_clamp_to_one_pixel() {
    assert_eq!(render_target_dims(100, 50, 2000), (200, 100));
    assert_eq!(render_target_dims(100, 50, 1), (1, 1));
    assert_eq!(render_target_dims(3, 3, 1500), (5, 5));
}

#[test]
fn successful_open_installs_document_and_resets_view() {
    let mut m = AppModel::new(AppConfig::default());
    m.pan_x = 9;
    m.view_mode = ViewMode::Custom(2000);
    load_document_into_model(&mut m, "/photos/cat.png", Ok(DocumentContent::Raster(open_raster())));
    assert!(m.document.is_some());
    assert_eq!(m.current_path.as_deref(), Some("/photos/cat.png"));
    assert_eq!(m.view_mode, ViewMode::Fit);
    assert_eq!((m.pan_x, m.pan_y), (0, 0));
    assert!(m.error.is_none());
    // Transform messages reach the installed document.
    update(&mut m, &AppMessage::RotateCW);
    assert_eq!(
        m.document.as_ref().unwrap().transform_state().rotation,
        Rotation::Cw90
    );
}

#[test]
fn raster_metadata_reads_color_and_format() {
    let png = encode_png(&sample_surface());
    let doc = open_raster();
    let meta = doc.extract_meta("/photos/cat.png", &png, png.len() as u64);
    assert_eq!(meta.basic.format, "PNG");
    assert_eq!(meta.basic.color_type, "RGBA 8-bit");
    assert_eq!(meta.basic.file_name, "cat.png");
    assert_eq!((meta.basic.width, meta.basic.height), (3, 2));
    // A plain PNG carries no EXIF block.
    assert!(meta.exif.is_none());
}

#[test]
fn content_render_returns_current_handle() {
    let mut content = DocumentContent::Raster(open_raster());
    let out = content.render(5000).expect("rendering always succeeds");
    assert_eq!((out.width, out.height), (3, 2));
    assert_eq!(out.handle.pixels, sample_surface().pixels);
}

#[test]
fn error_messages_name_the_failure() {
    assert_eq!(
        DocumentError::UnsupportedFormat.message(),
        "Unsupported document type"
    );
    assert_eq!(DocumentError::EmptyDocument.message(), "Document has no pages");
}
