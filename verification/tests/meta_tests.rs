//! Metadata records and display strings.

use noctua::document::{extension_of, file_name_of, DocumentKind};
use noctua::meta::{
    build_portable_meta, coord_display, extract_basic_meta, format_from_extension, BasicMeta,
    ExifMeta,
};
use noctua::meta::extract_exif_from_bytes;
use noctua::text::{u64_to_string, u64_to_string_padded};

fn basic(file_size: u64, width: u32, height: u32) -> BasicMeta {
    extract_basic_meta(
        "/photos/cat.png",
        width,
        height,
        "PNG",
        "RGBA 8-bit".to_string(),
        file_size,
    )
}

#[test]
fn decimal_rendering() {
    assert_eq!(u64_to_string(0), "0");
    assert_eq!(u64_to_string(7), "7");
    assert_eq!(u64_to_string(90210), "90210");
    assert_eq!(u64_to_string(u64::MAX), "18446744073709551615");
    assert_eq!(u64_to_string_padded(7, 5), "00007");
    assert_eq!(u64_to_string_padded(12345, 5), "12345");
}

#[test]
fn file_size_display_picks_units() {
    assert_eq!(basic(0, 1, 1).file_size_display(), "0 B");
    assert_eq!(basic(512, 1, 1).file_size_display(), "512 B");
    assert_eq!(basic(1024, 1, 1).file_size_display(), "1.0 KB");
    assert_eq!(basic(1536, 1, 1).file_size_display(), "1.5 KB");
    assert_eq!(basic(5 * 1024 * 1024, 1, 1).file_size_display(), "5.00 MB");
    assert_eq!(basic(2_621_440, 1, 1).file_size_display(), "2.50 MB");
    assert_eq!(basic(3 * 1024 * 1024 * 1024, 1, 1).file_size_display(), "3.00 GB");
}

#[test]
fn resolution_display_joins_dimensions() {
    assert_eq!(basic(1, 800, 600).resolution_display(), "800 \u{d7} 600");
}

#[test]
fn basic_meta_extracts_file_name() {
    let m = basic(1, 1, 1);
    assert_eq!(m.file_name, "cat.png");
    assert_eq!(m.file_path, "/photos/cat.png");
    let trailing = extract_basic_meta("/photos/", 1, 1, "PNG", String::new(), 1);
    assert_eq!(trailing.file_name, "unknown");
}

#[test]
fn camera_display_combines_make_and_model() {
    let mut exif = ExifMeta {
        camera_make: Some("Nikon".to_string()),
        camera_model: Some("Nikon Z6".to_string()),
        date_time: None,
        exposure_time: None,
        f_number: None,
        iso: None,
        focal_length: None,
        gps_latitude: None,
        gps_longitude: None,
    };
    assert_eq!(exif.camera_display().unwrap(), "Nikon Z6");
    exif.camera_model = Some("Z6".to_string());
    assert_eq!(exif.camera_display().unwrap(), "Nikon Z6");
    exif.camera_make = None;
    assert_eq!(exif.camera_display().unwrap(), "Z6");
    exif.camera_model = None;
    assert!(exif.camera_display().is_none());
}

#[test]
fn gps_display_needs_both_coordinates() {
    let mut exif = ExifMeta {
        camera_make: None,
        camera_model: None,
        date_time: None,
        exposure_time: None,
        f_number: None,
        iso: None,
        focal_length: None,
        gps_latitude: Some(48_13743),
        gps_longitude: Some(-16_36287),
    };
    assert_eq!(exif.gps_display().unwrap(), "48.13743, -16.36287");
    exif.gps_longitude = None;
    assert!(exif.gps_display().is_none());
}

#[test]
fn coordinate_rendering_pads_fractions() {
    assert_eq!(coord_display(0), "0.00000");
    assert_eq!(coord_display(100000), "1.00000");
    assert_eq!(coord_display(-50), "-0.00050");
}

#[test]
fn format_from_extension_uppercases() {
    assert_eq!(format_from_extension("/a/photo.png"), "PNG");
    assert_eq!(format_from_extension("/a/photo.jpeg"), "JPEG");
    assert_eq!(format_from_extension("/a/noext"), "Unknown");
}

#[test]
fn portable_meta_reports_page_count() {
    let m = build_portable_meta("/books/guide.pdf", 600, 800, 12, 4096);
    assert_eq!(m.basic.format, "PDF (12 pages)");
    assert_eq!(m.basic.color_type, "Rendered");
    assert!(m.exif.is_none());
}

#[test]
fn document_kind_from_path_dispatches_on_extension() {
    assert_eq!(DocumentKind::from_path("/a/b.svg"), Some(DocumentKind::Vector));
    assert_eq!(DocumentKind::from_path("/a/b.SVGZ"), Some(DocumentKind::Vector));
    assert_eq!(DocumentKind::from_path("/a/b.pdf"), Some(DocumentKind::Portable));
    assert_eq!(DocumentKind::from_path("/a/b.PDF"), Some(DocumentKind::Portable));
    assert_eq!(DocumentKind::from_path("/a/b.png"), Some(DocumentKind::Raster));
    assert_eq!(DocumentKind::from_path("/a/b.JPeG"), Some(DocumentKind::Raster));
    assert_eq!(DocumentKind::from_path("/a/b.webp"), Some(DocumentKind::Raster));
    assert_eq!(DocumentKind::from_path("/a/b.txt"), None);
    assert_eq!(DocumentKind::from_path("/a/noext"), None);
    assert_eq!(DocumentKind::from_path("/a/.png"), None);
    assert_eq!(DocumentKind::from_path("/a/archive.tar.gz"), None);
    assert_eq!(DocumentKind::from_path("photo.tiff"), Some(DocumentKind::Raster));
}

/// A minimal little-endian TIFF whose only field is the camera make
/// "Abc", enough for the EXIF parser to find one attribute.
fn tiny_tiff() -> Vec<u8> {
    let mut t = Vec::new();
    t.extend_from_slice(b"II*\0");
    t.extend_from_slice(&8u32.to_le_bytes());
    t.extend_from_slice(&1u16.to_le_bytes());
    t.extend_from_slice(&0x010fu16.to_le_bytes());
    t.extend_from_slice(&2u16.to_le_bytes());
    t.extend_from_slice(&4u32.to_le_bytes());
    t.extend_from_slice(b"Abc\0");
    t.extend_from_slice(&0u32.to_le_bytes());
    t
}

#[test]
fn exif_extraction_reads_camera_make() {
    let data = tiny_tiff();
    let meta = extract_exif_from_bytes(&data).expect("parsable EXIF block");
    let make = meta.camera_make.expect("make field present");
    assert!(make.contains("Abc"));
    assert!(meta.camera_model.is_none());
    assert!(meta.gps_latitude.is_none());
}

#[test]
fn exif_extraction_rejects_non_exif_bytes() {
    assert!(extract_exif_from_bytes(&vec![1, 2, 3]).is_none());
}

#[test]
fn path_parsing_matches_platform_rules() {
    assert_eq!(file_name_of("/a/b/c.png"), "c.png");
    assert_eq!(file_name_of("plain.png"), "plain.png");
    assert_eq!(file_name_of("/ends/with/"), "");
    assert_eq!(extension_of("/a/b.tar.gz"), Some("gz"));
    assert_eq!(extension_of("/a/.hidden"), None);
    assert_eq!(extension_of("/a/trailing."), Some(""));
    assert_eq!(extension_of("/a/none"), None);
}
