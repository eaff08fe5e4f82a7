//! The portable document: pagination and the incremental thumbnail
//! pipeline.

use noctua::cache::ThumbnailCache;
use noctua::document::MultiPage;
use noctua::portable::{scaled_page_dims, PortableDocument};
use noctua::surface::Surface;
use noctua::transform::Rotation;

fn page(shade: u8) -> Surface {
    Surface {
        width: 2,
        height: 2,
        pixels: vec![shade; 16],
    }
}

fn open_three_pages() -> PortableDocument {
    PortableDocument::open("/books/guide.pdf", 1700000000, 3, page(0)).expect("three pages")
}

#[test]
fn zero_page_container_is_rejected() {
    let r = PortableDocument::open("/books/empty.pdf", 1, 0, page(0));
    assert!(r.is_err());
}

#[test]
fn generate_page_walks_all_pages_and_stops() {
    // A 3-page portable document with no prior cache.
    let mut doc = open_three_pages();
    let mut cache = ThumbnailCache::new();
    assert_eq!(doc.thumbnails_loaded(), 0);
    assert!(!doc.thumbnails_ready());

    let next = doc.generate_thumbnail_page(&mut cache, 0, Some(&page(10)));
    assert_eq!(next, Some(1));
    assert_eq!(doc.thumbnails_loaded(), 1);
    assert!(!doc.thumbnails_ready());

    let next = doc.generate_thumbnail_page(&mut cache, 1, Some(&page(11)));
    assert_eq!(next, Some(2));
    assert_eq!(doc.thumbnails_loaded(), 2);
    assert!(!doc.thumbnails_ready());

    let next = doc.generate_thumbnail_page(&mut cache, 2, Some(&page(12)));
    assert_eq!(next, None);
    assert_eq!(doc.thumbnails_loaded(), 3);
    assert!(doc.thumbnails_ready());
}

#[test]
fn generate_page_is_idempotent_for_generated_pages() {
    let mut doc = open_three_pages();
    let mut cache = ThumbnailCache::new();
    doc.generate_thumbnail_page(&mut cache, 0, Some(&page(10)));
    let before = doc.get_thumbnail(0).unwrap();
    // Re-generating page 0 only recomputes the next pointer.
    let next = doc.generate_thumbnail_page(&mut cache, 0, Some(&page(99)));
    assert_eq!(next, Some(1));
    assert_eq!(doc.thumbnails_loaded(), 1);
    let after = doc.get_thumbnail(0).unwrap();
    assert_eq!(before.pixels, after.pixels);
}

#[test]
fn cache_hit_is_preferred_over_fresh_render() {
    let mut first = open_three_pages();
    let mut cache = ThumbnailCache::new();
    first.generate_thumbnail_page(&mut cache, 0, Some(&page(42)));
    // A second document over the same file and mtime sees the cached
    // thumbnail even when handed a different rasterization.
    let mut second = open_three_pages();
    second.generate_thumbnail_page(&mut cache, 0, Some(&page(7)));
    let thumb = second.get_thumbnail(0).unwrap();
    assert_eq!(thumb.pixels, vec![42u8; 16]);
}

#[test]
fn missing_render_appends_placeholder() {
    let mut doc = open_three_pages();
    let mut cache = ThumbnailCache::new();
    doc.generate_thumbnail_page(&mut cache, 0, None);
    let thumb = doc.get_thumbnail(0).unwrap();
    assert_eq!((thumb.width, thumb.height), (1, 1));
    assert_eq!(thumb.pixels, vec![0, 0, 0, 0]);
}

#[test]
fn generate_all_thumbnails_completes_the_set() {
    let mut doc = open_three_pages();
    let mut cache = ThumbnailCache::new();
    let pages = vec![page(1), page(2), page(3)];
    doc.generate_all_thumbnails(&mut cache, &pages);
    assert!(doc.thumbnails_ready());
    assert_eq!(doc.thumbnails_loaded(), 3);
    assert_eq!(doc.get_thumbnail(1).unwrap().pixels, vec![2u8; 16]);
}

#[test]
fn generate_all_is_a_no_op_when_already_ready() {
    let mut doc = open_three_pages();
    let mut cache = ThumbnailCache::new();
    let pages = vec![page(1), page(2), page(3)];
    doc.generate_all_thumbnails(&mut cache, &pages);
    let before: Vec<_> = (0..3).map(|i| doc.get_thumbnail(i).unwrap().pixels).collect();
    // A second blocking pass with different rasterizations changes
    // nothing: thumbnails are never regenerated once present.
    let other = vec![page(7), page(8), page(9)];
    doc.generate_all_thumbnails(&mut cache, &other);
    for i in 0..3 {
        assert_eq!(doc.get_thumbnail(i).unwrap().pixels, before[i]);
    }
}

#[test]
fn go_to_page_rejects_out_of_range() {
    let mut doc = open_three_pages();
    assert_eq!(doc.current_page(), 0);
    assert!(doc.go_to_page(2).is_ok());
    assert_eq!(doc.current_page(), 2);
    assert!(doc.go_to_page(3).is_err());
    assert_eq!(doc.current_page(), 2);
}

#[test]
fn next_and_prev_page_stay_in_range() {
    let mut doc = open_three_pages();
    assert!(doc.next_page());
    assert!(doc.next_page());
    assert!(!doc.next_page());
    assert_eq!(doc.current_page(), 2);
    assert!(doc.prev_page());
    assert_eq!(doc.current_page(), 1);
}

#[test]
fn page_dims_swap_for_quarter_turns() {
    assert_eq!(scaled_page_dims(600, 800, Rotation::Cw0, 2000), (1200, 1600));
    assert_eq!(scaled_page_dims(600, 800, Rotation::Cw90, 2000), (1600, 1200));
    assert_eq!(scaled_page_dims(600, 800, Rotation::Cw270, 1000), (800, 600));
    assert_eq!(scaled_page_dims(600, 800, Rotation::Cw180, 250), (150, 200));
}
