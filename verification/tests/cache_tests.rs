//! The thumbnail cache: misses, saves, loads, and the round trip.

use noctua::cache::ThumbnailCache;
use noctua::fingerprint::cache_key;
use noctua::surface::Surface;

fn sample_image() -> Surface {
    let mut pixels = Vec::new();
    for i in 0..16u8 {
        pixels.extend_from_slice(&[i, 255 - i, i.wrapping_mul(7), 255]);
    }
    Surface {
        width: 4,
        height: 4,
        pixels,
    }
}

#[test]
fn save_then_load_returns_pixel_identical_image() {
    let mut cache = ThumbnailCache::new();
    let key = cache_key("/photos/cat.png", 1700000000, 0);
    assert!(cache.load_thumbnail(&key).is_none());
    let img = sample_image();
    cache.save_thumbnail(&key, &img);
    let loaded = cache.load_thumbnail(&key).expect("entry was just saved");
    assert_eq!(loaded.width, img.width);
    assert_eq!(loaded.height, img.height);
    assert_eq!(loaded.pixels, img.pixels);
}

#[test]
fn has_thumbnail_tracks_saves() {
    let mut cache = ThumbnailCache::new();
    let key = cache_key("/a.png", 1, 0);
    let other = cache_key("/a.png", 2, 0);
    assert!(!cache.has_thumbnail(&key));
    cache.save_thumbnail(&key, &sample_image());
    assert!(cache.has_thumbnail(&key));
    assert!(!cache.has_thumbnail(&other));
}

#[test]
fn save_overwrites_previous_entry() {
    let mut cache = ThumbnailCache::new();
    let key = cache_key("/a.png", 1, 0);
    cache.save_thumbnail(&key, &sample_image());
    let replacement = Surface {
        width: 1,
        height: 1,
        pixels: vec![9, 8, 7, 255],
    };
    cache.save_thumbnail(&key, &replacement);
    let loaded = cache.load_thumbnail(&key).unwrap();
    assert_eq!((loaded.width, loaded.height), (1, 1));
    assert_eq!(loaded.pixels, replacement.pixels);
}

#[test]
fn clear_cache_forgets_everything() {
    let mut cache = ThumbnailCache::new();
    let key = cache_key("/a.png", 1, 0);
    cache.save_thumbnail(&key, &sample_image());
    cache.clear_cache();
    assert!(!cache.has_thumbnail(&key));
    assert!(cache.load_thumbnail(&key).is_none());
}
