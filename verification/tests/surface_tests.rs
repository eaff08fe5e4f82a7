//! Physical pixel transforms on surfaces, through the real `image` crate.

use noctua::surface::{unpremultiply, Surface};

/// A 2 x 3 surface whose pixels carry their own coordinates, so every
/// permutation is visible.
fn sample() -> Surface {
    let mut pixels = Vec::new();
    for y in 0..3u8 {
        for x in 0..2u8 {
            pixels.extend_from_slice(&[x, y, 100 + x, 200 + y]);
        }
    }
    Surface {
        width: 2,
        height: 3,
        pixels,
    }
}

fn pixel(s: &Surface, x: u32, y: u32) -> [u8; 4] {
    let i = (4 * (y * s.width + x)) as usize;
    [s.pixels[i], s.pixels[i + 1], s.pixels[i + 2], s.pixels[i + 3]]
}

#[test]
fn rotate90_swaps_dimensions_and_maps_pixels() {
    let s = sample();
    let r = s.rotate90();
    assert_eq!((r.width, r.height), (3, 2));
    // Destination (dx, dy) holds source (dy, h - 1 - dx).
    for dy in 0..2 {
        for dx in 0..3 {
            assert_eq!(pixel(&r, dx, dy), pixel(&s, dy, 3 - 1 - dx));
        }
    }
}

#[test]
fn rotate180_reverses_both_axes() {
    let s = sample();
    let r = s.rotate180();
    assert_eq!((r.width, r.height), (2, 3));
    for dy in 0..3 {
        for dx in 0..2 {
            assert_eq!(pixel(&r, dx, dy), pixel(&s, 2 - 1 - dx, 3 - 1 - dy));
        }
    }
}

#[test]
fn rotate270_matches_three_quarter_turn() {
    let s = sample();
    let r = s.rotate270();
    assert_eq!((r.width, r.height), (3, 2));
    for dy in 0..2 {
        for dx in 0..3 {
            assert_eq!(pixel(&r, dx, dy), pixel(&s, 2 - 1 - dy, dx));
        }
    }
}

#[test]
fn four_quarter_turns_restore_pixels() {
    let s = sample();
    let r = s.rotate90().rotate90().rotate90().rotate90();
    assert_eq!((r.width, r.height), (s.width, s.height));
    assert_eq!(r.pixels, s.pixels);
}

#[test]
fn flip_horizontal_mirrors_columns() {
    let s = sample();
    let r = s.flip_horizontal();
    assert_eq!((r.width, r.height), (2, 3));
    for dy in 0..3 {
        for dx in 0..2 {
            assert_eq!(pixel(&r, dx, dy), pixel(&s, 2 - 1 - dx, dy));
        }
    }
}

#[test]
fn flip_twice_restores_exact_pixels() {
    let s = sample();
    let h = s.flip_horizontal().flip_horizontal();
    assert_eq!(h.pixels, s.pixels);
    let v = s.flip_vertical().flip_vertical();
    assert_eq!(v.pixels, s.pixels);
}

#[test]
fn surface_new_checks_buffer_length() {
    let ok = Surface::new(2, 2, vec![0; 16]);
    assert!(ok.is_some());
    let bad = Surface::new(2, 2, vec![0; 15]);
    assert!(bad.is_none());
}

#[test]
fn unpremultiply_rescales_by_alpha() {
    // A half-transparent premultiplied red pixel and a transparent one.
    let pre = vec![64, 0, 0, 128, 9, 9, 9, 0];
    let out = unpremultiply(&pre);
    assert_eq!(out, vec![127, 0, 0, 128, 0, 0, 0, 0]);
}

#[test]
fn unpremultiply_keeps_opaque_pixels() {
    let pre = vec![10, 20, 30, 255];
    assert_eq!(unpremultiply(&pre), vec![10, 20, 30, 255]);
}
