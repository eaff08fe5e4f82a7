//! Decoded pixel surfaces and the physical transforms applied to them.
//!
//! A [`Surface`] is a width, a height and a tightly packed RGBA byte buffer
//! (four bytes per pixel, row-major). The quarter-turn rotations and the two
//! mirror flips are performed by the `image` crate; each call goes through a
//! trusted wrapper whose contract states the exact pixel permutation that the
//! crate's `imageops` module implements, so that round-trip laws (two flips
//! cancel, four quarter turns cancel) are proved here against those
//! contracts.

use vstd::prelude::*;
use crate::transform::{Rotation, TransformState};
use vstd::arithmetic::div_mod::{
    lemma_fundamental_div_mod, lemma_fundamental_div_mod_converse, lemma_multiply_divide_lt,
    lemma_mod_bound, lemma_div_pos_is_pos,
};

verus! {

/// Byte index of channel `c` of the pixel at column `x`, row `y` in a
/// row-major RGBA buffer of width `w`.
pub open spec fn pix(w: int, x: int, y: int, c: int) -> int {
    4 * (y * w + x) + c
}

/// The buffer produced by rotating a `w` x `h` RGBA buffer 90 degrees
/// clockwise. The result is `h` x `w`; its pixel at column `dx`, row `dy`
/// comes from the source pixel at column `dy`, row `h - 1 - dx`.
pub open spec fn spec_rotate90(p: Seq<u8>, w: int, h: int) -> Seq<u8> {
    Seq::new((4 * w * h) as nat, |i: int| {
        let q = i / 4;
        let c = i % 4;
        let dx = q % h;
        let dy = q / h;
        p[pix(w, dy, h - 1 - dx, c)]
    })
}

/// The buffer produced by rotating a `w` x `h` RGBA buffer 180 degrees.
/// The result keeps the dimensions; its pixel at (`dx`, `dy`) comes from the
/// source pixel at (`w - 1 - dx`, `h - 1 - dy`).
pub open spec fn spec_rotate180(p: Seq<u8>, w: int, h: int) -> Seq<u8> {
    Seq::new((4 * w * h) as nat, |i: int| {
        let q = i / 4;
        let c = i % 4;
        let dx = q % w;
        let dy = q / w;
        p[pix(w, w - 1 - dx, h - 1 - dy, c)]
    })
}

/// The buffer produced by rotating a `w` x `h` RGBA buffer 270 degrees
/// clockwise. The result is `h` x `w`; its pixel at (`dx`, `dy`) comes from
/// the source pixel at (`w - 1 - dy`, `dx`).
pub open spec fn spec_rotate270(p: Seq<u8>, w: int, h: int) -> Seq<u8> {
    Seq::new((4 * w * h) as nat, |i: int| {
        let q = i / 4;
        let c = i % 4;
        let dx = q % h;
        let dy = q / h;
        p[pix(w, w - 1 - dy, dx, c)]
    })
}

/// The buffer produced by mirroring a `w` x `h` RGBA buffer left-to-right.
pub open spec fn spec_flip_h(p: Seq<u8>, w: int, h: int) -> Seq<u8> {
    Seq::new((4 * w * h) as nat, |i: int| {
        let q = i / 4;
        let c = i % 4;
        let dx = q % w;
        let dy = q / w;
        p[pix(w, w - 1 - dx, dy, c)]
    })
}

/// The buffer produced by mirroring a `w` x `h` RGBA buffer top-to-bottom.
pub open spec fn spec_flip_v(p: Seq<u8>, w: int, h: int) -> Seq<u8> {
    Seq::new((4 * w * h) as nat, |i: int| {
        let q = i / 4;
        let c = i % 4;
        let dx = q % w;
        let dy = q / w;
        p[pix(w, dx, h - 1 - dy, c)]
    })
}

/// Every byte index below `4 * w * h` decomposes uniquely into a pixel
/// coordinate and a channel.
pub proof fn lemma_index_decompose(w: int, h: int, i: int)
    requires
        w > 0,
        h > 0,
        0 <= i < 4 * w * h,
    ensures
        ({
            let q = i / 4;
            let c = i % 4;
            let x = q % w;
            let y = q / w;
            0 <= c < 4 && 0 <= x < w && 0 <= y < h && i == pix(w, x, y, c) && 0 <= q < w * h
        }),
{
    let q = i / 4;
    let c = i % 4;
    lemma_fundamental_div_mod(i, 4);
    lemma_mod_bound(i, 4);
    lemma_div_pos_is_pos(i, 4);
    assert(4 * w * h == (w * h) * 4) by (nonlinear_arith);
    lemma_multiply_divide_lt(i, 4, w * h);
    let x = q % w;
    let y = q / w;
    lemma_fundamental_div_mod(q, w);
    lemma_mod_bound(q, w);
    lemma_div_pos_is_pos(q, w);
    assert(q < w * h ==> q < h * w) by (nonlinear_arith);
    lemma_multiply_divide_lt(q, w, h);
    assert(i == 4 * (y * w + x) + c) by {
        assert(q == w * y + x);
        assert(i == 4 * q + c);
        assert(4 * (y * w + x) == 4 * q) by (nonlinear_arith)
            requires q == w * y + x;
    }
}

/// The byte index of an in-range pixel coordinate is in range, and its
/// decomposition returns the coordinate itself.
pub proof fn lemma_pix_decompose(w: int, h: int, x: int, y: int, c: int)
    requires
        w > 0,
        h > 0,
        0 <= x < w,
        0 <= y < h,
        0 <= c < 4,
    ensures
        0 <= pix(w, x, y, c) < 4 * w * h,
        pix(w, x, y, c) / 4 == y * w + x,
        pix(w, x, y, c) % 4 == c,
        (y * w + x) % w == x,
        (y * w + x) / w == y,
{
    let q = y * w + x;
    assert(0 <= q && q < w * h) by (nonlinear_arith)
        requires 0 <= x < w, 0 <= y < h, q == y * w + x;
    assert(4 * q + c < 4 * w * h) by (nonlinear_arith)
        requires q < w * h, 0 <= c < 4;
    lemma_fundamental_div_mod_converse(4 * q + c, 4, q, c);
    lemma_fundamental_div_mod_converse(q, w, y, x);
    assert(pix(w, x, y, c) == 4 * q + c);
}

/// Pointwise reading of [`spec_rotate90`]: the rotated buffer at destination
/// coordinate (`dx`, `dy`) holds the source pixel at (`dy`, `h - 1 - dx`).
pub proof fn lemma_rotate90_at(p: Seq<u8>, w: int, h: int, dx: int, dy: int, c: int)
    requires
        w > 0,
        h > 0,
        0 <= dx < h,
        0 <= dy < w,
        0 <= c < 4,
    ensures
        spec_rotate90(p, w, h)[pix(h, dx, dy, c)] == p[pix(w, dy, h - 1 - dx, c)],
{
    lemma_pix_decompose(h, w, dx, dy, c);
    assert(4 * h * w == 4 * w * h) by (nonlinear_arith);
}

/// Pointwise reading of [`spec_rotate180`].
pub proof fn lemma_rotate180_at(p: Seq<u8>, w: int, h: int, dx: int, dy: int, c: int)
    requires
        w > 0,
        h > 0,
        0 <= dx < w,
        0 <= dy < h,
        0 <= c < 4,
    ensures
        spec_rotate180(p, w, h)[pix(w, dx, dy, c)] == p[pix(w, w - 1 - dx, h - 1 - dy, c)],
{
    lemma_pix_decompose(w, h, dx, dy, c);
}

/// Pointwise reading of [`spec_rotate270`].
pub proof fn lemma_rotate270_at(p: Seq<u8>, w: int, h: int, dx: int, dy: int, c: int)
    requires
        w > 0,
        h > 0,
        0 <= dx < h,
        0 <= dy < w,
        0 <= c < 4,
    ensures
        spec_rotate270(p, w, h)[pix(h, dx, dy, c)] == p[pix(w, w - 1 - dy, dx, c)],
{
    lemma_pix_decompose(h, w, dx, dy, c);
    assert(4 * h * w == 4 * w * h) by (nonlinear_arith);
}

/// Pointwise reading of [`spec_flip_h`].
pub proof fn lemma_flip_h_at(p: Seq<u8>, w: int, h: int, dx: int, dy: int, c: int)
    requires
        w > 0,
        h > 0,
        0 <= dx < w,
        0 <= dy < h,
        0 <= c < 4,
    ensures
        spec_flip_h(p, w, h)[pix(w, dx, dy, c)] == p[pix(w, w - 1 - dx, dy, c)],
{
    lemma_pix_decompose(w, h, dx, dy, c);
}

/// Pointwise reading of [`spec_flip_v`].
pub proof fn lemma_flip_v_at(p: Seq<u8>, w: int, h: int, dx: int, dy: int, c: int)
    requires
        w > 0,
        h > 0,
        0 <= dx < w,
        0 <= dy < h,
        0 <= c < 4,
    ensures
        spec_flip_v(p, w, h)[pix(w, dx, dy, c)] == p[pix(w, dx, h - 1 - dy, c)],
{
    lemma_pix_decompose(w, h, dx, dy, c);
}

/// Mirroring the same axis twice returns the exact original bytes: the
/// round-trip law for horizontal flips.
pub proof fn lemma_flip_h_twice_identity(p: Seq<u8>, w: int, h: int)
    requires
        w > 0,
        h > 0,
        p.len() == 4 * w * h,
    ensures
        spec_flip_h(spec_flip_h(p, w, h), w, h) =~= p,
{
    let p1 = spec_flip_h(p, w, h);
    let p2 = spec_flip_h(p1, w, h);
    assert forall|i: int| 0 <= i < 4 * w * h implies p2[i] == p[i] by {
        lemma_index_decompose(w, h, i);
        let q = i / 4;
        let c = i % 4;
        let x = q % w;
        let y = q / w;
        lemma_flip_h_at(p1, w, h, x, y, c);
        lemma_flip_h_at(p, w, h, w - 1 - x, y, c);
    }
}

/// Mirroring the same axis twice returns the exact original bytes: the
/// round-trip law for vertical flips.
pub proof fn lemma_flip_v_twice_identity(p: Seq<u8>, w: int, h: int)
    requires
        w > 0,
        h > 0,
        p.len() == 4 * w * h,
    ensures
        spec_flip_v(spec_flip_v(p, w, h), w, h) =~= p,
{
    let p1 = spec_flip_v(p, w, h);
    let p2 = spec_flip_v(p1, w, h);
    assert forall|i: int| 0 <= i < 4 * w * h implies p2[i] == p[i] by {
        lemma_index_decompose(w, h, i);
        let q = i / 4;
        let c = i % 4;
        let x = q % w;
        let y = q / w;
        lemma_flip_v_at(p1, w, h, x, y, c);
        lemma_flip_v_at(p, w, h, x, h - 1 - y, c);
    }
}

/// Two half turns return the exact original bytes.
pub proof fn lemma_rotate180_twice_identity(p: Seq<u8>, w: int, h: int)
    requires
        w > 0,
        h > 0,
        p.len() == 4 * w * h,
    ensures
        spec_rotate180(spec_rotate180(p, w, h), w, h) =~= p,
{
    let p1 = spec_rotate180(p, w, h);
    let p2 = spec_rotate180(p1, w, h);
    assert forall|i: int| 0 <= i < 4 * w * h implies p2[i] == p[i] by {
        lemma_index_decompose(w, h, i);
        let q = i / 4;
        let c = i % 4;
        let x = q % w;
        let y = q / w;
        lemma_rotate180_at(p1, w, h, x, y, c);
        lemma_rotate180_at(p, w, h, w - 1 - x, h - 1 - y, c);
    }
}

/// A 270-degree turn equals three consecutive 90-degree turns: the two
/// rotation contracts agree with each other.
pub proof fn lemma_rotate270_is_three_quarter_turns(p: Seq<u8>, w: int, h: int)
    requires
        w > 0,
        h > 0,
        p.len() == 4 * w * h,
    ensures
        spec_rotate270(p, w, h) =~= spec_rotate90(
            spec_rotate90(spec_rotate90(p, w, h), h, w),
            w,
            h,
        ),
{
    let r1 = spec_rotate90(p, w, h);
    let r2 = spec_rotate90(r1, h, w);
    let r3 = spec_rotate90(r2, w, h);
    let l = spec_rotate270(p, w, h);
    assert(4 * h * w == 4 * w * h) by (nonlinear_arith);
    assert forall|i: int| 0 <= i < 4 * w * h implies l[i] == r3[i] by {
        lemma_index_decompose(h, w, i);
        let q = i / 4;
        let c = i % 4;
        let x = q % h;
        let y = q / h;
        lemma_rotate270_at(p, w, h, x, y, c);
        lemma_rotate90_at(r2, w, h, x, y, c);
        lemma_rotate90_at(r1, h, w, y, h - 1 - x, c);
        lemma_rotate90_at(p, w, h, h - 1 - x, w - 1 - y, c);
    }
}

/// Four clockwise quarter turns return the exact original bytes.
pub proof fn lemma_rotate90_four_times_identity(p: Seq<u8>, w: int, h: int)
    requires
        w > 0,
        h > 0,
        p.len() == 4 * w * h,
    ensures
        spec_rotate90(
            spec_rotate90(spec_rotate90(spec_rotate90(p, w, h), h, w), w, h),
            h,
            w,
        ) =~= p,
{
    let r1 = spec_rotate90(p, w, h);
    let r2 = spec_rotate90(r1, h, w);
    let r3 = spec_rotate90(r2, w, h);
    let r4 = spec_rotate90(r3, h, w);
    assert(4 * h * w == 4 * w * h) by (nonlinear_arith);
    assert forall|i: int| 0 <= i < 4 * w * h implies r4[i] == p[i] by {
        lemma_index_decompose(w, h, i);
        let q = i / 4;
        let c = i % 4;
        let x = q % w;
        let y = q / w;
        lemma_rotate90_at(r3, h, w, x, y, c);
        lemma_rotate90_at(r2, w, h, y, w - 1 - x, c);
        lemma_rotate90_at(r1, h, w, w - 1 - x, h - 1 - y, c);
        lemma_rotate90_at(p, w, h, h - 1 - y, x, c);
    }
}

/// A decoded pixel surface: a tightly packed row-major RGBA byte buffer
/// together with its pixel dimensions.
#[derive(Debug, Clone, PartialEq, Eq)]
pub struct Surface {
    /// Width in pixels.
    pub width: u32,
    /// Height in pixels.
    pub height: u32,
    /// RGBA bytes, four per pixel, row-major.
    pub pixels: Vec<u8>,
}

impl Surface {
    /// The buffer length matches the dimensions exactly.
    pub open spec fn wf(self) -> bool {
        self.pixels@.len() == 4 * (self.width as int) * (self.height as int)
    }

    /// Build a surface after checking that the buffer length matches the
    /// dimensions; returns `None` on a mismatch.
    pub fn new(width: u32, height: u32, pixels: Vec<u8>) -> (r: Option<Surface>)
        ensures
            (r matches Some(s) ==> s.wf() && s.width == width && s.height == height
                && s.pixels@ == pixels@),
            r is None <==> pixels@.len() != 4 * (width as int) * (height as int),
    {
        proof {
            assert((width as int) * (height as int) < 0x10000000000000000) by (nonlinear_arith)
                requires width <= 0xffffffffu32, height <= 0xffffffffu32;
        }
        let wh: u64 = (width as u64) * (height as u64);
        proof {
            assert(4 * (width as int) * (height as int) == 4 * (wh as int)) by (nonlinear_arith)
                requires wh == (width as int) * (height as int);
        }
        let expected: u128 = 4 * (wh as u128);
        if (pixels.len() as u128) == expected {
            Some(Surface { width, height, pixels })
        } else {
            None
        }
    }

    /// Rotate 90 degrees clockwise. Relies on `image::imageops::rotate90`.
    pub fn rotate90(&self) -> (r: Surface)
        requires
            self.wf(),
        ensures
            r.wf(),
            r.width == self.height,
            r.height == self.width,
            r.pixels@ == spec_rotate90(self.pixels@, self.width as int, self.height as int),
    {
        let out = rgba_rotate90(&self.pixels, self.width, self.height);
        proof {
            assert(4 * (self.height as int) * (self.width as int) == 4 * (self.width as int) * (
            self.height as int)) by (nonlinear_arith);
        }
        Surface { width: self.height, height: self.width, pixels: out }
    }

    /// Rotate 180 degrees. Relies on `image::imageops::rotate180`.
    pub fn rotate180(&self) -> (r: Surface)
        requires
            self.wf(),
        ensures
            r.wf(),
            r.width == self.width,
            r.height == self.height,
            r.pixels@ == spec_rotate180(self.pixels@, self.width as int, self.height as int),
    {
        let out = rgba_rotate180(&self.pixels, self.width, self.height);
        Surface { width: self.width, height: self.height, pixels: out }
    }

    /// Rotate 270 degrees clockwise. Relies on `image::imageops::rotate270`.
    pub fn rotate270(&self) -> (r: Surface)
        requires
            self.wf(),
        ensures
            r.wf(),
            r.width == self.height,
            r.height == self.width,
            r.pixels@ == spec_rotate270(self.pixels@, self.width as int, self.height as int),
    {
        let out = rgba_rotate270(&self.pixels, self.width, self.height);
        proof {
            assert(4 * (self.height as int) * (self.width as int) == 4 * (self.width as int) * (
            self.height as int)) by (nonlinear_arith);
        }
        Surface { width: self.height, height: self.width, pixels: out }
    }

    /// Mirror left-to-right. Relies on `image::imageops::flip_horizontal`.
    pub fn flip_horizontal(&self) -> (r: Surface)
        requires
            self.wf(),
        ensures
            r.wf(),
            r.width == self.width,
            r.height == self.height,
            r.pixels@ == spec_flip_h(self.pixels@, self.width as int, self.height as int),
    {
        let out = rgba_flip_horizontal(&self.pixels, self.width, self.height);
        Surface { width: self.width, height: self.height, pixels: out }
    }

    /// Mirror top-to-bottom. Relies on `image::imageops::flip_vertical`.
    pub fn flip_vertical(&self) -> (r: Surface)
        requires
            self.wf(),
        ensures
            r.wf(),
            r.width == self.width,
            r.height == self.height,
            r.pixels@ == spec_flip_v(self.pixels@, self.width as int, self.height as int),
    {
        let out = rgba_flip_vertical(&self.pixels, self.width, self.height);
        Surface { width: self.width, height: self.height, pixels: out }
    }
}

/// Relies on `image::imageops::rotate90`: the output is the `h` x `w` buffer
/// whose pixel at destination (`dx`, `dy`) is the source pixel at
/// (`dy`, `h - 1 - dx`), exactly as `rotate90_in` writes
/// `destination.put_pixel(h0 - y - 1, x, image.get_pixel(x, y))`.
#[verifier::external_body]
fn rgba_rotate90(pixels: &Vec<u8>, w: u32, h: u32) -> (r: Vec<u8>)
    requires
        pixels@.len() == 4 * (w as int) * (h as int),
    ensures
        r@ == spec_rotate90(pixels@, w as int, h as int),
        r@.len() == 4 * (h as int) * (w as int),
{
    let buf = image::RgbaImage::from_raw(w, h, pixels.clone()).unwrap();
    image::imageops::rotate90(&buf).into_raw()
}

/// Relies on `image::imageops::rotate180`: the output pixel at (`dx`, `dy`)
/// is the source pixel at (`w - 1 - dx`, `h - 1 - dy`).
#[verifier::external_body]
fn rgba_rotate180(pixels: &Vec<u8>, w: u32, h: u32) -> (r: Vec<u8>)
    requires
        pixels@.len() == 4 * (w as int) * (h as int),
    ensures
        r@ == spec_rotate180(pixels@, w as int, h as int),
        r@.len() == 4 * (w as int) * (h as int),
{
    let buf = image::RgbaImage::from_raw(w, h, pixels.clone()).unwrap();
    image::imageops::rotate180(&buf).into_raw()
}

/// Relies on `image::imageops::rotate270`: the output is the `h` x `w` buffer
/// whose pixel at (`dx`, `dy`) is the source pixel at (`w - 1 - dy`, `dx`).
#[verifier::external_body]
fn rgba_rotate270(pixels: &Vec<u8>, w: u32, h: u32) -> (r: Vec<u8>)
    requires
        pixels@.len() == 4 * (w as int) * (h as int),
    ensures
        r@ == spec_rotate270(pixels@, w as int, h as int),
        r@.len() == 4 * (h as int) * (w as int),
{
    let buf = image::RgbaImage::from_raw(w, h, pixels.clone()).unwrap();
    image::imageops::rotate270(&buf).into_raw()
}

/// Relies on `image::imageops::flip_horizontal`: the output pixel at
/// (`dx`, `dy`) is the source pixel at (`w - 1 - dx`, `dy`).
#[verifier::external_body]
fn rgba_flip_horizontal(pixels: &Vec<u8>, w: u32, h: u32) -> (r: Vec<u8>)
    requires
        pixels@.len() == 4 * (w as int) * (h as int),
    ensures
        r@ == spec_flip_h(pixels@, w as int, h as int),
        r@.len() == 4 * (w as int) * (h as int),
{
    let buf = image::RgbaImage::from_raw(w, h, pixels.clone()).unwrap();
    image::imageops::flip_horizontal(&buf).into_raw()
}

/// Relies on `image::imageops::flip_vertical`: the output pixel at
/// (`dx`, `dy`) is the source pixel at (`dx`, `h - 1 - dy`).
#[verifier::external_body]
fn rgba_flip_vertical(pixels: &Vec<u8>, w: u32, h: u32) -> (r: Vec<u8>)
    requires
        pixels@.len() == 4 * (w as int) * (h as int),
    ensures
        r@ == spec_flip_v(pixels@, w as int, h as int),
        r@.len() == 4 * (w as int) * (h as int),
{
    let buf = image::RgbaImage::from_raw(w, h, pixels.clone()).unwrap();
    image::imageops::flip_vertical(&buf).into_raw()
}

/// Width of a surface after the flips and rotation of a transform state
/// are applied: quarter turns at 90 and 270 degrees swap the axes.
pub open spec fn spec_orient_width(w: int, h: int, t: TransformState) -> int {
    if t.spec_swaps_axes() {
        h
    } else {
        w
    }
}

/// Height of a surface after the flips and rotation of a transform state
/// are applied.
pub open spec fn spec_orient_height(w: int, h: int, t: TransformState) -> int {
    if t.spec_swaps_axes() {
        w
    } else {
        h
    }
}

/// The pixels of a `w` x `h` buffer after a transform state is applied:
/// first the horizontal flip, then the vertical flip, then the rotation,
/// matching the order in which a freshly rasterized page or scene is
/// oriented.
pub open spec fn spec_orient(p: Seq<u8>, w: int, h: int, t: TransformState) -> Seq<u8> {
    let f1 = if t.flip_h {
        spec_flip_h(p, w, h)
    } else {
        p
    };
    let f2 = if t.flip_v {
        spec_flip_v(f1, w, h)
    } else {
        f1
    };
    match t.rotation {
        Rotation::Cw0 => f2,
        Rotation::Cw90 => spec_rotate90(f2, w, h),
        Rotation::Cw180 => spec_rotate180(f2, w, h),
        Rotation::Cw270 => spec_rotate270(f2, w, h),
    }
}

/// Copy a byte buffer.
pub fn clone_bytes(v: &Vec<u8>) -> (r: Vec<u8>)
    ensures
        r@ == v@,
{
    let r = v.clone();
    proof {
        assert(r@ =~= v@);
    }
    r
}

/// Apply the flips and the rotation of a transform state to a freshly
/// rasterized surface: flips first, then the quarter turn.
pub fn apply_orientation(s: &Surface, t: &TransformState) -> (r: Surface)
    requires
        s.wf(),
    ensures
        r.wf(),
        r.width as int == spec_orient_width(s.width as int, s.height as int, *t),
        r.height as int == spec_orient_height(s.width as int, s.height as int, *t),
        r.pixels@ == spec_orient(s.pixels@, s.width as int, s.height as int, *t),
{
    let step1 = if t.flip_h {
        s.flip_horizontal()
    } else {
        Surface { width: s.width, height: s.height, pixels: clone_bytes(&s.pixels) }
    };
    let step2 = if t.flip_v {
        step1.flip_vertical()
    } else {
        step1
    };
    match t.rotation {
        Rotation::Cw0 => step2,
        Rotation::Cw90 => step2.rotate90(),
        Rotation::Cw180 => step2.rotate180(),
        Rotation::Cw270 => step2.rotate270(),
    }
}

/// One byte of the unpremultiplied form of a premultiplied RGBA buffer:
/// alpha bytes pass through, colour bytes are rescaled by 255 over their
/// pixel's alpha (low byte of the quotient, as the machine cast takes
/// it), and a fully transparent pixel becomes all zeros.
pub open spec fn spec_unpremultiply_byte(p: Seq<u8>, i: int) -> u8 {
    let base = 4 * (i / 4);
    let a = p[base + 3];
    if a == 0 {
        0u8
    } else if i % 4 == 3 {
        a
    } else {
        (((p[i] as int) * 255 / (a as int)) % 256) as u8
    }
}

/// The unpremultiplied form of a premultiplied RGBA buffer.
pub open spec fn spec_unpremultiply(p: Seq<u8>) -> Seq<u8> {
    Seq::new(p.len(), |i: int| spec_unpremultiply_byte(p, i))
}

/// Convert a premultiplied-alpha RGBA buffer (as a rasterizer produces)
/// to straight alpha: colour = premultiplied colour * 255 / alpha, and a
/// fully transparent pixel becomes all zeros.
pub fn unpremultiply(pixels: &Vec<u8>) -> (r: Vec<u8>)
    requires
        pixels@.len() % 4 == 0,
    ensures
        r@ == spec_unpremultiply(pixels@),
{
    let mut out: Vec<u8> = Vec::new();
    let total = pixels.len();
    let n = total / 4;
    proof {
        lemma_fundamental_div_mod(pixels@.len() as int, 4);
        assert(pixels@.len() <= usize::MAX);
    }
    let mut p: usize = 0;
    while p < n
        invariant
            p <= n,
            n == pixels@.len() / 4,
            pixels@.len() == 4 * n,
            pixels@.len() <= usize::MAX,
            out@.len() == 4 * p,
            forall|j: int| 0 <= j < 4 * p ==> out@[j] == spec_unpremultiply_byte(pixels@, j),
        decreases n - p,
    {
        proof {
            assert(4 * (p as int) + 4 <= pixels@.len());
        }
        let i = 4 * p;
        let a = pixels[i + 3];
        if a == 0 {
            out.push(0);
            out.push(0);
            out.push(0);
            out.push(0);
        } else {
            let red = unpremultiply_channel(pixels[i], a);
            let green = unpremultiply_channel(pixels[i + 1], a);
            let blue = unpremultiply_channel(pixels[i + 2], a);
            out.push(red);
            out.push(green);
            out.push(blue);
            out.push(a);
        }
        proof {
            assert forall|j: int| i <= j < i + 4 implies out@[j] == spec_unpremultiply_byte(
                pixels@,
                j,
            ) by {
                lemma_fundamental_div_mod_converse(j, 4, p as int, j - i);
            }
        }
        p += 1;
    }
    proof {
        assert(out@ =~= spec_unpremultiply(pixels@));
    }
    out
}

/// One colour channel of [`unpremultiply`].
fn unpremultiply_channel(c: u8, a: u8) -> (r: u8)
    requires
        a > 0,
    ensures
        r as int == ((c as int) * 255 / (a as int)) % 256,
{
    let scaled: u16 = (c as u16) * 255 / (a as u16);
    let r = (scaled % 256) as u8;
    proof {
        lemma_mod_bound((c as int) * 255 / (a as int), 256);
    }
    r
}

} // verus!
