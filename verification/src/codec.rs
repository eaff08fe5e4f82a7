//! Decoding source bytes into surfaces and encoding surfaces for the
//! thumbnail cache.
//!
//! Both directions go through the `image` crate. What a decoder returns for
//! arbitrary bytes cannot be written down here, so it is given a name:
//! [`spec_image_decode`] stands for the RGBA surface that `image` produces
//! from a byte buffer, and [`spec_png_encode`] for the PNG bytes it writes
//! for a surface. The one fact tying them together — decoding a PNG that was
//! just encoded returns the exact pixels, because PNG is a lossless format —
//! is stated on the encoder and is what makes the cache round-trip law
//! provable.

use vstd::prelude::*;

use crate::surface::Surface;

verus! {

/// The RGBA image that the `image` crate decodes from the given bytes:
/// `None` when the bytes are not a decodable image, otherwise the width,
/// height and tightly packed RGBA bytes. A function of the input alone.
pub uninterp spec fn spec_image_decode(bytes: Seq<u8>) -> Option<(u32, u32, Seq<u8>)>;

/// The PNG encoding that the `image` crate writes for a tightly packed RGBA
/// buffer of the given dimensions. A function of the inputs alone.
pub uninterp spec fn spec_png_encode(width: u32, height: u32, pixels: Seq<u8>) -> Seq<u8>;

/// Relies on `image::load_from_memory` followed by
/// `DynamicImage::to_rgba8`: decoding either fails or yields an RGBA buffer
/// whose length matches its dimensions, and the result is a function of the
/// input bytes alone.
#[verifier::external_body]
pub fn decode_image(bytes: &Vec<u8>) -> (r: Option<Surface>)
    ensures
        (r matches Some(s) ==> s.wf() && spec_image_decode(bytes@) == Some(
            (s.width, s.height, s.pixels@),
        )),
        r is None <==> spec_image_decode(bytes@) is None,
{
    match image::load_from_memory(bytes) {
        Ok(img) => {
            let rgba = img.to_rgba8();
            let (width, height) = rgba.dimensions();
            Some(Surface { width, height, pixels: rgba.into_raw() })
        },
        Err(_) => None,
    }
}

/// Relies on `DynamicImage::write_to` with `ImageFormat::Png`: encoding a
/// non-degenerate RGBA8 image to an in-memory buffer succeeds, its output is
/// a function of the pixels and dimensions alone, and — PNG being a lossless
/// format for 8-bit RGBA — decoding the output returns the exact same
/// surface. The round trip holds only for images whose RGBA buffer fits the
/// decoder's default allocation limit of 512 MiB; larger buffers are
/// excluded here, since decoding them deterministically fails.
#[verifier::external_body]
pub fn encode_png(s: &Surface) -> (r: Vec<u8>)
    requires
        s.wf(),
        s.width > 0,
        s.height > 0,
        4 * (s.width as int) * (s.height as int) <= 0x20000000,
    ensures
        r@ == spec_png_encode(s.width, s.height, s.pixels@),
        spec_image_decode(r@) == Some((s.width, s.height, s.pixels@)),
{
    let buf = image::RgbaImage::from_raw(s.width, s.height, s.pixels.clone()).unwrap();
    let mut out = std::io::Cursor::new(Vec::new());
    image::DynamicImage::ImageRgba8(buf)
        .write_to(&mut out, image::ImageFormat::Png)
        .unwrap();
    out.into_inner()
}

} // verus!
