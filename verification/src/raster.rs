//! Raster image documents (PNG, JPEG, WebP, ...).
//!
//! A raster document owns its decoded surface and mutates it in place:
//! rotations apply the minimal quarter turn between the tracked and the
//! requested rotation, flips mirror the current pixels. Both are physical
//! pixel transforms, so two flips on one axis restore the original pixels
//! at the cost of two operations, and a rotation request equal to the
//! tracked rotation never touches the surface.

use vstd::prelude::*;

use crate::codec::{decode_image, spec_image_decode};
use crate::document::{
    clone_handle, Renderable, RenderOutput,
    create_image_handle_from_image, DocumentError, DocumentInfo, ImageHandle, Transformable,
};
use crate::meta::{build_raster_meta, DocumentMeta};
use crate::surface::{
    spec_flip_h, spec_flip_v, spec_rotate180, spec_rotate270, spec_rotate90, Surface,
};
use crate::transform::{
    rotation_diff_degrees, spec_turns_between, FlipDirection, Rotation, TransformState,
};
use vstd::string::StringExecFns;

verus! {

/// Represents a raster image document.
pub struct RasterDocument {
    /// The decoded, transform-mutated surface.
    document: Surface,
    /// Native width (original, before transforms).
    native_width: u32,
    /// Native height (original, before transforms).
    native_height: u32,
    /// Current transformation state.
    transform: TransformState,
    /// Cached handle for rendering.
    pub handle: ImageHandle,
}

impl RasterDocument {
    /// The current surface, for contracts.
    pub closed spec fn surface_spec(&self) -> Surface {
        self.document
    }

    /// The native (pre-transform) dimensions, for contracts.
    pub closed spec fn native_spec(&self) -> (u32, u32) {
        (self.native_width, self.native_height)
    }

    /// The display handle, for contracts.
    pub closed spec fn handle_spec(&self) -> ImageHandle {
        self.handle
    }

    /// Internal invariant: the surface is well formed and the handle shows
    /// exactly the surface.
    pub open spec fn wf(&self) -> bool {
        self.surface_spec().wf() && self.handle_spec().matches_surface(self.surface_spec())
    }

    /// Decode a raster document from its source bytes. Fails exactly when
    /// the bytes are not a decodable image; on success the surface holds
    /// the decoded pixels, the native dimensions are the decoded ones, and
    /// no transform is applied yet.
    pub fn open(bytes: &Vec<u8>) -> (r: Result<RasterDocument, DocumentError>)
        ensures
            r is Ok <==> spec_image_decode(bytes@) is Some,
            (r matches Ok(d) ==> d.wf() && spec_image_decode(bytes@) == Some(
                (d.surface_spec().width, d.surface_spec().height, d.surface_spec().pixels@),
            ) && d.native_spec() == (d.surface_spec().width, d.surface_spec().height)
                && d.transform_spec() == (TransformState {
                rotation: Rotation::Cw0,
                flip_h: false,
                flip_v: false,
            })),
            (r matches Err(e) ==> e is DecodeFailed),
    {
        match decode_image(bytes) {
            Some(document) => {
                let handle = create_image_handle_from_image(&document);
                let (native_width, native_height) = (document.width, document.height);
                Ok(
                    RasterDocument {
                        document,
                        native_width,
                        native_height,
                        transform: TransformState {
                            rotation: Rotation::Cw0,
                            flip_h: false,
                            flip_v: false,
                        },
                        handle,
                    },
                )
            },
            None => Err(DocumentError::DecodeFailed),
        }
    }

    /// Rebuild the handle after mutating `document`.
    fn refresh_handle(&mut self)
        requires
            old(self).surface_spec().wf(),
        ensures
            final(self).handle_spec().matches_surface(final(self).surface_spec()),
            final(self).surface_spec() == old(self).surface_spec(),
            final(self).native_spec() == old(self).native_spec(),
            final(self).transform_spec() == old(self).transform_spec(),
            final(self).wf(),
    {
        self.handle = create_image_handle_from_image(&self.document);
    }

    /// The current display handle, cloned.
    #[must_use]
    pub fn display_handle(&self) -> (r: ImageHandle)
        ensures
            crate::document::same_handle(r, self.handle_spec()),
    {
        clone_handle(&self.handle)
    }

    /// Returns the current pixel dimensions (width, height) after
    /// transforms.
    pub fn dimensions(&self) -> (d: (u32, u32))
        ensures
            d == (self.surface_spec().width, self.surface_spec().height),
    {
        (self.document.width, self.document.height)
    }

    /// Document information: the native dimensions and the format family.
    pub fn info(&self) -> (r: DocumentInfo)
        ensures
            r.width == self.native_spec().0,
            r.height == self.native_spec().1,
            r.format@ == "Raster"@,
    {
        DocumentInfo {
            width: self.native_width,
            height: self.native_height,
            format: String::from_str("Raster"),
        }
    }

    /// Extract metadata for this raster document from its path and raw
    /// source bytes; the native dimensions are reported.
    pub fn extract_meta(&self, path: &str, data: &Vec<u8>, file_size: u64) -> (r: DocumentMeta)
        ensures
            r.basic.width == self.native_spec().0,
            r.basic.height == self.native_spec().1,
            r.basic.file_size == file_size,
            r.basic.file_path@ == path@,
            r.basic.file_name@ == (if crate::document::spec_file_name(path@).len() == 0 {
                "unknown"@
            } else {
                crate::document::spec_file_name(path@)
            }),
            r.basic.format@ == crate::meta::spec_format_from_extension(path@),
            r.basic.color_type@ == crate::meta::spec_color_type_display(
                crate::meta::spec_image_color_code(data@),
            ),
            r.exif is Some <==> crate::meta::spec_exif_parses(data@),
    {
        build_raster_meta(path, data, self.native_width, self.native_height, file_size)
    }

    /// Render for display: raster surfaces are never re-rendered per
    /// scale (upscaling is left to presentation), so the current handle
    /// is returned unchanged and nothing is mutated. Always succeeds.
    pub fn render(&mut self, _scale_milli: u32) -> (r: Result<RenderOutput, DocumentError>)
        requires
            old(self).wf(),
        ensures
            *final(self) == *old(self),
            r is Ok,
            (r matches Ok(out) ==> crate::document::same_handle(out.handle, old(self).handle_spec())
                && out.width == old(self).surface_spec().width && out.height == old(
            self).surface_spec().height),
    {
        let (width, height) = self.dimensions();
        Ok(RenderOutput { handle: self.display_handle(), width, height })
    }

    /// Rotate to the requested absolute rotation by physically applying
    /// the minimal quarter turn between the tracked and the requested
    /// rotation; a zero difference never re-renders. The handle is rebuilt
    /// from the mutated surface.
    pub fn rotate_to(&mut self, rotation: Rotation)
        requires
            old(self).wf(),
        ensures
            final(self).wf(),
            final(self).transform_spec() == (TransformState {
                rotation,
                ..old(self).transform_spec()
            }),
            final(self).native_spec() == old(self).native_spec(),
            ({
                let t = spec_turns_between(old(self).transform_spec().rotation, rotation);
                let p = old(self).surface_spec().pixels@;
                let w = old(self).surface_spec().width as int;
                let h = old(self).surface_spec().height as int;
                let s = final(self).surface_spec();
                &&& (t == 0 ==> s == old(self).surface_spec())
                &&& (t == 1 ==> s.pixels@ == spec_rotate90(p, w, h) && s.width as int == h
                    && s.height as int == w)
                &&& (t == 2 ==> s.pixels@ == spec_rotate180(p, w, h) && s.width as int == w
                    && s.height as int == h)
                &&& (t == 3 ==> s.pixels@ == spec_rotate270(p, w, h) && s.width as int == h
                    && s.height as int == w)
            }),
    {
        let diff = rotation_diff_degrees(self.transform.rotation, rotation);
        if diff == 90 {
            let rotated = self.document.rotate90();
            self.document = rotated;
        } else if diff == 180 {
            let rotated = self.document.rotate180();
            self.document = rotated;
        } else if diff == 270 {
            let rotated = self.document.rotate270();
            self.document = rotated;
        }
        self.transform.rotation = rotation;
        self.refresh_handle();
    }

    /// Mirror the current pixels along the given axis and toggle the
    /// matching flip flag. The handle is rebuilt from the mutated surface.
    pub fn flip_axis(&mut self, direction: FlipDirection)
        requires
            old(self).wf(),
        ensures
            final(self).wf(),
            final(self).transform_spec() == old(self).transform_spec().spec_flipped(direction),
            final(self).native_spec() == old(self).native_spec(),
            final(self).surface_spec().width == old(self).surface_spec().width,
            final(self).surface_spec().height == old(self).surface_spec().height,
            ({
                let p = old(self).surface_spec().pixels@;
                let w = old(self).surface_spec().width as int;
                let h = old(self).surface_spec().height as int;
                match direction {
                    FlipDirection::Horizontal => final(self).surface_spec().pixels@ == spec_flip_h(
                        p,
                        w,
                        h,
                    ),
                    FlipDirection::Vertical => final(self).surface_spec().pixels@ == spec_flip_v(
                        p,
                        w,
                        h,
                    ),
                }
            }),
    {
        match direction {
            FlipDirection::Horizontal => {
                let flipped = self.document.flip_horizontal();
                self.document = flipped;
                self.transform.flip_h = !self.transform.flip_h;
            },
            FlipDirection::Vertical => {
                let flipped = self.document.flip_vertical();
                self.document = flipped;
                self.transform.flip_v = !self.transform.flip_v;
            },
        }
        self.refresh_handle();
    }
}

impl Renderable for RasterDocument {
    open spec fn render_inv(&self) -> bool {
        self.wf()
    }

    fn render(&mut self, scale_milli: u32) -> (r: Result<RenderOutput, DocumentError>) {
        RasterDocument::render(self, scale_milli)
    }

    fn info(&self) -> DocumentInfo {
        RasterDocument::info(self)
    }
}

impl Transformable for RasterDocument {
    open spec fn inv(&self) -> bool {
        self.wf()
    }

    closed spec fn transform_spec(&self) -> TransformState {
        self.transform
    }

    fn rotate(&mut self, rotation: Rotation) {
        self.rotate_to(rotation);
    }

    fn flip(&mut self, direction: FlipDirection) {
        self.flip_axis(direction);
    }

    fn transform_state(&self) -> (t: TransformState) {
        self.transform
    }
}

} // verus!
