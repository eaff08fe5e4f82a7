//! Vector documents (SVG): a retained scene re-rasterized on demand.
//!
//! The scene graph itself lives with the rasterizer in the owning
//! application; this document tracks everything the core decides on: the
//! native size, the requested render scale, the transform state, and the
//! currently rendered surface with its display handle. A transform or a
//! scale change marks the document dirty instead of mutating pixels in
//! place; the owner then re-rasterizes the retained scene at the current
//! scale and hands the fresh surface to [`VectorDocument::apply_rendered`],
//! which applies flips and rotation and rebuilds the handle. Re-rendering
//! from the source on every transform avoids the cumulative resampling
//! loss that repeated pixel-level transforms would cause.

use vstd::prelude::*;
use vstd::string::StringExecFns;

use crate::document::{
    clone_handle, create_image_handle_from_image, DocumentError, DocumentInfo, ImageHandle,
    Renderable, RenderOutput, Transformable,
};
use crate::meta::{build_vector_meta, DocumentMeta};
use crate::surface::{apply_orientation, spec_orient, spec_orient_height, spec_orient_width, Surface};
use crate::transform::{FlipDirection, Rotation, TransformState};

verus! {

/// Minimum pixmap size for vector rasterization (prevents zero-size
/// pixmaps).
pub const MIN_PIXMAP_SIZE: u32 = 1;

/// The scale denominator: a scale of 1000 renders at native size.
pub const SCALE_UNIT: u32 = 1000;

/// The width or height a vector rasterization must have for a native
/// dimension and a scale in thousandths: the dimension scaled and rounded
/// up, never below one pixel, capped at the pixel type's maximum.
pub open spec fn spec_scaled_dim(native: int, scale_milli: int) -> int {
    let scaled = (native * scale_milli + 999) / 1000;
    if scaled < 1 {
        1
    } else if scaled > 0xffff_ffff {
        0xffff_ffff
    } else {
        scaled
    }
}

/// Compute the pixel size at which a vector scene must be rasterized for a
/// requested scale: each native dimension scaled (rounded up), clamped to
/// a minimum of one pixel to avoid degenerate rasterization.
pub fn render_target_dims(native_w: u32, native_h: u32, scale_milli: u32) -> (r: (u32, u32))
    ensures
        r.0 as int == spec_scaled_dim(native_w as int, scale_milli as int),
        r.1 as int == spec_scaled_dim(native_h as int, scale_milli as int),
        r.0 >= 1,
        r.1 >= 1,
{
    let w = scaled_dim(native_w, scale_milli);
    let h = scaled_dim(native_h, scale_milli);
    (w, h)
}

/// One dimension of [`render_target_dims`].
fn scaled_dim(native: u32, scale_milli: u32) -> (r: u32)
    ensures
        r as int == spec_scaled_dim(native as int, scale_milli as int),
        r >= 1,
{
    proof {
        assert((native as int) * (scale_milli as int) <= 0xffffffff * 0xffffffff)
            by (nonlinear_arith)
            requires native <= 0xffffffffu32, scale_milli <= 0xffffffffu32;
    }
    let scaled: u128 = ((native as u128) * (scale_milli as u128) + 999) / 1000;
    if scaled < 1 {
        1
    } else if scaled > 0xffff_ffff {
        0xffff_ffff
    } else {
        scaled as u32
    }
}

/// Represents a vector document such as SVG.
pub struct VectorDocument {
    /// Native width (from the scene's view box).
    native_width: u32,
    /// Native height (from the scene's view box).
    native_height: u32,
    /// Current render scale in thousandths (1000 = native size).
    current_scale_milli: u32,
    /// Accumulated transformations.
    transform: TransformState,
    /// Whether the owner must re-rasterize the retained scene.
    needs_rerender: bool,
    /// Rasterized image at the current scale and orientation.
    pub rendered: Surface,
    /// Image handle for display.
    pub handle: ImageHandle,
}

impl VectorDocument {
    /// The native dimensions, for contracts.
    pub closed spec fn native_spec(&self) -> (u32, u32) {
        (self.native_width, self.native_height)
    }

    /// The current render scale in thousandths, for contracts.
    pub closed spec fn scale_spec(&self) -> u32 {
        self.current_scale_milli
    }

    /// Whether a re-rasterization is pending, for contracts.
    pub closed spec fn dirty_spec(&self) -> bool {
        self.needs_rerender
    }

    /// The rendered surface, for contracts.
    pub closed spec fn rendered_spec(&self) -> Surface {
        self.rendered
    }

    /// The display handle, for contracts.
    pub closed spec fn handle_spec(&self) -> ImageHandle {
        self.handle
    }

    /// Internal invariant: the rendered surface is well formed and the
    /// handle shows exactly the rendered surface.
    pub open spec fn wf(&self) -> bool {
        self.rendered_spec().wf() && self.handle_spec().matches_surface(self.rendered_spec())
    }

    /// Build a vector document around a scene of the given native size
    /// whose first rasterization (at native scale, unoriented) is `base`.
    pub fn new(native_width: u32, native_height: u32, base: Surface) -> (r: VectorDocument)
        requires
            base.wf(),
        ensures
            r.wf(),
            r.native_spec() == (native_width, native_height),
            r.scale_spec() == SCALE_UNIT,
            r.transform_spec() == (TransformState {
                rotation: Rotation::Cw0,
                flip_h: false,
                flip_v: false,
            }),
            !r.dirty_spec(),
            r.rendered_spec() == base,
    {
        let handle = create_image_handle_from_image(&base);
        VectorDocument {
            native_width,
            native_height,
            current_scale_milli: SCALE_UNIT,
            transform: TransformState { rotation: Rotation::Cw0, flip_h: false, flip_v: false },
            needs_rerender: false,
            rendered: base,
            handle,
        }
    }

    /// The current display handle, cloned.
    #[must_use]
    pub fn display_handle(&self) -> (r: ImageHandle)
        ensures
            crate::document::same_handle(r, self.handle_spec()),
    {
        clone_handle(&self.handle)
    }

    /// Returns the dimensions of the rasterized representation.
    pub fn dimensions(&self) -> (d: (u32, u32))
        ensures
            d == (self.rendered_spec().width, self.rendered_spec().height),
    {
        (self.rendered.width, self.rendered.height)
    }

    /// Document information: the native dimensions and the format name.
    pub fn info(&self) -> (r: DocumentInfo)
        ensures
            r.width == self.native_spec().0,
            r.height == self.native_spec().1,
            r.format@ == "SVG"@,
    {
        DocumentInfo {
            width: self.native_width,
            height: self.native_height,
            format: String::from_str("SVG"),
        }
    }

    /// Extract metadata for this vector document; the native dimensions
    /// are reported.
    pub fn extract_meta(&self, path: &str, file_size: u64) -> (r: DocumentMeta)
        ensures
            r.basic.width == self.native_spec().0,
            r.basic.height == self.native_spec().1,
            r.basic.file_size == file_size,
            r.basic.file_path@ == path@,
            r.basic.file_name@ == (if crate::document::spec_file_name(path@).len() == 0 {
                "unknown"@
            } else {
                crate::document::spec_file_name(path@)
            }),
            r.basic.format@ == "SVG"@,
            r.basic.color_type@ == "Vector"@,
            r.exif is None,
    {
        build_vector_meta(path, self.native_width, self.native_height, file_size)
    }

    /// Request a re-rasterization at a new scale. Returns whether the
    /// scale changed; an unchanged scale is a no-op and schedules nothing.
    pub fn render_at_scale(&mut self, scale_milli: u32) -> (changed: bool)
        requires
            old(self).wf(),
        ensures
            final(self).wf(),
            changed == (scale_milli != old(self).scale_spec()),
            final(self).scale_spec() == scale_milli,
            final(self).dirty_spec() == (old(self).dirty_spec() || changed),
            final(self).transform_spec() == old(self).transform_spec(),
            final(self).rendered_spec() == old(self).rendered_spec(),
            final(self).native_spec() == old(self).native_spec(),
    {
        if scale_milli == self.current_scale_milli {
            false
        } else {
            self.current_scale_milli = scale_milli;
            self.needs_rerender = true;
            true
        }
    }

    /// Render for display at the requested scale: the scale is recorded
    /// (a change marks the retained scene for re-rasterization by the
    /// owner) and the current handle is returned. Always succeeds.
    pub fn render(&mut self, scale_milli: u32) -> (r: Result<RenderOutput, DocumentError>)
        requires
            old(self).wf(),
        ensures
            final(self).wf(),
            final(self).scale_spec() == scale_milli,
            final(self).dirty_spec() == (old(self).dirty_spec() || scale_milli != old(
            self).scale_spec()),
            final(self).transform_spec() == old(self).transform_spec(),
            final(self).rendered_spec() == old(self).rendered_spec(),
            final(self).native_spec() == old(self).native_spec(),
            r is Ok,
            (r matches Ok(out) ==> crate::document::same_handle(out.handle, old(self).handle_spec())
                && out.width == old(self).rendered_spec().width && out.height == old(
            self).rendered_spec().height),
    {
        self.render_at_scale(scale_milli);
        let (width, height) = self.dimensions();
        Ok(RenderOutput { handle: self.display_handle(), width, height })
    }

    /// Set the absolute rotation and mark the scene for re-rasterization;
    /// the surface is not touched until the owner re-renders.
    pub fn rotate_to(&mut self, rotation: Rotation)
        requires
            old(self).wf(),
        ensures
            final(self).wf(),
            final(self).transform_spec() == (TransformState {
                rotation,
                ..old(self).transform_spec()
            }),
            final(self).dirty_spec(),
            final(self).rendered_spec() == old(self).rendered_spec(),
            final(self).scale_spec() == old(self).scale_spec(),
            final(self).native_spec() == old(self).native_spec(),
    {
        self.transform.rotation = rotation;
        self.needs_rerender = true;
    }

    /// Toggle a flip axis and mark the scene for re-rasterization.
    pub fn flip_axis(&mut self, direction: FlipDirection)
        requires
            old(self).wf(),
        ensures
            final(self).wf(),
            final(self).transform_spec() == old(self).transform_spec().spec_flipped(direction),
            final(self).dirty_spec(),
            final(self).rendered_spec() == old(self).rendered_spec(),
            final(self).scale_spec() == old(self).scale_spec(),
            final(self).native_spec() == old(self).native_spec(),
    {
        match direction {
            FlipDirection::Horizontal => {
                self.transform.flip_h = !self.transform.flip_h;
            },
            FlipDirection::Vertical => {
                self.transform.flip_v = !self.transform.flip_v;
            },
        }
        self.needs_rerender = true;
    }

    /// Install a fresh rasterization of the retained scene: the flips are
    /// applied first, then the rotation, and the handle is rebuilt from
    /// the oriented result, so no stale handle is ever returned.
    pub fn apply_rendered(&mut self, base: Surface)
        requires
            old(self).wf(),
            base.wf(),
        ensures
            final(self).wf(),
            final(self).rendered_spec().pixels@ == spec_orient(
                base.pixels@,
                base.width as int,
                base.height as int,
                old(self).transform_spec(),
            ),
            final(self).rendered_spec().width as int == spec_orient_width(
                base.width as int,
                base.height as int,
                old(self).transform_spec(),
            ),
            final(self).rendered_spec().height as int == spec_orient_height(
                base.width as int,
                base.height as int,
                old(self).transform_spec(),
            ),
            !final(self).dirty_spec(),
            final(self).transform_spec() == old(self).transform_spec(),
            final(self).scale_spec() == old(self).scale_spec(),
            final(self).native_spec() == old(self).native_spec(),
    {
        let oriented = apply_orientation(&base, &self.transform);
        self.handle = create_image_handle_from_image(&oriented);
        self.rendered = oriented;
        self.needs_rerender = false;
    }
}

impl Renderable for VectorDocument {
    open spec fn render_inv(&self) -> bool {
        self.wf()
    }

    fn render(&mut self, scale_milli: u32) -> (r: Result<RenderOutput, DocumentError>) {
        VectorDocument::render(self, scale_milli)
    }

    fn info(&self) -> DocumentInfo {
        VectorDocument::info(self)
    }
}

impl Transformable for VectorDocument {
    open spec fn inv(&self) -> bool {
        self.wf()
    }

    closed spec fn transform_spec(&self) -> TransformState {
        self.transform
    }

    fn rotate(&mut self, rotation: Rotation) {
        self.rotate_to(rotation);
    }

    fn flip(&mut self, direction: FlipDirection) {
        self.flip_axis(direction);
    }

    fn transform_state(&self) -> (t: TransformState) {
        self.transform
    }
}

} // verus!
