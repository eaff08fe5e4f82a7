//! Type-erased document content: one of the three backends behind a flat
//! dispatch.
//!
//! The application holds one document at a time; every operation
//! dispatches on the variant. Transform requests keep the variant and the
//! tracked transform state honest for all three backends; pagination and
//! thumbnail operations act on the portable variant and degrade to
//! benign defaults on the others, mirroring the type-erased pagination
//! capability.

use vstd::prelude::*;
use vstd::pervasive::arbitrary;

use crate::cache::ThumbnailCache;
use crate::document::{
    clone_handle, same_handle, DocumentError, DocumentInfo, DocumentKind, ImageHandle, MultiPage,
    Renderable, RenderOutput, Transformable,
};
use crate::document::spec_file_name;
use crate::meta::{
    spec_color_type_display, spec_exif_parses, spec_format_from_extension, spec_image_color_code,
    DocumentMeta,
};
use crate::portable::PortableDocument;
use crate::raster::RasterDocument;
use crate::surface::Surface;
use crate::transform::{FlipDirection, Rotation, TransformState};
use crate::vector::VectorDocument;

verus! {

/// Type-erased document content.
pub enum DocumentContent {
    Raster(RasterDocument),
    Vector(VectorDocument),
    Portable(PortableDocument),
}

impl DocumentContent {
    /// The variant's kind.
    pub open spec fn kind_spec(&self) -> DocumentKind {
        match *self {
            DocumentContent::Raster(_) => DocumentKind::Raster,
            DocumentContent::Vector(_) => DocumentKind::Vector,
            DocumentContent::Portable(_) => DocumentKind::Portable,
        }
    }

    /// The backend's invariant.
    pub open spec fn wf(&self) -> bool {
        match *self {
            DocumentContent::Raster(ref d) => d.wf(),
            DocumentContent::Vector(ref d) => d.wf(),
            DocumentContent::Portable(ref d) => d.wf(),
        }
    }

    /// The tracked transform state.
    pub open spec fn transform_spec(&self) -> TransformState {
        match *self {
            DocumentContent::Raster(ref d) => d.transform_spec(),
            DocumentContent::Vector(ref d) => d.transform_spec(),
            DocumentContent::Portable(ref d) => d.transform_spec(),
        }
    }

    /// The surface currently shown: the mutated surface of a raster
    /// document, the rendered surface of the others.
    pub open spec fn surface_of(&self) -> Surface {
        match *self {
            DocumentContent::Raster(ref d) => d.surface_spec(),
            DocumentContent::Vector(ref d) => d.rendered_spec(),
            DocumentContent::Portable(ref d) => d.rendered_spec(),
        }
    }

    /// The display handle.
    pub open spec fn handle_spec(&self) -> ImageHandle {
        match *self {
            DocumentContent::Raster(ref d) => d.handle_spec(),
            DocumentContent::Vector(ref d) => d.handle_spec(),
            DocumentContent::Portable(ref d) => d.handle_spec(),
        }
    }

    /// The page count, when the variant paginates.
    pub open spec fn page_count_opt(&self) -> Option<int> {
        match *self {
            DocumentContent::Portable(ref d) => Some(d.page_count_spec()),
            _ => None,
        }
    }

    /// The current page, when the variant paginates.
    pub open spec fn current_page_opt(&self) -> Option<int> {
        match *self {
            DocumentContent::Portable(ref d) => Some(d.current_page_spec()),
            _ => None,
        }
    }

    /// The number of generated thumbnails; zero for variants without
    /// pages.
    pub open spec fn loaded_spec(&self) -> int {
        match *self {
            DocumentContent::Portable(ref d) => d.loaded_spec(),
            _ => 0,
        }
    }

    /// The generated thumbnail at an index of the portable variant.
    pub open spec fn thumb_spec(&self, i: int) -> ImageHandle {
        match *self {
            DocumentContent::Portable(ref d) => d.thumb_spec(i),
            _ => arbitrary(),
        }
    }

    /// Get document kind.
    #[must_use]
    pub fn kind(&self) -> (r: DocumentKind)
        ensures
            r == self.kind_spec(),
    {
        match *self {
            DocumentContent::Raster(_) => DocumentKind::Raster,
            DocumentContent::Vector(_) => DocumentKind::Vector,
            DocumentContent::Portable(_) => DocumentKind::Portable,
        }
    }

    /// Apply an absolute rotation: every backend tracks the new rotation
    /// and keeps its flips; the raster backend physically turns its
    /// pixels by the minimal quarter turn, the other two mark themselves
    /// for re-rasterization.
    pub fn rotate(&mut self, rotation: Rotation)
        requires
            old(self).wf(),
        ensures
            final(self).wf(),
            final(self).kind_spec() == old(self).kind_spec(),
            final(self).transform_spec() == (TransformState {
                rotation,
                ..old(self).transform_spec()
            }),
            (old(self).kind_spec() != DocumentKind::Raster ==> final(self).surface_of() == old(self).surface_of()),
            ({
                let t = crate::transform::spec_turns_between(
                    old(self).transform_spec().rotation,
                    rotation,
                );
                let p = old(self).surface_of().pixels@;
                let w = old(self).surface_of().width as int;
                let h = old(self).surface_of().height as int;
                let s = final(self).surface_of();
                old(self).kind_spec() == DocumentKind::Raster ==> {
                    &&& (t == 0 ==> s == old(self).surface_of())
                    &&& (t == 1 ==> s.pixels@ == crate::surface::spec_rotate90(p, w, h))
                    &&& (t == 2 ==> s.pixels@ == crate::surface::spec_rotate180(p, w, h))
                    &&& (t == 3 ==> s.pixels@ == crate::surface::spec_rotate270(p, w, h))
                }
            }),
            final(self).page_count_opt() == old(self).page_count_opt(),
            final(self).current_page_opt() == old(self).current_page_opt(),
            final(self).loaded_spec() == old(self).loaded_spec(),
    {
        match self {
            DocumentContent::Raster(d) => d.rotate_to(rotation),
            DocumentContent::Vector(d) => d.rotate_to(rotation),
            DocumentContent::Portable(d) => d.rotate_to(rotation),
        }
    }

    /// Toggle a flip axis: every backend toggles exactly that axis; the
    /// raster backend physically mirrors its pixels, the other two mark
    /// themselves for re-rasterization.
    pub fn flip(&mut self, direction: FlipDirection)
        requires
            old(self).wf(),
        ensures
            final(self).wf(),
            final(self).kind_spec() == old(self).kind_spec(),
            final(self).transform_spec() == old(self).transform_spec().spec_flipped(direction),
            (old(self).kind_spec() != DocumentKind::Raster ==> final(self).surface_of() == old(self).surface_of()),
            ({
                let p = old(self).surface_of().pixels@;
                let w = old(self).surface_of().width as int;
                let h = old(self).surface_of().height as int;
                old(self).kind_spec() == DocumentKind::Raster ==> final(self).surface_of().pixels@
                    == (match direction {
                    FlipDirection::Horizontal => crate::surface::spec_flip_h(p, w, h),
                    FlipDirection::Vertical => crate::surface::spec_flip_v(p, w, h),
                })
            }),
            final(self).page_count_opt() == old(self).page_count_opt(),
            final(self).current_page_opt() == old(self).current_page_opt(),
            final(self).loaded_spec() == old(self).loaded_spec(),
    {
        match self {
            DocumentContent::Raster(d) => d.flip_axis(direction),
            DocumentContent::Vector(d) => d.flip_axis(direction),
            DocumentContent::Portable(d) => d.flip_axis(direction),
        }
    }

    /// Get the current transformation state.
    pub fn transform_state(&self) -> (t: TransformState)
        ensures
            t == self.transform_spec(),
    {
        match self {
            DocumentContent::Raster(d) => d.transform_state(),
            DocumentContent::Vector(d) => d.transform_state(),
            DocumentContent::Portable(d) => d.transform_state(),
        }
    }

    /// Rotate document 90 degrees clockwise: the tracked rotation
    /// advances one quarter turn and the flips are untouched.
    pub fn rotate_cw(&mut self)
        requires
            old(self).wf(),
        ensures
            final(self).wf(),
            final(self).kind_spec() == old(self).kind_spec(),
            final(self).transform_spec() == (TransformState {
                rotation: old(self).transform_spec().rotation.spec_rotate_cw(),
                ..old(self).transform_spec()
            }),
            final(self).page_count_opt() == old(self).page_count_opt(),
            final(self).current_page_opt() == old(self).current_page_opt(),
            final(self).loaded_spec() == old(self).loaded_spec(),
    {
        let new_rotation = self.transform_state().rotation.rotate_cw();
        self.rotate(new_rotation);
    }

    /// Rotate document 90 degrees counter-clockwise.
    pub fn rotate_ccw(&mut self)
        requires
            old(self).wf(),
        ensures
            final(self).wf(),
            final(self).kind_spec() == old(self).kind_spec(),
            final(self).transform_spec() == (TransformState {
                rotation: old(self).transform_spec().rotation.spec_rotate_ccw(),
                ..old(self).transform_spec()
            }),
            final(self).page_count_opt() == old(self).page_count_opt(),
            final(self).current_page_opt() == old(self).current_page_opt(),
            final(self).loaded_spec() == old(self).loaded_spec(),
    {
        let new_rotation = self.transform_state().rotation.rotate_ccw();
        self.rotate(new_rotation);
    }

    /// Flip document horizontally.
    pub fn flip_horizontal(&mut self)
        requires
            old(self).wf(),
        ensures
            final(self).wf(),
            final(self).kind_spec() == old(self).kind_spec(),
            final(self).transform_spec() == old(self).transform_spec().spec_flipped(
                FlipDirection::Horizontal,
            ),
    {
        self.flip(FlipDirection::Horizontal);
    }

    /// Flip document vertically.
    pub fn flip_vertical(&mut self)
        requires
            old(self).wf(),
        ensures
            final(self).wf(),
            final(self).kind_spec() == old(self).kind_spec(),
            final(self).transform_spec() == old(self).transform_spec().spec_flipped(
                FlipDirection::Vertical,
            ),
    {
        self.flip(FlipDirection::Vertical);
    }

    /// Check if this document supports multiple pages: a paginated
    /// variant with more than one page.
    #[must_use]
    pub fn is_multi_page(&self) -> (r: bool)
        ensures
            r == (self.page_count_opt() matches Some(n) && n > 1),
    {
        match self.page_count() {
            Some(n) => n > 1,
            None => false,
        }
    }

    /// Get page count if applicable.
    #[must_use]
    pub fn page_count(&self) -> (r: Option<usize>)
        ensures
            (r matches Some(n) ==> self.page_count_opt() == Some(n as int)),
            r is None <==> self.page_count_opt() is None,
    {
        match self {
            DocumentContent::Portable(d) => Some(d.page_count()),
            _ => None,
        }
    }

    /// Get current page index if applicable.
    #[must_use]
    pub fn current_page(&self) -> (r: Option<usize>)
        ensures
            (r matches Some(n) ==> self.current_page_opt() == Some(n as int)),
            r is None <==> self.current_page_opt() is None,
    {
        match self {
            DocumentContent::Portable(d) => Some(d.current_page()),
            _ => None,
        }
    }

    /// Navigate to a specific page: succeeds exactly on a paginated
    /// variant with the index below the page count; out-of-range requests
    /// and variants without pages leave everything unchanged.
    pub fn go_to_page(&mut self, page: usize) -> (r: Result<(), DocumentError>)
        requires
            old(self).wf(),
        ensures
            final(self).wf(),
            final(self).kind_spec() == old(self).kind_spec(),
            final(self).page_count_opt() == old(self).page_count_opt(),
            final(self).transform_spec() == old(self).transform_spec(),
            final(self).loaded_spec() == old(self).loaded_spec(),
            r is Ok <==> (old(self).page_count_opt() matches Some(n) && (page as int) < n),
            r is Ok ==> final(self).current_page_opt() == Some(page as int),
            (r matches Err(e) ==> e is PageOutOfRange && final(self).current_page_opt() == old(self).current_page_opt() && final(self).surface_of() == old(self).surface_of()),
    {
        match self {
            DocumentContent::Portable(d) => d.set_page(page),
            _ => Err(DocumentError::PageOutOfRange),
        }
    }

    /// Get the generated thumbnail for a page, if it exists yet.
    #[must_use]
    pub fn get_thumbnail(&self, page: usize) -> (r: Option<ImageHandle>)
        ensures
            r is Some <==> (page as int) < self.loaded_spec(),
            (r matches Some(h) ==> same_handle(h, self.thumb_spec(page as int))),
    {
        match self {
            DocumentContent::Portable(d) => d.get_thumbnail(page),
            _ => None,
        }
    }

    /// Check if thumbnails are ready: every page of a paginated variant
    /// has one; never true for the other variants.
    #[must_use]
    pub fn thumbnails_ready(&self) -> (r: bool)
        requires
            self.wf(),
        ensures
            r == (self.page_count_opt() matches Some(n) && self.loaded_spec() == n),
    {
        match self {
            DocumentContent::Portable(d) => d.thumbnails_ready(),
            _ => false,
        }
    }

    /// Get count of loaded thumbnails.
    #[must_use]
    pub fn thumbnails_loaded(&self) -> (r: usize)
        ensures
            r as int == self.loaded_spec(),
    {
        match self {
            DocumentContent::Portable(d) => d.thumbnails_loaded(),
            _ => 0,
        }
    }

    /// Generate the thumbnail for a single page of a paginated variant
    /// and report the next page to generate; variants without pages
    /// change nothing and report `None`.
    pub fn generate_thumbnail_page(
        &mut self,
        cache: &mut ThumbnailCache,
        page: usize,
        rendered: Option<&Surface>,
    ) -> (r: Option<usize>)
        requires
            old(self).wf(),
            old(cache).wf(),
            (rendered matches Some(s) ==> s.wf() && s.width > 0 && s.height > 0 && 4 * (s.width
                as int) * (s.height as int) <= 0x20000000),
        ensures
            final(self).wf(),
            final(cache).wf(),
            final(self).kind_spec() == old(self).kind_spec(),
            final(self).transform_spec() == old(self).transform_spec(),
            final(self).page_count_opt() == old(self).page_count_opt(),
            final(self).current_page_opt() == old(self).current_page_opt(),
            final(self).surface_of() == old(self).surface_of(),
            (old(self).page_count_opt() is None ==> r is None && final(cache)@ == old(cache)@
                && final(self).loaded_spec() == 0),
            (old(self).page_count_opt() matches Some(n) ==> {
                &&& (r matches Some(nx) ==> nx == page + 1 && page + 1 < n)
                &&& (r is None <==> page as int + 1 >= n)
                &&& (forall|i: int|
                    0 <= i < old(self).loaded_spec() ==> final(self).thumb_spec(i) == old(self).thumb_spec(i))
                &&& (old(self).loaded_spec() <= page as int && (page as int) < n ==> final(self).loaded_spec() == old(self).loaded_spec() + 1)
                &&& (!(old(self).loaded_spec() <= page as int && (page as int) < n) ==> final(self).loaded_spec() == old(self).loaded_spec() && final(cache)@ == old(cache)@)
            }),
    {
        match self {
            DocumentContent::Portable(d) => d.generate_thumbnail_page(cache, page, rendered),
            _ => None,
        }
    }

    /// Generate all thumbnails in one blocking pass; `pages` holds a
    /// rasterization of every page for the cache misses.
    pub fn generate_thumbnails(&mut self, cache: &mut ThumbnailCache, pages: &Vec<Surface>)
        requires
            old(self).wf(),
            old(cache).wf(),
            (old(self).page_count_opt() matches Some(n) ==> pages@.len() == n),
            forall|i: int|
                0 <= i < pages@.len() ==> (#[trigger] pages@[i]).wf() && pages@[i].width > 0
                    && pages@[i].height > 0 && 4 * (pages@[i].width as int) * (pages@[i].height
                    as int) <= 0x20000000,
        ensures
            final(self).wf(),
            final(cache).wf(),
            final(self).kind_spec() == old(self).kind_spec(),
            (old(self).page_count_opt() matches Some(n) ==> final(self).loaded_spec() == n),
            (forall|i: int|
                0 <= i < old(self).loaded_spec() ==> final(self).thumb_spec(i) == old(self).thumb_spec(i)),
            (old(self).page_count_opt() matches Some(n) && old(self).loaded_spec() == n ==> *final(self) == *old(self) && final(cache)@ == old(cache)@),
            (old(self).page_count_opt() is None ==> *final(self) == *old(self) && final(cache)@
                == old(cache)@),
    {
        match self {
            DocumentContent::Portable(d) => d.generate_all_thumbnails(cache, pages),
            _ => {},
        }
    }

    /// Get current image handle for display.
    #[must_use]
    pub fn handle(&self) -> (r: ImageHandle)
        ensures
            same_handle(r, self.handle_spec()),
    {
        match self {
            DocumentContent::Raster(d) => d.display_handle(),
            DocumentContent::Vector(d) => d.display_handle(),
            DocumentContent::Portable(d) => d.display_handle(),
        }
    }

    /// Get current document dimensions.
    #[must_use]
    pub fn dimensions(&self) -> (r: (u32, u32))
        ensures
            r == (self.surface_of().width, self.surface_of().height),
    {
        match self {
            DocumentContent::Raster(d) => d.dimensions(),
            DocumentContent::Vector(d) => d.dimensions(),
            DocumentContent::Portable(d) => d.dimensions(),
        }
    }

    /// Render for display: raster and portable documents return their
    /// current handle unchanged (raster surfaces are never re-rendered
    /// per scale, portable pages render at a fixed quality); a vector
    /// document records the requested scale and re-rasterizes through its
    /// owner. Always succeeds.
    pub fn render(&mut self, scale_milli: u32) -> (r: Result<RenderOutput, DocumentError>)
        requires
            old(self).wf(),
        ensures
            final(self).wf(),
            final(self).kind_spec() == old(self).kind_spec(),
            final(self).transform_spec() == old(self).transform_spec(),
            final(self).surface_of() == old(self).surface_of(),
            (r matches Ok(out) ==> same_handle(out.handle, old(self).handle_spec()) && out.width
                == old(self).surface_of().width && out.height == old(self).surface_of().height),
            r is Ok,
    {
        match self {
            DocumentContent::Vector(d) => {
                d.render_at_scale(scale_milli);
            },
            _ => {},
        }
        let (width, height) = self.dimensions();
        Ok(RenderOutput { handle: self.handle(), width, height })
    }

    /// Get document information: the raster and vector variants report
    /// their native (pre-transform) dimensions and format family, the
    /// portable variant its rendered page size.
    pub fn info(&self) -> (r: DocumentInfo)
        ensures
            (*self matches DocumentContent::Raster(d) ==> r.width == d.native_spec().0 && r.height
                == d.native_spec().1 && r.format@ == "Raster"@),
            (*self matches DocumentContent::Vector(d) ==> r.width == d.native_spec().0 && r.height
                == d.native_spec().1 && r.format@ == "SVG"@),
            (*self matches DocumentContent::Portable(d) ==> r.width == d.rendered_spec().width
                && r.height == d.rendered_spec().height && r.format@ == "PDF"@),
    {
        match self {
            DocumentContent::Raster(d) => d.info(),
            DocumentContent::Vector(d) => d.info(),
            DocumentContent::Portable(d) => d.info(),
        }
    }

    /// What an extracted metadata record must hold for this document:
    /// the caller's path, size and derived file name always; per variant
    /// the native (raster, vector) or rendered (portable) dimensions,
    /// the format label, the colour-type label, and — for the raster
    /// variant — an EXIF record exactly when the bytes hold one.
    pub open spec fn spec_meta_matches(
        &self,
        path: Seq<char>,
        data: Seq<u8>,
        file_size: u64,
        m: DocumentMeta,
    ) -> bool {
        &&& m.basic.file_size == file_size
        &&& m.basic.file_path@ == path
        &&& m.basic.file_name@ == (if spec_file_name(path).len() == 0 {
            "unknown"@
        } else {
            spec_file_name(path)
        })
        &&& match *self {
            DocumentContent::Raster(ref d) => m.basic.width == d.native_spec().0 && m.basic.height
                == d.native_spec().1 && m.basic.format@ == spec_format_from_extension(path)
                && m.basic.color_type@ == spec_color_type_display(spec_image_color_code(data))
                && (m.exif is Some <==> spec_exif_parses(data)),
            DocumentContent::Vector(ref d) => m.basic.width == d.native_spec().0 && m.basic.height
                == d.native_spec().1 && m.basic.format@ == "SVG"@ && m.basic.color_type@
                == "Vector"@ && m.exif is None,
            DocumentContent::Portable(ref d) => m.basic.width == d.rendered_spec().width
                && m.basic.height == d.rendered_spec().height && m.basic.format@ == "PDF ("@
                + crate::text::spec_dec(d.page_count_spec()) + " pages)"@ && m.basic.color_type@
                == "Rendered"@ && m.exif is None,
        }
    }

    /// Extract document metadata: the raster variant reads the raw bytes
    /// for colour and EXIF information; the caller supplies the file
    /// size.
    pub fn extract_meta(&self, path: &str, data: &Vec<u8>, file_size: u64) -> (r: DocumentMeta)
        requires
            (self.page_count_opt() matches Some(n) ==> n <= 0xffffffff),
        ensures
            self.spec_meta_matches(path@, data@, file_size, r),
    {
        match self {
            DocumentContent::Raster(d) => d.extract_meta(path, data, file_size),
            DocumentContent::Vector(d) => d.extract_meta(path, file_size),
            DocumentContent::Portable(d) => d.extract_meta(path, file_size),
        }
    }
}


impl Renderable for DocumentContent {
    open spec fn render_inv(&self) -> bool {
        self.wf()
    }

    fn render(&mut self, scale_milli: u32) -> (r: Result<RenderOutput, DocumentError>) {
        DocumentContent::render(self, scale_milli)
    }

    fn info(&self) -> DocumentInfo {
        DocumentContent::info(self)
    }
}

} // verus!
