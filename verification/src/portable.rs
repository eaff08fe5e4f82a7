//! Portable documents (PDF): a parsed multi-page container with per-page
//! rasterization and an incremental thumbnail pipeline.
//!
//! The parsed container itself lives with the rasterizer in the owning
//! application; this document tracks the page count, the current page, the
//! transform state, the rendered surface with its display handle, and the
//! ordered, append-only set of per-page thumbnails. The thumbnail pipeline
//! advances one page per call: it consults the thumbnail cache under the
//! page's content fingerprint, appends the cached image on a hit, and on a
//! miss appends the freshly rasterized page that the caller supplies —
//! persisting it to the cache — or a one-pixel placeholder when
//! rasterization failed. Each call reports the next page to generate, or
//! `None` once the last page has been processed.

use vstd::prelude::*;
use vstd::string::StringExecFns;
use vstd::utf8::encode_utf8;

use crate::cache::{spec_cache_lookup, ThumbnailCache};
use crate::codec::spec_png_encode;
use crate::document::{
    clone_handle, create_image_handle_from_image, same_handle, DocumentError, DocumentInfo,
    Renderable, RenderOutput,
    ImageHandle, MultiPage, Transformable,
};
use crate::fingerprint::{cache_key, spec_cache_key};
use crate::meta::{build_portable_meta, DocumentMeta};
use crate::surface::{apply_orientation, spec_orient, spec_orient_height, spec_orient_width, Surface};
use crate::transform::{FlipDirection, Rotation, TransformState};

verus! {

/// Render scale for on-screen pages, in thousandths: double resolution for
/// sharp display.
pub const PDF_RENDER_QUALITY_MILLI: u32 = 2000;

/// Render scale for thumbnails, in thousandths: a quarter of the page size
/// for fast preview generation.
pub const PDF_THUMBNAIL_SIZE_MILLI: u32 = 250;

/// The pixel size at which a page must be rasterized: width and height are
/// swapped for quarter turns at 90 and 270 degrees, then each is scaled
/// (in thousandths, truncating), capped at the page buffer maximum.
pub open spec fn spec_page_target_dim(dim: int, scale_milli: int) -> int {
    let scaled = (dim * scale_milli) / 1000;
    if scaled > 0xffff_ffff_ffff_ffff {
        0xffff_ffff_ffff_ffff
    } else {
        scaled
    }
}

/// Compute the rasterization size for a page of the given size under a
/// rotation and a scale in thousandths: the axes swap for 90- and
/// 270-degree turns, then each dimension is scaled, truncating.
pub fn scaled_page_dims(page_w: u32, page_h: u32, rotation: Rotation, scale_milli: u32) -> (r: (
    u64,
    u64,
))
    ensures
        ({
            let swaps = rotation == Rotation::Cw90 || rotation == Rotation::Cw270;
            let w = if swaps { page_h as int } else { page_w as int };
            let h = if swaps { page_w as int } else { page_h as int };
            r.0 as int == spec_page_target_dim(w, scale_milli as int) && r.1 as int
                == spec_page_target_dim(h, scale_milli as int)
        }),
{
    let (w, h) = match rotation {
        Rotation::Cw90 | Rotation::Cw270 => (page_h, page_w),
        _ => (page_w, page_h),
    };
    (scale_page_dim(w, scale_milli), scale_page_dim(h, scale_milli))
}

/// One dimension of [`scaled_page_dims`].
fn scale_page_dim(dim: u32, scale_milli: u32) -> (r: u64)
    ensures
        r as int == spec_page_target_dim(dim as int, scale_milli as int),
{
    proof {
        assert((dim as int) * (scale_milli as int) <= 0xffffffff * 0xffffffff)
            by (nonlinear_arith)
            requires
                dim <= 0xffffffffu32,
                scale_milli <= 0xffffffffu32,
        ;
    }
    let scaled: u128 = ((dim as u128) * (scale_milli as u128)) / 1000;
    if scaled > 0xffff_ffff_ffff_ffff {
        0xffff_ffff_ffff_ffff
    } else {
        scaled as u64
    }
}

/// Represents a portable multi-page document.
pub struct PortableDocument {
    /// Path to the source file (for cache fingerprints).
    source_path: String,
    /// Modification time of the source in seconds (for cache
    /// fingerprints).
    source_mtime: u64,
    /// Total number of pages.
    num_pages: usize,
    /// Current page index (0-based).
    page_index: usize,
    /// Current transformation state.
    transform: TransformState,
    /// Whether the owner must re-rasterize the current page.
    needs_rerender: bool,
    /// Ordered, append-only thumbnail handles, one per generated page.
    thumbs: Vec<ImageHandle>,
    /// Current rendered page as image.
    pub rendered: Surface,
    /// Image handle for display.
    pub handle: ImageHandle,
}

impl PortableDocument {
    /// The source path, for contracts.
    pub closed spec fn path_spec(&self) -> Seq<char> {
        self.source_path@
    }

    /// The source modification time, for contracts.
    pub closed spec fn mtime_spec(&self) -> u64 {
        self.source_mtime
    }

    /// The number of already generated thumbnails, for contracts.
    pub closed spec fn loaded_spec(&self) -> int {
        self.thumbs@.len() as int
    }

    /// The generated thumbnail at an index, for contracts.
    pub closed spec fn thumb_spec(&self, i: int) -> ImageHandle {
        self.thumbs@[i]
    }

    /// Whether a re-rasterization of the current page is pending, for
    /// contracts.
    pub closed spec fn dirty_spec(&self) -> bool {
        self.needs_rerender
    }

    /// The rendered surface, for contracts.
    pub closed spec fn rendered_spec(&self) -> Surface {
        self.rendered
    }

    /// The display handle, for contracts.
    pub closed spec fn handle_spec(&self) -> ImageHandle {
        self.handle
    }

    /// The cache key under which a page's thumbnail is stored.
    pub open spec fn page_key_spec(&self, page: u64) -> Seq<char> {
        spec_cache_key(encode_utf8(self.path_spec()), self.mtime_spec(), page)
    }

    /// Internal invariant: at least one page, the current page in range,
    /// never more thumbnails than pages, and a handle showing exactly the
    /// rendered surface.
    pub open spec fn wf(&self) -> bool {
        &&& self.page_count_spec() > 0
        &&& self.current_page_spec() < self.page_count_spec()
        &&& self.loaded_spec() <= self.page_count_spec()
        &&& self.rendered_spec().wf()
        &&& self.handle_spec().matches_surface(self.rendered_spec())
    }

    /// Build a portable document around a parsed container: fails exactly
    /// on a zero-page container, and starts at page zero with the supplied
    /// first-page rasterization, no transform, and no thumbnails.
    pub fn open(path: &str, mtime: u64, num_pages: usize, first_page: Surface) -> (r: Result<
        PortableDocument,
        DocumentError,
    >)
        requires
            first_page.wf(),
        ensures
            r is Ok <==> num_pages > 0,
            (r matches Err(e) ==> e is EmptyDocument),
            (r matches Ok(d) ==> d.wf() && d.path_spec() == path@ && d.mtime_spec() == mtime
                && d.page_count_spec() == num_pages as int && d.current_page_spec() == 0
                && d.loaded_spec() == 0 && d.rendered_spec() == first_page && !d.dirty_spec()
                && d.transform_spec() == (TransformState {
                rotation: Rotation::Cw0,
                flip_h: false,
                flip_v: false,
            })),
    {
        if num_pages == 0 {
            return Err(DocumentError::EmptyDocument);
        }
        let handle = create_image_handle_from_image(&first_page);
        Ok(
            PortableDocument {
                source_path: String::from_str(path),
                source_mtime: mtime,
                num_pages,
                page_index: 0,
                transform: TransformState {
                    rotation: Rotation::Cw0,
                    flip_h: false,
                    flip_v: false,
                },
                needs_rerender: false,
                thumbs: Vec::new(),
                rendered: first_page,
                handle,
            },
        )
    }

    /// Get the number of thumbnails currently loaded.
    pub fn thumbnails_loaded(&self) -> (n: usize)
        ensures
            n as int == self.loaded_spec(),
    {
        self.thumbs.len()
    }

    /// Check if all thumbnails are ready: exactly when one thumbnail per
    /// page has been generated, and never before.
    pub fn thumbnails_ready(&self) -> (r: bool)
        requires
            self.wf(),
        ensures
            r == (self.loaded_spec() == self.page_count_spec()),
    {
        self.thumbs.len() >= self.num_pages
    }

    /// Get the generated thumbnail for a page, if it exists yet.
    pub fn get_thumbnail(&self, page: usize) -> (r: Option<ImageHandle>)
        ensures
            r is Some <==> (page as int) < self.loaded_spec(),
            (r matches Some(h) ==> same_handle(h, self.thumb_spec(page as int))),
    {
        if page < self.thumbs.len() {
            Some(clone_handle(&self.thumbs[page]))
        } else {
            None
        }
    }

    /// A one-pixel transparent placeholder thumbnail, used when a page
    /// could not be rasterized.
    fn placeholder_thumb() -> (r: ImageHandle)
        ensures
            r.width == 1,
            r.height == 1,
            r.pixels@ =~= seq![0u8, 0u8, 0u8, 0u8],
    {
        let mut pixels: Vec<u8> = Vec::new();
        pixels.push(0);
        pixels.push(0);
        pixels.push(0);
        pixels.push(0);
        ImageHandle { width: 1, height: 1, pixels }
    }

    /// Generate the thumbnail for a single page and report the next page
    /// to generate, or `None` once the last page has been processed.
    ///
    /// When `page` is not yet generated and in range, one thumbnail is
    /// appended: the cached image when the cache holds one under the
    /// page's fingerprint, else the caller's freshly rasterized page
    /// (which is persisted to the cache, best-effort), else a one-pixel
    /// placeholder. A page already generated, or out of range, appends
    /// nothing and leaves the cache untouched. Earlier thumbnails are
    /// never overwritten or reordered; driving pages in order from zero
    /// therefore fills the set one page per call.
    pub fn generate_thumbnail_page(
        &mut self,
        cache: &mut ThumbnailCache,
        page: usize,
        rendered: Option<&Surface>,
    ) -> (r: Option<usize>)
        requires
            old(self).wf(),
            old(cache).wf(),
            (rendered matches Some(s) ==> s.wf() && s.width > 0 && s.height > 0 && 4 * (s.width
                as int) * (s.height as int) <= 0x20000000),
        ensures
            final(self).wf(),
            final(cache).wf(),
            final(self).path_spec() == old(self).path_spec(),
            final(self).mtime_spec() == old(self).mtime_spec(),
            final(self).page_count_spec() == old(self).page_count_spec(),
            final(self).current_page_spec() == old(self).current_page_spec(),
            final(self).transform_spec() == old(self).transform_spec(),
            final(self).rendered_spec() == old(self).rendered_spec(),
            final(self).handle_spec() == old(self).handle_spec(),
            final(self).dirty_spec() == old(self).dirty_spec(),
            (r matches Some(n) ==> n == page + 1 && (page + 1 < old(self).page_count_spec())),
            (r is None <==> page as int + 1 >= old(self).page_count_spec()),
            ({
                let generated = old(self).loaded_spec() <= page as int && (page as int) < old(self).page_count_spec();
                let at = old(self).loaded_spec();
                let key = old(self).page_key_spec(page as u64);
                let hit = spec_cache_lookup(old(cache)@, key);
                &&& (forall|i: int|
                    0 <= i < old(self).loaded_spec() ==> final(self).thumb_spec(i) == old(self).thumb_spec(i))
                &&& (!generated ==> final(self).loaded_spec() == old(self).loaded_spec() && final(cache)@ == old(cache)@)
                &&& (generated ==> final(self).loaded_spec() == old(self).loaded_spec() + 1)
                &&& (generated ==> (hit matches Some(t) ==> final(self).thumb_spec(at).width == t.0
                    && final(self).thumb_spec(at).height == t.1 && final(self).thumb_spec(
                    at,
                ).pixels@ == t.2 && final(cache)@ == old(cache)@))
                &&& (generated && hit is None ==> (match rendered {
                    Some(img) => final(self).thumb_spec(at).width == img.width && final(self).thumb_spec(at).height == img.height && final(self).thumb_spec(at).pixels@
                        == img.pixels@ && final(cache)@ == old(cache)@.insert(
                        key,
                        spec_png_encode(img.width, img.height, img.pixels@),
                    ),
                    None => final(self).thumb_spec(at).width == 1 && final(self).thumb_spec(
                        at,
                    ).height == 1 && final(self).thumb_spec(at).pixels@ =~= seq![
                        0u8,
                        0u8,
                        0u8,
                        0u8,
                    ] && final(cache)@ == old(cache)@,
                }))
            }),
    {
        let loaded = self.thumbs.len();
        if page >= loaded && page < self.num_pages {
            let key = cache_key(self.source_path.as_str(), self.source_mtime, page);
            let thumb: ImageHandle = match cache.load_thumbnail(&key) {
                Some(img) => create_image_handle_from_image(&img),
                None => match rendered {
                    Some(img) => {
                        cache.save_thumbnail(&key, img);
                        create_image_handle_from_image(img)
                    },
                    None => Self::placeholder_thumb(),
                },
            };
            self.thumbs.push(thumb);
        }
        if page < self.num_pages - 1 {
            Some(page + 1)
        } else {
            None
        }
    }

    /// Generate all thumbnails in one blocking pass, for callers that
    /// explicitly accept blocking: the same per-page logic as
    /// [`Self::generate_thumbnail_page`], without yielding. `pages` holds
    /// a rasterization of every page for the cache misses. Afterwards the
    /// thumbnail set is complete.
    pub fn generate_all_thumbnails(&mut self, cache: &mut ThumbnailCache, pages: &Vec<Surface>)
        requires
            old(self).wf(),
            old(cache).wf(),
            pages@.len() == old(self).page_count_spec(),
            forall|i: int|
                0 <= i < pages@.len() ==> (#[trigger] pages@[i]).wf() && pages@[i].width > 0
                    && pages@[i].height > 0 && 4 * (pages@[i].width as int) * (pages@[i].height
                    as int) <= 0x20000000,
        ensures
            final(self).wf(),
            final(cache).wf(),
            final(self).loaded_spec() == final(self).page_count_spec(),
            (forall|i: int|
                0 <= i < old(self).loaded_spec() ==> final(self).thumb_spec(i) == old(self).thumb_spec(i)),
            (old(self).loaded_spec() == old(self).page_count_spec() ==> *final(self) == *old(self)
                && final(cache)@ == old(cache)@),
            final(self).path_spec() == old(self).path_spec(),
            final(self).mtime_spec() == old(self).mtime_spec(),
            final(self).page_count_spec() == old(self).page_count_spec(),
            final(self).current_page_spec() == old(self).current_page_spec(),
            final(self).transform_spec() == old(self).transform_spec(),
            final(self).rendered_spec() == old(self).rendered_spec(),
            final(self).dirty_spec() == old(self).dirty_spec(),
    {
        if self.thumbnails_ready() {
            return ;
        }
        let ghost o = *self;
        let mut page: usize = 0;
        while page < self.num_pages
            invariant
                self.wf(),
                cache.wf(),
                page <= self.page_count_spec(),
                self.loaded_spec() >= page as int,
                self.loaded_spec() >= o.loaded_spec(),
                forall|i: int|
                    0 <= i < o.loaded_spec() ==> self.thumb_spec(i) == o.thumb_spec(i),
                pages@.len() == self.page_count_spec(),
                forall|i: int|
                    0 <= i < pages@.len() ==> (#[trigger] pages@[i]).wf() && pages@[i].width > 0
                        && pages@[i].height > 0 && 4 * (pages@[i].width as int) * (pages@[
                        i].height as int) <= 0x20000000,
                self.path_spec() == o.path_spec(),
                self.mtime_spec() == o.mtime_spec(),
                self.page_count_spec() == o.page_count_spec(),
                self.current_page_spec() == o.current_page_spec(),
                self.transform_spec() == o.transform_spec(),
                self.rendered_spec() == o.rendered_spec(),
                self.dirty_spec() == o.dirty_spec(),
            decreases self.page_count_spec() - page,
        {
            self.generate_thumbnail_page(cache, page, Some(&pages[page]));
            page += 1;
        }
    }

    /// The current display handle, cloned.
    #[must_use]
    pub fn display_handle(&self) -> (r: ImageHandle)
        ensures
            crate::document::same_handle(r, self.handle_spec()),
    {
        clone_handle(&self.handle)
    }

    /// Returns the dimensions of the currently rendered page.
    pub fn dimensions(&self) -> (d: (u32, u32))
        ensures
            d == (self.rendered_spec().width, self.rendered_spec().height),
    {
        (self.rendered.width, self.rendered.height)
    }

    /// Document information: the rendered dimensions and the format name.
    pub fn info(&self) -> (r: DocumentInfo)
        ensures
            r.width == self.rendered_spec().width,
            r.height == self.rendered_spec().height,
            r.format@ == "PDF"@,
    {
        DocumentInfo {
            width: self.rendered.width,
            height: self.rendered.height,
            format: String::from_str("PDF"),
        }
    }

    /// Navigate to a specific page: succeeds exactly on indices below
    /// the page count, marking the page for re-rasterization; an
    /// out-of-range index changes nothing.
    pub fn set_page(&mut self, page: usize) -> (r: Result<(), DocumentError>)
        requires
            old(self).wf(),
        ensures
            final(self).wf(),
            final(self).page_count_spec() == old(self).page_count_spec(),
            final(self).transform_spec() == old(self).transform_spec(),
            final(self).loaded_spec() == old(self).loaded_spec(),
            final(self).rendered_spec() == old(self).rendered_spec(),
            final(self).path_spec() == old(self).path_spec(),
            final(self).mtime_spec() == old(self).mtime_spec(),
            (forall|i: int|
                0 <= i < old(self).loaded_spec() ==> final(self).thumb_spec(i) == old(self).thumb_spec(i)),
            r is Ok <==> (page as int) < old(self).page_count_spec(),
            r is Ok ==> final(self).current_page_spec() == page as int && final(self).dirty_spec(),
            (r matches Err(e) ==> e is PageOutOfRange && *final(self) == *old(self)),
    {
        if page >= self.num_pages {
            return Err(DocumentError::PageOutOfRange);
        }
        self.page_index = page;
        self.needs_rerender = true;
        Ok(())
    }

    /// Extract metadata for this portable document: the rendered
    /// dimensions and the page count are reported.
    pub fn extract_meta(&self, path: &str, file_size: u64) -> (r: DocumentMeta)
        requires
            self.page_count_spec() <= 0xffffffff,
        ensures
            r.basic.width == self.rendered_spec().width,
            r.basic.height == self.rendered_spec().height,
            r.basic.file_size == file_size,
            r.basic.file_path@ == path@,
            r.basic.file_name@ == (if crate::document::spec_file_name(path@).len() == 0 {
                "unknown"@
            } else {
                crate::document::spec_file_name(path@)
            }),
            r.basic.format@ == "PDF ("@ + crate::text::spec_dec(self.page_count_spec())
                + " pages)"@,
            r.basic.color_type@ == "Rendered"@,
            r.exif is None,
    {
        let (w, h) = self.dimensions();
        build_portable_meta(path, w, h, self.num_pages as u32, file_size)
    }

    /// Render for display: pages render at a fixed quality, so the scale
    /// is ignored, the current handle is returned unchanged and nothing
    /// is mutated. Always succeeds.
    pub fn render(&mut self, _scale_milli: u32) -> (r: Result<RenderOutput, DocumentError>)
        requires
            old(self).wf(),
        ensures
            *final(self) == *old(self),
            r is Ok,
            (r matches Ok(out) ==> same_handle(out.handle, old(self).handle_spec()) && out.width
                == old(self).rendered_spec().width && out.height == old(
            self).rendered_spec().height),
    {
        let (width, height) = self.dimensions();
        Ok(RenderOutput { handle: self.display_handle(), width, height })
    }

    /// Navigate to the next page: advances and marks the page for
    /// re-rasterization unless already on the last page.
    pub fn next_page(&mut self) -> (r: bool)
        requires
            old(self).wf(),
        ensures
            final(self).wf(),
            r == (old(self).current_page_spec() + 1 < old(self).page_count_spec()),
            r ==> final(self).current_page_spec() == old(self).current_page_spec() + 1 && final(self).dirty_spec(),
            !r ==> *final(self) == *old(self),
            final(self).page_count_spec() == old(self).page_count_spec(),
            final(self).transform_spec() == old(self).transform_spec(),
            final(self).loaded_spec() == old(self).loaded_spec(),
    {
        if self.page_index + 1 < self.num_pages {
            self.page_index = self.page_index + 1;
            self.needs_rerender = true;
            true
        } else {
            false
        }
    }

    /// Navigate to the previous page: steps back and marks the page for
    /// re-rasterization unless already on the first page.
    pub fn prev_page(&mut self) -> (r: bool)
        requires
            old(self).wf(),
        ensures
            final(self).wf(),
            r == (old(self).current_page_spec() > 0),
            r ==> final(self).current_page_spec() == old(self).current_page_spec() - 1 && final(self).dirty_spec(),
            !r ==> *final(self) == *old(self),
            final(self).page_count_spec() == old(self).page_count_spec(),
            final(self).transform_spec() == old(self).transform_spec(),
            final(self).loaded_spec() == old(self).loaded_spec(),
    {
        if self.page_index > 0 {
            self.page_index = self.page_index - 1;
            self.needs_rerender = true;
            true
        } else {
            false
        }
    }

    /// Set the absolute rotation and mark the page for re-rasterization;
    /// the surface is not touched until the owner re-renders.
    pub fn rotate_to(&mut self, rotation: Rotation)
        requires
            old(self).wf(),
        ensures
            final(self).wf(),
            final(self).transform_spec() == (TransformState {
                rotation,
                ..old(self).transform_spec()
            }),
            final(self).dirty_spec(),
            final(self).rendered_spec() == old(self).rendered_spec(),
            final(self).current_page_spec() == old(self).current_page_spec(),
            final(self).page_count_spec() == old(self).page_count_spec(),
            final(self).loaded_spec() == old(self).loaded_spec(),
    {
        self.transform.rotation = rotation;
        self.needs_rerender = true;
    }

    /// Toggle a flip axis and mark the page for re-rasterization.
    pub fn flip_axis(&mut self, direction: FlipDirection)
        requires
            old(self).wf(),
        ensures
            final(self).wf(),
            final(self).transform_spec() == old(self).transform_spec().spec_flipped(direction),
            final(self).dirty_spec(),
            final(self).rendered_spec() == old(self).rendered_spec(),
            final(self).current_page_spec() == old(self).current_page_spec(),
            final(self).page_count_spec() == old(self).page_count_spec(),
            final(self).loaded_spec() == old(self).loaded_spec(),
    {
        match direction {
            FlipDirection::Horizontal => {
                self.transform.flip_h = !self.transform.flip_h;
            },
            FlipDirection::Vertical => {
                self.transform.flip_v = !self.transform.flip_v;
            },
        }
        self.needs_rerender = true;
    }

    /// Install a fresh rasterization of the current page: the flips are
    /// applied first, then the rotation, and the handle is rebuilt from
    /// the oriented result, so no stale handle is ever returned.
    pub fn apply_rendered(&mut self, base: Surface)
        requires
            old(self).wf(),
            base.wf(),
        ensures
            final(self).wf(),
            final(self).rendered_spec().pixels@ == spec_orient(
                base.pixels@,
                base.width as int,
                base.height as int,
                old(self).transform_spec(),
            ),
            final(self).rendered_spec().width as int == spec_orient_width(
                base.width as int,
                base.height as int,
                old(self).transform_spec(),
            ),
            final(self).rendered_spec().height as int == spec_orient_height(
                base.width as int,
                base.height as int,
                old(self).transform_spec(),
            ),
            !final(self).dirty_spec(),
            final(self).transform_spec() == old(self).transform_spec(),
            final(self).current_page_spec() == old(self).current_page_spec(),
            final(self).page_count_spec() == old(self).page_count_spec(),
            final(self).loaded_spec() == old(self).loaded_spec(),
    {
        let oriented = apply_orientation(&base, &self.transform);
        self.handle = create_image_handle_from_image(&oriented);
        self.rendered = oriented;
        self.needs_rerender = false;
    }
}

impl Renderable for PortableDocument {
    open spec fn render_inv(&self) -> bool {
        self.wf()
    }

    fn render(&mut self, scale_milli: u32) -> (r: Result<RenderOutput, DocumentError>) {
        PortableDocument::render(self, scale_milli)
    }

    fn info(&self) -> DocumentInfo {
        PortableDocument::info(self)
    }
}

impl Transformable for PortableDocument {
    open spec fn inv(&self) -> bool {
        self.wf()
    }

    closed spec fn transform_spec(&self) -> TransformState {
        self.transform
    }

    fn rotate(&mut self, rotation: Rotation) {
        self.rotate_to(rotation);
    }

    fn flip(&mut self, direction: FlipDirection) {
        self.flip_axis(direction);
    }

    fn transform_state(&self) -> (t: TransformState) {
        self.transform
    }
}

impl MultiPage for PortableDocument {
    open spec fn pages_inv(&self) -> bool {
        self.wf()
    }

    closed spec fn page_count_spec(&self) -> int {
        self.num_pages as int
    }

    closed spec fn current_page_spec(&self) -> int {
        self.page_index as int
    }

    fn page_count(&self) -> (n: usize) {
        self.num_pages
    }

    fn current_page(&self) -> (n: usize) {
        self.page_index
    }

    fn go_to_page(&mut self, page: usize) -> (r: Result<(), DocumentError>) {
        if page >= self.num_pages {
            return Err(DocumentError::PageOutOfRange);
        }
        self.page_index = page;
        self.needs_rerender = true;
        Ok(())
    }
}

} // verus!
