//! Document kinds, format detection, errors, and the capability traits
//! shared by the three document backends.
//!
//! A path selects a backend by its file extension: SVG sources are vector
//! documents, PDF sources are portable documents, and everything whose
//! extension the `image` crate recognises is a raster document. Extension
//! comparison ignores ASCII case, exactly as the `image` crate's own
//! extension matching does.

use vstd::prelude::*;
use vstd::string::{StrSliceExecFns, StringExecFns};

use crate::surface::Surface;
use crate::transform::{FlipDirection, Rotation, TransformState};

verus! {

/// Errors surfaced by document operations.
#[derive(Debug, Clone)]
pub enum DocumentError {
    /// The file extension selects no backend.
    UnsupportedFormat,
    /// The content could not be decoded.
    DecodeFailed,
    /// A paginated container with zero pages.
    EmptyDocument,
    /// A page index at or beyond the page count.
    PageOutOfRange,
    /// A cache read or write failed; never fatal.
    CacheIoFailure,
    /// A vector or portable re-render failed.
    RasterizeFailure,
}

/// The display text of each document error.
pub open spec fn spec_error_message(e: DocumentError) -> Seq<char> {
    match e {
        DocumentError::UnsupportedFormat => "Unsupported document type"@,
        DocumentError::DecodeFailed => "Failed to decode document"@,
        DocumentError::EmptyDocument => "Document has no pages"@,
        DocumentError::PageOutOfRange => "Page out of range"@,
        DocumentError::CacheIoFailure => "Thumbnail cache unavailable"@,
        DocumentError::RasterizeFailure => "Failed to render document"@,
    }
}

impl DocumentError {
    /// The error's display text.
    pub fn message(&self) -> (r: String)
        ensures
            r@ == spec_error_message(*self),
    {
        match *self {
            DocumentError::UnsupportedFormat => String::from_str("Unsupported document type"),
            DocumentError::DecodeFailed => String::from_str("Failed to decode document"),
            DocumentError::EmptyDocument => String::from_str("Document has no pages"),
            DocumentError::PageOutOfRange => String::from_str("Page out of range"),
            DocumentError::CacheIoFailure => String::from_str("Thumbnail cache unavailable"),
            DocumentError::RasterizeFailure => String::from_str("Failed to render document"),
        }
    }
}

/// Supported document kinds (for format detection).
#[derive(Debug, Clone, Copy, PartialEq, Eq, Structural)]
pub enum DocumentKind {
    Raster,
    Vector,
    Portable,
}

/// Index of the last occurrence of `c` in `s`, or -1 when absent.
pub open spec fn last_index_of(s: Seq<char>, c: char) -> int
    decreases s.len(),
{
    if s.len() == 0 {
        -1
    } else if s.last() == c {
        s.len() - 1
    } else {
        last_index_of(s.drop_last(), c)
    }
}

/// [`last_index_of`] points at the last occurrence: it is in range, it
/// carries `c`, and nothing after it does.
pub proof fn lemma_last_index_of_props(s: Seq<char>, c: char)
    ensures
        -1 <= last_index_of(s, c) < s.len(),
        last_index_of(s, c) >= 0 ==> s[last_index_of(s, c)] == c,
        forall|j: int| last_index_of(s, c) < j < s.len() ==> s[j] != c,
    decreases s.len(),
{
    if s.len() > 0 && s.last() != c {
        lemma_last_index_of_props(s.drop_last(), c);
        assert forall|j: int| last_index_of(s, c) < j < s.len() implies s[j] != c by {
            if j < s.len() - 1 {
                assert(s.drop_last()[j] == s[j]);
            }
        }
    }
}

/// The file name part of a '/'-separated path: everything after the last
/// separator.
pub open spec fn spec_file_name(p: Seq<char>) -> Seq<char> {
    p.subrange(last_index_of(p, '/') + 1, p.len() as int)
}

/// The extension of a '/'-separated path: the part of the file name after
/// its last dot, unless that dot is absent or leads the name (a leading dot
/// marks a hidden file, not an extension).
pub open spec fn spec_extension(p: Seq<char>) -> Option<Seq<char>> {
    let name = spec_file_name(p);
    let d = last_index_of(name, '.');
    if d <= 0 {
        None
    } else {
        Some(name.subrange(d + 1, name.len() as int))
    }
}

/// The character code after ASCII-lowercasing: codes of 'A' through 'Z'
/// move to their lowercase counterparts, all others are unchanged.
pub open spec fn lower_code(c: int) -> int {
    if 65 <= c && c <= 90 {
        c + 32
    } else {
        c
    }
}

/// Case-insensitive equality of two character sequences, folding ASCII
/// letters only.
pub open spec fn spec_eq_ci(a: Seq<char>, b: Seq<char>) -> bool {
    a.len() == b.len() && (forall|i: int|
        0 <= i < a.len() ==> lower_code(a[i] as int) == lower_code(b[i] as int))
}

/// Index of the last occurrence of `c` in `s`, scanning characters.
fn rfind_char(s: &str, c: char) -> (r: Option<usize>)
    ensures
        (r matches Some(i) ==> i == last_index_of(s@, c) && i < s@.len()),
        r is None ==> last_index_of(s@, c) == -1,
{
    proof {
        lemma_last_index_of_props(s@, c);
    }
    let n = s.unicode_len();
    let mut i: usize = n;
    while i > 0
        invariant
            i <= n,
            n == s@.len(),
            forall|j: int| i <= j < n ==> s@[j] != c,
            -1 <= last_index_of(s@, c) < s@.len(),
            last_index_of(s@, c) >= 0 ==> s@[last_index_of(s@, c)] == c,
            forall|j: int| last_index_of(s@, c) < j < s@.len() ==> s@[j] != c,
        decreases i,
    {
        let ch = s.get_char(i - 1);
        if ch == c {
            proof {
                let l = last_index_of(s@, c);
                if l < i - 1 {
                    assert(s@[i - 1] != c);
                }
                if l > i - 1 {
                    assert(s@[l] != c);
                }
            }
            return Some(i - 1);
        }
        i -= 1;
    }
    proof {
        let l = last_index_of(s@, c);
        if l >= 0 {
            assert(s@[l] != c);
        }
    }
    None
}

/// The file name of a '/'-separated path: everything after the last
/// separator.
pub fn file_name_of<'a>(path: &'a str) -> (r: &'a str)
    ensures
        r@ == spec_file_name(path@),
{
    let n = path.unicode_len();
    let start: usize = match rfind_char(path, '/') {
        Some(i) => i + 1,
        None => 0,
    };
    let name = path.substring_char(start, n);
    proof {
        assert(name@ =~= spec_file_name(path@));
    }
    name
}

/// The extension of a '/'-separated path, if it has one.
pub fn extension_of<'a>(path: &'a str) -> (r: Option<&'a str>)
    ensures
        (r matches Some(e) ==> spec_extension(path@) == Some(e@)),
        r is None <==> spec_extension(path@) is None,
{
    let n = path.unicode_len();
    let start: usize = match rfind_char(path, '/') {
        Some(i) => i + 1,
        None => 0,
    };
    let name = path.substring_char(start, n);
    proof {
        assert(name@ =~= spec_file_name(path@));
    }
    let name_len = name.unicode_len();
    match rfind_char(name, '.') {
        Some(d) => {
            if d > 0 {
                Some(name.substring_char(d + 1, name_len))
            } else {
                None
            }
        },
        None => None,
    }
}

/// Case-insensitive string equality, folding ASCII letters only.
pub fn eq_ignore_case(a: &str, b: &str) -> (r: bool)
    ensures
        r == spec_eq_ci(a@, b@),
{
    let na = a.unicode_len();
    let nb = b.unicode_len();
    if na != nb {
        return false;
    }
    let mut i: usize = 0;
    while i < na
        invariant
            i <= na,
            na == a@.len(),
            na == b@.len(),
            forall|j: int| 0 <= j < i ==> lower_code(a@[j] as int) == lower_code(b@[j] as int),
        decreases na - i,
    {
        let ca = a.get_char(i) as u32;
        let cb = b.get_char(i) as u32;
        let la = if 65 <= ca && ca <= 90 {
            ca + 32
        } else {
            ca
        };
        let lb = if 65 <= cb && cb <= 90 {
            cb + 32
        } else {
            cb
        };
        if la != lb {
            return false;
        }
        i += 1;
    }
    true
}

/// Whether the extension is one the `image` crate's format table
/// recognises, compared ignoring ASCII case.
pub open spec fn spec_raster_extension(e: Seq<char>) -> bool {
    spec_eq_ci(e, "avif"@) || spec_eq_ci(e, "jpg"@) || spec_eq_ci(e, "jpeg"@) || spec_eq_ci(
        e,
        "jfif"@,
    ) || spec_eq_ci(e, "png"@) || spec_eq_ci(e, "apng"@) || spec_eq_ci(e, "gif"@) || spec_eq_ci(
        e,
        "webp"@,
    ) || spec_eq_ci(e, "tif"@) || spec_eq_ci(e, "tiff"@) || spec_eq_ci(e, "tga"@) || spec_eq_ci(
        e,
        "dds"@,
    ) || spec_eq_ci(e, "bmp"@) || spec_eq_ci(e, "ico"@) || spec_eq_ci(e, "hdr"@) || spec_eq_ci(
        e,
        "exr"@,
    ) || spec_eq_ci(e, "pbm"@) || spec_eq_ci(e, "pam"@) || spec_eq_ci(e, "ppm"@) || spec_eq_ci(
        e,
        "pgm"@,
    ) || spec_eq_ci(e, "pnm"@) || spec_eq_ci(e, "ff"@) || spec_eq_ci(e, "qoi"@)
}

/// Relies on `image::ImageFormat::from_extension`: it ASCII-lowercases its
/// argument and recognises exactly the extensions listed in
/// [`spec_raster_extension`], returning `None` for anything else.
#[verifier::external_body]
fn raster_extension_known(ext: &str) -> (r: bool)
    ensures
        r == spec_raster_extension(ext@),
{
    image::ImageFormat::from_extension(ext).is_some()
}

/// The backend selected by a path: vector for SVG extensions, portable for
/// PDF, raster for everything the `image` crate recognises, nothing
/// otherwise.
pub open spec fn spec_document_kind(p: Seq<char>) -> Option<DocumentKind> {
    match spec_extension(p) {
        None => None,
        Some(e) => {
            if spec_eq_ci(e, "svg"@) || spec_eq_ci(e, "svgz"@) {
                Some(DocumentKind::Vector)
            } else if spec_eq_ci(e, "pdf"@) {
                Some(DocumentKind::Portable)
            } else if spec_raster_extension(e) {
                Some(DocumentKind::Raster)
            } else {
                None
            }
        },
    }
}

impl DocumentKind {
    /// Detect document kind from a '/'-separated file path.
    #[must_use]
    pub fn from_path(path: &str) -> (r: Option<DocumentKind>)
        ensures
            r == spec_document_kind(path@),
    {
        let ext = match extension_of(path) {
            Some(e) => e,
            None => {
                return None;
            },
        };
        if eq_ignore_case(ext, "svg") || eq_ignore_case(ext, "svgz") {
            Some(DocumentKind::Vector)
        } else if eq_ignore_case(ext, "pdf") {
            Some(DocumentKind::Portable)
        } else if raster_extension_known(ext) {
            Some(DocumentKind::Raster)
        } else {
            None
        }
    }

    /// A short display name for the kind.
    pub fn name(self) -> (r: &'static str)
        ensures
            self == DocumentKind::Raster ==> r@ == "Raster"@,
            self == DocumentKind::Vector ==> r@ == "Vector"@,
            self == DocumentKind::Portable ==> r@ == "Portable"@,
    {
        match self {
            DocumentKind::Raster => "Raster",
            DocumentKind::Vector => "Vector",
            DocumentKind::Portable => "Portable",
        }
    }
}

/// Handle for rendered images: the pixel buffer a presentation layer
/// displays, rebuilt from the owning document's surface after every
/// mutation so that no stale handle is ever returned.
#[derive(Debug, Clone, PartialEq, Eq)]
pub struct ImageHandle {
    /// Width in pixels.
    pub width: u32,
    /// Height in pixels.
    pub height: u32,
    /// RGBA bytes, four per pixel, row-major.
    pub pixels: Vec<u8>,
}

impl ImageHandle {
    /// The buffer length matches the dimensions exactly.
    pub open spec fn wf(self) -> bool {
        self.pixels@.len() == 4 * (self.width as int) * (self.height as int)
    }

    /// Whether this handle shows exactly the given surface.
    pub open spec fn matches_surface(self, s: Surface) -> bool {
        self.width == s.width && self.height == s.height && self.pixels@ == s.pixels@
    }
}

/// Create an image handle from RGBA pixel data.
#[must_use]
pub fn create_image_handle(pixels: Vec<u8>, width: u32, height: u32) -> (r: ImageHandle)
    ensures
        r.width == width,
        r.height == height,
        r.pixels@ == pixels@,
{
    ImageHandle { width, height, pixels }
}

/// Create an image handle showing a surface.
#[must_use]
pub fn create_image_handle_from_image(img: &Surface) -> (r: ImageHandle)
    ensures
        r.matches_surface(*img),
        img.wf() ==> r.wf(),
{
    ImageHandle { width: img.width, height: img.height, pixels: img.pixels.clone() }
}

/// Whether two handles show the same image.
pub open spec fn same_handle(a: ImageHandle, b: ImageHandle) -> bool {
    a.width == b.width && a.height == b.height && a.pixels@ == b.pixels@
}

/// Copy an image handle.
#[must_use]
pub fn clone_handle(h: &ImageHandle) -> (r: ImageHandle)
    ensures
        same_handle(r, *h),
{
    ImageHandle {
        width: h.width,
        height: h.height,
        pixels: crate::surface::clone_bytes(&h.pixels),
    }
}

/// Output of a render operation.
pub struct RenderOutput {
    /// Image handle for display.
    pub handle: ImageHandle,
    /// Rendered width in pixels.
    pub width: u32,
    /// Rendered height in pixels.
    pub height: u32,
}

/// Document metadata/information: native dimensions and format description
/// before any transformations.
#[derive(Debug, Clone)]
pub struct DocumentInfo {
    /// Native width in pixels (before transforms).
    pub width: u32,
    /// Native height in pixels (before transforms).
    pub height: u32,
    /// Document format description.
    pub format: String,
}

/// Trait for documents that can be rendered to an image: the type-erased
/// dispatch surface over the three backends. What each backend's render
/// returns exactly is stated on its own methods; the trait guarantees
/// that rendering preserves the backend's invariant and always succeeds
/// for these backends.
pub trait Renderable {
    /// The backend's internal invariant.
    spec fn render_inv(&self) -> bool;

    /// Render the document at the given scale factor, in thousandths.
    fn render(&mut self, scale_milli: u32) -> (r: Result<RenderOutput, DocumentError>)
        requires
            old(self).render_inv(),
        ensures
            final(self).render_inv(),
            r is Ok,
    ;

    /// Get document information (dimensions, format).
    fn info(&self) -> DocumentInfo;
}

/// Trait for documents that support geometric transformations.
///
/// A rotation request is absolute: after it, the tracked rotation equals
/// the requested one and the flips are untouched. A flip toggles exactly
/// its own axis. What happens to the pixels is each backend's own, stated
/// on the backend's inherent methods.
pub trait Transformable {
    /// The backend's internal invariant.
    spec fn inv(&self) -> bool;

    /// The tracked transformation state.
    spec fn transform_spec(&self) -> TransformState;

    /// Apply an absolute rotation.
    fn rotate(&mut self, rotation: Rotation)
        requires
            old(self).inv(),
        ensures
            final(self).inv(),
            final(self).transform_spec().rotation == rotation,
            final(self).transform_spec().flip_h == old(self).transform_spec().flip_h,
            final(self).transform_spec().flip_v == old(self).transform_spec().flip_v,
    ;

    /// Flip in the given direction.
    fn flip(&mut self, direction: FlipDirection)
        requires
            old(self).inv(),
        ensures
            final(self).inv(),
            final(self).transform_spec() == old(self).transform_spec().spec_flipped(direction),
    ;

    /// Get the current transformation state.
    fn transform_state(&self) -> (t: TransformState)
        ensures
            t == self.transform_spec(),
    ;
}

/// Trait for documents with multiple pages.
pub trait MultiPage {
    /// The backend's internal invariant.
    spec fn pages_inv(&self) -> bool;

    /// Total number of pages.
    spec fn page_count_spec(&self) -> int;

    /// Current page index.
    spec fn current_page_spec(&self) -> int;

    /// Get total number of pages.
    fn page_count(&self) -> (n: usize)
        ensures
            n as int == self.page_count_spec(),
    ;

    /// Get current page index (0-based).
    fn current_page(&self) -> (n: usize)
        ensures
            n as int == self.current_page_spec(),
    ;

    /// Navigate to a specific page: succeeds exactly on indices below the
    /// page count and leaves the current page untouched otherwise.
    fn go_to_page(&mut self, page: usize) -> (r: Result<(), DocumentError>)
        requires
            old(self).pages_inv(),
        ensures
            final(self).pages_inv(),
            final(self).page_count_spec() == old(self).page_count_spec(),
            r is Ok <==> (page as int) < old(self).page_count_spec(),
            r is Ok ==> final(self).current_page_spec() == page as int,
            (r matches Err(e) ==> e is PageOutOfRange && final(self).current_page_spec() == old(
                self,
            ).current_page_spec()),
    ;
}

} // verus!
