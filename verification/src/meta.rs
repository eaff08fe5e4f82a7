//! Document metadata extraction: basic information and EXIF fields.
//!
//! Basic metadata (name, format, size, dimensions, colour depth) is always
//! available and is assembled from plain values. EXIF fields are optional
//! and parsed from the raw source bytes by the `exif` crate through
//! trusted wrappers; what each raw field contains cannot be written down
//! here, so the wrappers name their results, and everything composed from
//! them — the tag selection and fallbacks, the GPS coordinate conversion
//! from degree/minute/second rationals to fixed-point degrees, and every
//! display string — is verified.

use vstd::prelude::*;
use vstd::string::{StrSliceExecFns, StringExecFns};

use crate::document::{file_name_of, spec_extension, spec_file_name};
use crate::text::{fixed_display, spec_dec, spec_fixed_display, u64_to_string, u64_to_string_padded,
    spec_dec_padded};

verus! {

/// Bytes per kibibyte.
pub const KB: u64 = 1024;

/// Bytes per mebibyte.
pub const MB: u64 = KB * 1024;

/// Bytes per gibibyte.
pub const GB: u64 = MB * 1024;

/// Minutes per degree (GPS coordinate conversion).
pub const MINUTES_PER_DEGREE: u64 = 60;

/// Seconds per degree (GPS coordinate conversion).
pub const SECONDS_PER_DEGREE: u64 = 3600;

/// The human-readable rendering of a byte count: gibibytes with two
/// decimals from one gibibyte up, mebibytes with two decimals from one
/// mebibyte, kibibytes with one decimal from one kibibyte, plain bytes
/// below that. Fractions round half up.
pub open spec fn spec_size_display(size: int) -> Seq<char> {
    if size >= GB as int {
        spec_fixed_display(size, GB as int, 100, 2) + " GB"@
    } else if size >= MB as int {
        spec_fixed_display(size, MB as int, 100, 2) + " MB"@
    } else if size >= KB as int {
        spec_fixed_display(size, KB as int, 10, 1) + " KB"@
    } else {
        spec_dec(size) + " B"@
    }
}

/// Basic document metadata (always available).
#[derive(Debug, Clone)]
pub struct BasicMeta {
    /// File name (without path).
    pub file_name: String,
    /// Full file path.
    pub file_path: String,
    /// Image format as string (e.g., "PNG", "JPEG", "PDF").
    pub format: String,
    /// Width in pixels.
    pub width: u32,
    /// Height in pixels.
    pub height: u32,
    /// File size in bytes.
    pub file_size: u64,
    /// Color type description (e.g., "RGBA 8-bit", "Vector").
    pub color_type: String,
}

impl BasicMeta {
    /// Format file size as human-readable string.
    pub fn file_size_display(&self) -> (r: String)
        ensures
            r@ == spec_size_display(self.file_size as int),
    {
        if self.file_size >= GB {
            let mut s = fixed_display(self.file_size, GB, 100, 2);
            s.append(" GB");
            s
        } else if self.file_size >= MB {
            let mut s = fixed_display(self.file_size, MB, 100, 2);
            s.append(" MB");
            s
        } else if self.file_size >= KB {
            let mut s = fixed_display(self.file_size, KB, 10, 1);
            s.append(" KB");
            s
        } else {
            let mut s = u64_to_string(self.file_size);
            s.append(" B");
            s
        }
    }

    /// Format resolution as "W x H" with a multiplication sign.
    pub fn resolution_display(&self) -> (r: String)
        ensures
            r@ == spec_dec(self.width as int) + " \u{d7} "@ + spec_dec(self.height as int),
    {
        let mut s = u64_to_string(self.width as u64);
        s.append(" \u{d7} ");
        let tail = u64_to_string(self.height as u64);
        s.append(tail.as_str());
        s
    }
}

/// Whether one character sequence begins with another.
pub open spec fn spec_starts_with(s: Seq<char>, prefix: Seq<char>) -> bool {
    s.len() >= prefix.len() && s.subrange(0, prefix.len() as int) == prefix
}

/// Whether one string begins with another.
pub fn starts_with_str(s: &str, prefix: &str) -> (r: bool)
    ensures
        r == spec_starts_with(s@, prefix@),
{
    let n = s.unicode_len();
    let k = prefix.unicode_len();
    if n < k {
        proof {
            assert(!spec_starts_with(s@, prefix@));
        }
        return false;
    }
    let mut i: usize = 0;
    while i < k
        invariant
            i <= k,
            k == prefix@.len(),
            n == s@.len(),
            k <= n,
            forall|j: int| 0 <= j < i ==> s@[j] == prefix@[j],
        decreases k - i,
    {
        if s.get_char(i) != prefix.get_char(i) {
            proof {
                assert(s@.subrange(0, k as int)[i as int] != prefix@[i as int]);
            }
            return false;
        }
        i += 1;
    }
    proof {
        assert(s@.subrange(0, k as int) =~= prefix@);
    }
    true
}

/// EXIF metadata (optional, mainly for JPEG/TIFF sources). GPS
/// coordinates are held in hundred-thousandths of a degree.
#[derive(Debug, Clone)]
pub struct ExifMeta {
    pub camera_make: Option<String>,
    pub camera_model: Option<String>,
    pub date_time: Option<String>,
    pub exposure_time: Option<String>,
    pub f_number: Option<String>,
    pub iso: Option<u32>,
    pub focal_length: Option<String>,
    pub gps_latitude: Option<i64>,
    pub gps_longitude: Option<i64>,
}

/// What the camera line shows for a make and a model: the model alone
/// when it already repeats the make, otherwise make and model joined, and
/// whichever is present when the other is missing.
pub open spec fn spec_camera_display(make: Option<Seq<char>>, model: Option<Seq<char>>) -> Option<
    Seq<char>,
> {
    match (make, model) {
        (Some(mk), Some(md)) => if spec_starts_with(md, mk) {
            Some(md)
        } else {
            Some(mk + " "@ + md)
        },
        (Some(mk), None) => Some(mk),
        (None, Some(md)) => Some(md),
        (None, None) => None,
    }
}

/// The display form of a coordinate in hundred-thousandths of a degree: a
/// minus sign when negative, the whole degrees, a dot, and exactly five
/// fraction digits.
pub open spec fn spec_coord_display(v: int) -> Seq<char> {
    let mag = if v < 0 {
        -v
    } else {
        v
    };
    let sign: Seq<char> = if v < 0 {
        "-"@
    } else {
        Seq::empty()
    };
    sign + spec_dec(mag / 100000) + "."@ + spec_dec_padded(mag % 100000, 5)
}

impl ExifMeta {
    /// Combined camera make and model for display.
    pub fn camera_display(&self) -> (r: Option<String>)
        ensures
            ({
                let mk = match self.camera_make {
                    Some(ref s) => Some(s@),
                    None => None,
                };
                let md = match self.camera_model {
                    Some(ref s) => Some(s@),
                    None => None,
                };
                match r {
                    Some(ref s) => spec_camera_display(mk, md) == Some(s@),
                    None => spec_camera_display(mk, md) is None,
                }
            }),
    {
        match (&self.camera_make, &self.camera_model) {
            (Some(make), Some(model)) => {
                if starts_with_str(model.as_str(), make.as_str()) {
                    Some(model.clone())
                } else {
                    let mut s = make.clone();
                    s.append(" ");
                    s.append(model.as_str());
                    Some(s)
                }
            },
            (Some(make), None) => Some(make.clone()),
            (None, Some(model)) => Some(model.clone()),
            (None, None) => None,
        }
    }

    /// Format GPS coordinates for display: both with five decimal places,
    /// comma-separated; present only when both coordinates are.
    pub fn gps_display(&self) -> (r: Option<String>)
        ensures
            r is Some <==> (self.gps_latitude is Some && self.gps_longitude is Some),
            (r matches Some(s) ==> (self.gps_latitude matches Some(lat) ==> (self.gps_longitude
                matches Some(lon) ==> s@ == spec_coord_display(lat as int) + ", "@
                + spec_coord_display(lon as int)))),
    {
        match (self.gps_latitude, self.gps_longitude) {
            (Some(lat), Some(lon)) => {
                let mut s = coord_display(lat);
                s.append(", ");
                let tail = coord_display(lon);
                s.append(tail.as_str());
                Some(s)
            },
            _ => None,
        }
    }
}

/// Render a coordinate in hundred-thousandths of a degree with five
/// decimal places.
pub fn coord_display(v: i64) -> (r: String)
    ensures
        r@ == spec_coord_display(v as int),
{
    let mag: u64 = if v < 0 {
        if v == i64::MIN {
            0x8000000000000000u64
        } else {
            (-v) as u64
        }
    } else {
        v as u64
    };
    let mut s = if v < 0 {
        String::from_str("-")
    } else {
        String::new()
    };
    let whole = u64_to_string(mag / 100000);
    s.append(whole.as_str());
    s.append(".");
    let frac = u64_to_string_padded(mag % 100000, 5);
    s.append(frac.as_str());
    s
}

/// Complete document metadata container.
#[derive(Debug, Clone)]
pub struct DocumentMeta {
    pub basic: BasicMeta,
    pub exif: Option<ExifMeta>,
}

/// Extract basic metadata common to all document types. The file size is
/// supplied by the caller, which owns the file system; an empty file name
/// (a path ending in a separator) is reported as "unknown".
pub fn extract_basic_meta(
    path: &str,
    width: u32,
    height: u32,
    format: &str,
    color_type: String,
    file_size: u64,
) -> (r: BasicMeta)
    ensures
        r.file_name@ == (if spec_file_name(path@).len() == 0 {
            "unknown"@
        } else {
            spec_file_name(path@)
        }),
        r.file_path@ == path@,
        r.format@ == format@,
        r.width == width,
        r.height == height,
        r.file_size == file_size,
        r.color_type == color_type,
{
    let name = file_name_of(path);
    let file_name = if name.unicode_len() == 0 {
        String::from_str("unknown")
    } else {
        String::from_str(name)
    };
    BasicMeta {
        file_name,
        file_path: String::from_str(path),
        format: String::from_str(format),
        width,
        height,
        file_size,
        color_type,
    }
}

/// Context code for TIFF-level tags in the wrappers below.
pub const CTX_TIFF: u8 = 0;

/// Context code for Exif-IFD tags in the wrappers below.
pub const CTX_EXIF: u8 = 1;

/// Context code for GPS tags in the wrappers below.
pub const CTX_GPS: u8 = 2;

/// Tag number of the camera make.
pub const TAG_MAKE: u16 = 0x010f;

/// Tag number of the camera model.
pub const TAG_MODEL: u16 = 0x0110;

/// Tag number of the file-change date and time.
pub const TAG_DATETIME: u16 = 0x0132;

/// Tag number of the original date and time.
pub const TAG_DATETIME_ORIGINAL: u16 = 0x9003;

/// Tag number of the exposure time.
pub const TAG_EXPOSURE_TIME: u16 = 0x829a;

/// Tag number of the F number.
pub const TAG_F_NUMBER: u16 = 0x829d;

/// Tag number of the photographic sensitivity (ISO).
pub const TAG_SENSITIVITY: u16 = 0x8827;

/// Tag number of the focal length.
pub const TAG_FOCAL_LENGTH: u16 = 0x920a;

/// Tag number of the latitude reference (N/S).
pub const TAG_GPS_LAT_REF: u16 = 0x0001;

/// Tag number of the latitude.
pub const TAG_GPS_LAT: u16 = 0x0002;

/// Tag number of the longitude reference (E/W).
pub const TAG_GPS_LON_REF: u16 = 0x0003;

/// Tag number of the longitude.
pub const TAG_GPS_LON: u16 = 0x0004;

/// Whether the `exif` crate finds an EXIF block in the bytes. A function
/// of the bytes alone.
pub uninterp spec fn spec_exif_parses(data: Seq<u8>) -> bool;

/// The display text of the EXIF field with the given context code and tag
/// number in the bytes, if the field exists. A function of the inputs
/// alone.
pub uninterp spec fn spec_exif_text(data: Seq<u8>, context: u8, tag: u16) -> Option<Seq<char>>;

/// The first 16-bit value of the EXIF field with the given context code
/// and tag number, if the field exists and is of short type. A function
/// of the inputs alone.
pub uninterp spec fn spec_exif_short(data: Seq<u8>, context: u8, tag: u16) -> Option<u16>;

/// The rational values (numerator, denominator) of the EXIF field with
/// the given context code and tag number, if the field exists and is of
/// rational type. A function of the inputs alone.
pub uninterp spec fn spec_exif_rationals(data: Seq<u8>, context: u8, tag: u16) -> Option<
    Seq<(u32, u32)>,
>;

/// Relies on `exif::Reader::read_from_container`: whether the bytes hold
/// a parsable EXIF block.
#[verifier::external_body]
fn exif_parses(data: &Vec<u8>) -> (r: bool)
    ensures
        r == spec_exif_parses(data@),
{
    exif::Reader::new().read_from_container(&mut std::io::Cursor::new(data.as_slice())).is_ok()
}

/// Relies on `exif::Reader::read_from_container`, `Exif::get_field` and
/// `Field::display_value`: the display text of one field of the primary
/// image, a function of the bytes, context and tag alone.
#[verifier::external_body]
fn exif_field_text(data: &Vec<u8>, context: u8, tag: u16) -> (r: Option<String>)
    ensures
        (r matches Some(s) ==> spec_exif_text(data@, context, tag) == Some(s@)),
        r is None <==> spec_exif_text(data@, context, tag) is None,
{
    let ctx = if context == 0 {
        exif::Context::Tiff
    } else if context == 1 {
        exif::Context::Exif
    } else {
        exif::Context::Gps
    };
    let reader = exif::Reader::new();
    let parsed = reader.read_from_container(&mut std::io::Cursor::new(data.as_slice())).ok()?;
    let field = parsed.get_field(exif::Tag(ctx, tag), exif::In::PRIMARY)?;
    Some(field.display_value().to_string())
}

/// Relies on the same `exif` calls as `exif_field_text`: the first value
/// of one short-typed field of the primary image.
#[verifier::external_body]
fn exif_field_short(data: &Vec<u8>, context: u8, tag: u16) -> (r: Option<u16>)
    ensures
        r == spec_exif_short(data@, context, tag),
{
    let ctx = if context == 0 {
        exif::Context::Tiff
    } else if context == 1 {
        exif::Context::Exif
    } else {
        exif::Context::Gps
    };
    let reader = exif::Reader::new();
    let parsed = reader.read_from_container(&mut std::io::Cursor::new(data.as_slice())).ok()?;
    let field = parsed.get_field(exif::Tag(ctx, tag), exif::In::PRIMARY)?;
    match field.value {
        exif::Value::Short(ref v) => v.first().copied(),
        _ => None,
    }
}

/// Relies on the same `exif` calls as `exif_field_text`: the rational
/// values of one rational-typed field of the primary image, each as a
/// (numerator, denominator) pair.
#[verifier::external_body]
fn exif_field_rationals(data: &Vec<u8>, context: u8, tag: u16) -> (r: Option<Vec<(u32, u32)>>)
    ensures
        (r matches Some(v) ==> spec_exif_rationals(data@, context, tag) == Some(v@)),
        r is None <==> spec_exif_rationals(data@, context, tag) is None,
{
    let ctx = if context == 0 {
        exif::Context::Tiff
    } else if context == 1 {
        exif::Context::Exif
    } else {
        exif::Context::Gps
    };
    let reader = exif::Reader::new();
    let parsed = reader.read_from_container(&mut std::io::Cursor::new(data.as_slice())).ok()?;
    let field = parsed.get_field(exif::Tag(ctx, tag), exif::In::PRIMARY)?;
    match field.value {
        exif::Value::Rational(ref v) => Some(v.iter().map(|x| (x.num, x.denom)).collect()),
        _ => None,
    }
}

/// The coordinate encoded by a degree/minute/second rational triple, in
/// hundred-thousandths of a degree, each term truncating: nothing when
/// fewer than three rationals are present or any denominator is zero.
pub open spec fn spec_dms_to_coord(rats: Seq<(u32, u32)>) -> Option<i64> {
    if rats.len() < 3 {
        None
    } else {
        let d = rats[0];
        let m = rats[1];
        let s = rats[2];
        if d.1 == 0 || m.1 == 0 || s.1 == 0 {
            None
        } else {
            Some(
                ((d.0 * 100000) / (d.1 as int) + (m.0 * 100000) / (m.1 * MINUTES_PER_DEGREE) + (
                s.0 * 100000) / (s.1 * SECONDS_PER_DEGREE)) as i64,
            )
        }
    }
}

/// The signed GPS coordinate of a coordinate tag and its reference tag:
/// the magnitude from the degree/minute/second rationals, negated when
/// the reference letter is south or west.
pub open spec fn spec_gps_coord(data: Seq<u8>, context: u8, coord_tag: u16, ref_tag: u16) -> Option<
    i64,
> {
    match spec_exif_rationals(data, context, coord_tag) {
        None => None,
        Some(rats) => match spec_dms_to_coord(rats) {
            None => None,
            Some(mag) => {
                let negative = match spec_exif_text(data, context, ref_tag) {
                    Some(t) => t.contains('S') || t.contains('W'),
                    None => false,
                };
                if negative {
                    Some((-mag) as i64)
                } else {
                    Some(mag)
                }
            },
        },
    }
}

/// Convert a degree/minute/second rational triple to hundred-thousandths
/// of a degree.
fn dms_to_coord(rats: &Vec<(u32, u32)>) -> (r: Option<i64>)
    ensures
        r == spec_dms_to_coord(rats@),
{
    if rats.len() < 3 {
        return None;
    }
    let d = rats[0];
    let m = rats[1];
    let s = rats[2];
    if d.1 == 0 || m.1 == 0 || s.1 == 0 {
        return None;
    }
    proof {
        lemma_quotient_le_numerator((d.0 as int) * 100000, d.1 as int);
        lemma_quotient_le_numerator((m.0 as int) * 100000, (m.1 as int) * MINUTES_PER_DEGREE);
        lemma_quotient_le_numerator((s.0 as int) * 100000, (s.1 as int) * SECONDS_PER_DEGREE);
    }
    let dd: u64 = (d.0 as u64) * 100000 / (d.1 as u64);
    let mm: u64 = (m.0 as u64) * 100000 / ((m.1 as u64) * MINUTES_PER_DEGREE);
    let ss: u64 = (s.0 as u64) * 100000 / ((s.1 as u64) * SECONDS_PER_DEGREE);
    Some((dd + mm + ss) as i64)
}

/// For a non-negative numerator and a positive divisor, the quotient is
/// at most the numerator.
proof fn lemma_quotient_le_numerator(a: int, b: int)
    requires
        0 <= a,
        1 <= b,
    ensures
        0 <= a / b <= a,
{
    vstd::arithmetic::div_mod::lemma_div_is_ordered_by_denominator(a, 1, b);
    vstd::arithmetic::div_mod::lemma_div_basics(a);
    vstd::arithmetic::div_mod::lemma_div_pos_is_pos(a, b);
}


/// Whether a string holds a character.
fn contains_char(s: &str, c: char) -> (r: bool)
    ensures
        r == s@.contains(c),
{
    let n = s.unicode_len();
    let mut i: usize = 0;
    while i < n
        invariant
            i <= n,
            n == s@.len(),
            forall|j: int| 0 <= j < i ==> s@[j] != c,
        decreases n - i,
    {
        if s.get_char(i) == c {
            return true;
        }
        i += 1;
    }
    proof {
        assert(forall|j: int| 0 <= j < s@.len() ==> s@[j] != c);
        if s@.contains(c) {
            let j = choose|j: int| 0 <= j < s@.len() && s@[j] == c;
        }
    }
    false
}

/// Extract a GPS coordinate (latitude or longitude) from the raw bytes:
/// the degree/minute/second rationals of the coordinate tag, negated when
/// the reference tag names south or west.
pub fn extract_gps_coord(data: &Vec<u8>, coord_tag: u16, ref_tag: u16) -> (r: Option<i64>)
    ensures
        r == spec_gps_coord(data@, CTX_GPS, coord_tag, ref_tag),
{
    let rats = match exif_field_rationals(data, CTX_GPS, coord_tag) {
        Some(v) => v,
        None => {
            return None;
        },
    };
    let mag = match dms_to_coord(&rats) {
        Some(v) => v,
        None => {
            return None;
        },
    };
    let negative = match exif_field_text(data, CTX_GPS, ref_tag) {
        Some(t) => contains_char(t.as_str(), 'S') || contains_char(t.as_str(), 'W'),
        None => false,
    };
    if negative {
        if mag == i64::MIN {
            Some(i64::MIN)
        } else {
            Some(-mag)
        }
    } else {
        Some(mag)
    }
}

/// Extract EXIF metadata from raw file bytes: present exactly when the
/// bytes hold a parsable EXIF block. The date falls back from the
/// original capture time to the file-change time; the F number is
/// prefixed "f/"; the ISO value is the first short of the sensitivity
/// field; GPS coordinates come signed from their reference tags.
pub fn extract_exif_from_bytes(data: &Vec<u8>) -> (r: Option<ExifMeta>)
    ensures
        r is Some <==> spec_exif_parses(data@),
        (r matches Some(m) ==> {
            let opt_text = |o: Option<String>, t: Option<Seq<char>>|
                match o {
                    Some(s) => t == Some(s@),
                    None => t is None,
                };
            &&& opt_text(m.camera_make, spec_exif_text(data@, CTX_TIFF, TAG_MAKE))
            &&& opt_text(m.camera_model, spec_exif_text(data@, CTX_TIFF, TAG_MODEL))
            &&& opt_text(
                m.date_time,
                (if spec_exif_text(data@, CTX_EXIF, TAG_DATETIME_ORIGINAL) is Some {
                    spec_exif_text(data@, CTX_EXIF, TAG_DATETIME_ORIGINAL)
                } else {
                    spec_exif_text(data@, CTX_TIFF, TAG_DATETIME)
                }),
            )
            &&& opt_text(m.exposure_time, spec_exif_text(data@, CTX_EXIF, TAG_EXPOSURE_TIME))
            &&& (match (m.f_number, spec_exif_text(data@, CTX_EXIF, TAG_F_NUMBER)) {
                (Some(s), Some(t)) => s@ == "f/"@ + t,
                (None, None) => true,
                _ => false,
            })
            &&& m.iso == (match spec_exif_short(data@, CTX_EXIF, TAG_SENSITIVITY) {
                Some(v) => Some(v as u32),
                None => None::<u32>,
            })
            &&& opt_text(m.focal_length, spec_exif_text(data@, CTX_EXIF, TAG_FOCAL_LENGTH))
            &&& m.gps_latitude == spec_gps_coord(data@, CTX_GPS, TAG_GPS_LAT, TAG_GPS_LAT_REF)
            &&& m.gps_longitude == spec_gps_coord(data@, CTX_GPS, TAG_GPS_LON, TAG_GPS_LON_REF)
        }),
{
    if !exif_parses(data) {
        return None;
    }
    let date_time = match exif_field_text(data, CTX_EXIF, TAG_DATETIME_ORIGINAL) {
        Some(t) => Some(t),
        None => exif_field_text(data, CTX_TIFF, TAG_DATETIME),
    };
    let f_number = match exif_field_text(data, CTX_EXIF, TAG_F_NUMBER) {
        Some(t) => {
            let mut s = String::from_str("f/");
            s.append(t.as_str());
            Some(s)
        },
        None => None,
    };
    let iso: Option<u32> = match exif_field_short(data, CTX_EXIF, TAG_SENSITIVITY) {
        Some(v) => Some(v as u32),
        None => None,
    };
    Some(
        ExifMeta {
            camera_make: exif_field_text(data, CTX_TIFF, TAG_MAKE),
            camera_model: exif_field_text(data, CTX_TIFF, TAG_MODEL),
            date_time,
            exposure_time: exif_field_text(data, CTX_EXIF, TAG_EXPOSURE_TIME),
            f_number,
            iso,
            focal_length: exif_field_text(data, CTX_EXIF, TAG_FOCAL_LENGTH),
            gps_latitude: extract_gps_coord(data, TAG_GPS_LAT, TAG_GPS_LAT_REF),
            gps_longitude: extract_gps_coord(data, TAG_GPS_LON, TAG_GPS_LON_REF),
        },
    )
}


/// The colour layout of a decoded image, as the `image` crate reports it.
#[derive(Debug, Clone, Copy, PartialEq, Eq, Structural)]
pub enum ColorKind {
    Luma8,
    LumaA8,
    Rgb8,
    Rgba8,
    Luma16,
    LumaA16,
    Rgb16,
    Rgba16,
    Rgb32F,
    Rgba32F,
    Other,
}

/// A numeric code for each colour kind, used to name the decoder's
/// result.
pub open spec fn color_code(k: ColorKind) -> u8 {
    match k {
        ColorKind::Luma8 => 0,
        ColorKind::LumaA8 => 1,
        ColorKind::Rgb8 => 2,
        ColorKind::Rgba8 => 3,
        ColorKind::Luma16 => 4,
        ColorKind::LumaA16 => 5,
        ColorKind::Rgb16 => 6,
        ColorKind::Rgba16 => 7,
        ColorKind::Rgb32F => 8,
        ColorKind::Rgba32F => 9,
        ColorKind::Other => 10,
    }
}

/// The colour-kind code of the image the `image` crate decodes from the
/// bytes, if they decode. A function of the bytes alone.
pub uninterp spec fn spec_image_color_code(data: Seq<u8>) -> Option<u8>;

/// Relies on `image::load_from_memory`: the variant of the decoded
/// `DynamicImage`, a function of the bytes alone; `None` exactly when the
/// bytes do not decode.
#[verifier::external_body]
fn color_kind_of(data: &Vec<u8>) -> (r: Option<ColorKind>)
    ensures
        (r matches Some(k) ==> spec_image_color_code(data@) == Some(color_code(k))),
        r is None <==> spec_image_color_code(data@) is None,
{
    let img = image::load_from_memory(data).ok()?;
    Some(match img {
        image::DynamicImage::ImageLuma8(_) => ColorKind::Luma8,
        image::DynamicImage::ImageLumaA8(_) => ColorKind::LumaA8,
        image::DynamicImage::ImageRgb8(_) => ColorKind::Rgb8,
        image::DynamicImage::ImageRgba8(_) => ColorKind::Rgba8,
        image::DynamicImage::ImageLuma16(_) => ColorKind::Luma16,
        image::DynamicImage::ImageLumaA16(_) => ColorKind::LumaA16,
        image::DynamicImage::ImageRgb16(_) => ColorKind::Rgb16,
        image::DynamicImage::ImageRgba16(_) => ColorKind::Rgba16,
        image::DynamicImage::ImageRgb32F(_) => ColorKind::Rgb32F,
        image::DynamicImage::ImageRgba32F(_) => ColorKind::Rgba32F,
        _ => ColorKind::Other,
    })
}

/// The display string of a colour kind.
pub open spec fn spec_color_type_string(k: ColorKind) -> Seq<char> {
    match k {
        ColorKind::Luma8 => "Grayscale 8-bit"@,
        ColorKind::LumaA8 => "Grayscale+Alpha 8-bit"@,
        ColorKind::Rgb8 => "RGB 8-bit"@,
        ColorKind::Rgba8 => "RGBA 8-bit"@,
        ColorKind::Luma16 => "Grayscale 16-bit"@,
        ColorKind::LumaA16 => "Grayscale+Alpha 16-bit"@,
        ColorKind::Rgb16 => "RGB 16-bit"@,
        ColorKind::Rgba16 => "RGBA 16-bit"@,
        ColorKind::Rgb32F => "RGB 32-bit float"@,
        ColorKind::Rgba32F => "RGBA 32-bit float"@,
        ColorKind::Other => "Unknown"@,
    }
}

/// Determine the colour type display string for a colour kind.
pub fn color_type_string(k: ColorKind) -> (r: String)
    ensures
        r@ == spec_color_type_string(k),
{
    match k {
        ColorKind::Luma8 => String::from_str("Grayscale 8-bit"),
        ColorKind::LumaA8 => String::from_str("Grayscale+Alpha 8-bit"),
        ColorKind::Rgb8 => String::from_str("RGB 8-bit"),
        ColorKind::Rgba8 => String::from_str("RGBA 8-bit"),
        ColorKind::Luma16 => String::from_str("Grayscale 16-bit"),
        ColorKind::LumaA16 => String::from_str("Grayscale+Alpha 16-bit"),
        ColorKind::Rgb16 => String::from_str("RGB 16-bit"),
        ColorKind::Rgba16 => String::from_str("RGBA 16-bit"),
        ColorKind::Rgb32F => String::from_str("RGB 32-bit float"),
        ColorKind::Rgba32F => String::from_str("RGBA 32-bit float"),
        ColorKind::Other => String::from_str("Unknown"),
    }
}

/// The colour kind a code names: the inverse of [`color_code`].
pub open spec fn kind_of_code(c: int) -> ColorKind {
    if c == 0 {
        ColorKind::Luma8
    } else if c == 1 {
        ColorKind::LumaA8
    } else if c == 2 {
        ColorKind::Rgb8
    } else if c == 3 {
        ColorKind::Rgba8
    } else if c == 4 {
        ColorKind::Luma16
    } else if c == 5 {
        ColorKind::LumaA16
    } else if c == 6 {
        ColorKind::Rgb16
    } else if c == 7 {
        ColorKind::Rgba16
    } else if c == 8 {
        ColorKind::Rgb32F
    } else if c == 9 {
        ColorKind::Rgba32F
    } else {
        ColorKind::Other
    }
}

/// The colour-type label shown for a decode's colour code: the kind's
/// display string, or "Unknown" when the bytes do not decode.
pub open spec fn spec_color_type_display(code: Option<u8>) -> Seq<char> {
    match code {
        Some(c) => spec_color_type_string(kind_of_code(c as int)),
        None => "Unknown"@,
    }
}

/// The uppercase rendering of a string, as `str::to_uppercase` computes
/// it. A function of the characters alone.
pub uninterp spec fn spec_upper(s: Seq<char>) -> Seq<char>;

/// Relies on `str::to_uppercase`: the result depends on the characters
/// alone, and an empty string stays empty.
#[verifier::external_body]
fn uppercase(s: &str) -> (r: String)
    ensures
        r@ == spec_upper(s@),
        s@.len() == 0 ==> r@.len() == 0,
{
    s.to_uppercase()
}

/// The format label derived from a path's extension: the extension
/// uppercased, or "Unknown" when there is none.
pub open spec fn spec_format_from_extension(p: Seq<char>) -> Seq<char> {
    match spec_extension(p) {
        Some(e) => spec_upper(e),
        None => "Unknown"@,
    }
}

/// Determine format string from file extension.
pub fn format_from_extension(path: &str) -> (r: String)
    ensures
        r@ == spec_format_from_extension(path@),
{
    match crate::document::extension_of(path) {
        Some(e) => uppercase(e),
        None => String::from_str("Unknown"),
    }
}

/// Build metadata for a raster document from its path, its raw bytes and
/// its native dimensions: the format from the extension, the colour type
/// from the decoded variant, and the EXIF block when the bytes hold one.
pub fn build_raster_meta(path: &str, data: &Vec<u8>, width: u32, height: u32, file_size: u64) -> (
    r: DocumentMeta)
    ensures
        r.basic.format@ == spec_format_from_extension(path@),
        r.basic.width == width,
        r.basic.height == height,
        r.basic.file_size == file_size,
        r.basic.file_path@ == path@,
        r.basic.file_name@ == (if spec_file_name(path@).len() == 0 {
            "unknown"@
        } else {
            spec_file_name(path@)
        }),
        r.basic.color_type@ == spec_color_type_display(spec_image_color_code(data@)),
        r.exif is Some <==> spec_exif_parses(data@),
{
    let format = format_from_extension(path);
    let color_type = match color_kind_of(data) {
        Some(k) => {
            proof {
                assert(kind_of_code(color_code(k) as int) == k);
            }
            color_type_string(k)
        },
        None => String::from_str("Unknown"),
    };
    let basic = extract_basic_meta(path, width, height, format.as_str(), color_type, file_size);
    let exif = extract_exif_from_bytes(data);
    DocumentMeta { basic, exif }
}

/// Build metadata for a vector document.
pub fn build_vector_meta(path: &str, width: u32, height: u32, file_size: u64) -> (r: DocumentMeta)
    ensures
        r.basic.format@ == "SVG"@,
        r.basic.color_type@ == "Vector"@,
        r.basic.width == width,
        r.basic.height == height,
        r.basic.file_size == file_size,
        r.basic.file_path@ == path@,
        r.basic.file_name@ == (if spec_file_name(path@).len() == 0 {
            "unknown"@
        } else {
            spec_file_name(path@)
        }),
        r.exif is None,
{
    let basic = extract_basic_meta(
        path,
        width,
        height,
        "SVG",
        String::from_str("Vector"),
        file_size,
    );
    DocumentMeta { basic, exif: None }
}

/// Build metadata for a portable document: the format label carries the
/// page count.
pub fn build_portable_meta(path: &str, width: u32, height: u32, page_count: u32, file_size: u64)
    -> (r: DocumentMeta)
    ensures
        r.basic.format@ == "PDF ("@ + spec_dec(page_count as int) + " pages)"@,
        r.basic.color_type@ == "Rendered"@,
        r.basic.width == width,
        r.basic.height == height,
        r.basic.file_size == file_size,
        r.basic.file_path@ == path@,
        r.basic.file_name@ == (if spec_file_name(path@).len() == 0 {
            "unknown"@
        } else {
            spec_file_name(path@)
        }),
        r.exif is None,
{
    let mut format = String::from_str("PDF (");
    let count = u64_to_string(page_count as u64);
    format.append(count.as_str());
    format.append(" pages)");
    let basic = extract_basic_meta(
        path,
        width,
        height,
        format.as_str(),
        String::from_str("Rendered"),
        file_size,
    );
    DocumentMeta { basic, exif: None }
}


} // verus!
