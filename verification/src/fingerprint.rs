//! Content fingerprints for the thumbnail cache.
//!
//! A cached thumbnail is addressed by a fingerprint of the source file's
//! path, its modification time in seconds, and the page index: the three are
//! serialised into one byte message (path bytes, then each number as eight
//! little-endian bytes), hashed with SHA-256, and written as lowercase hex.
//! Freshness is encoded entirely in the fingerprint: editing the file
//! changes its modification time, which changes the message and thereby the
//! cache key.

use vstd::prelude::*;
use vstd::bytes::{lemma_auto_spec_u64_to_from_le_bytes, spec_u64_to_le_bytes, u64_to_le_bytes};
use vstd::string::{StrSliceExecFns, StringExecFns, StringSliceAdditionalSpecFns};
use sha2::Digest;

verus! {

/// The SHA-256 digest of a byte message, as the `sha2` crate computes it.
/// A function of the message alone; stating the algorithm itself is neither
/// possible nor useful here, so only its output length is pinned down by the
/// wrapper below.
pub uninterp spec fn spec_sha256(msg: Seq<u8>) -> Seq<u8>;

/// Relies on `sha2::Sha256` through the `Digest` trait: the digest depends
/// on the input bytes alone and is exactly 32 bytes long.
#[verifier::external_body]
fn sha256_digest(msg: &Vec<u8>) -> (r: Vec<u8>)
    ensures
        r@ == spec_sha256(msg@),
        r@.len() == 32,
{
    sha2::Sha256::digest(msg).to_vec()
}

/// The lowercase hex character for a nibble value.
pub open spec fn hex_digit_char(d: int) -> char {
    if d == 0 {
        '0'
    } else if d == 1 {
        '1'
    } else if d == 2 {
        '2'
    } else if d == 3 {
        '3'
    } else if d == 4 {
        '4'
    } else if d == 5 {
        '5'
    } else if d == 6 {
        '6'
    } else if d == 7 {
        '7'
    } else if d == 8 {
        '8'
    } else if d == 9 {
        '9'
    } else if d == 10 {
        'a'
    } else if d == 11 {
        'b'
    } else if d == 12 {
        'c'
    } else if d == 13 {
        'd'
    } else if d == 14 {
        'e'
    } else {
        'f'
    }
}

/// The lowercase hex rendering of a byte sequence: two characters per byte,
/// high nibble first.
pub open spec fn spec_hex(bytes: Seq<u8>) -> Seq<char> {
    Seq::new(
        2 * bytes.len(),
        |i: int|
            if i % 2 == 0 {
                hex_digit_char((bytes[i / 2] / 16) as int)
            } else {
                hex_digit_char((bytes[i / 2] % 16) as int)
            },
    )
}

/// One lowercase hex character for a nibble.
pub(crate) fn hex_digit_str(d: u8) -> (r: &'static str)
    requires
        d < 16,
    ensures
        r@.len() == 1,
        r@[0] == hex_digit_char(d as int),
{
    proof {
        reveal_strlit("0");
        reveal_strlit("1");
        reveal_strlit("2");
        reveal_strlit("3");
        reveal_strlit("4");
        reveal_strlit("5");
        reveal_strlit("6");
        reveal_strlit("7");
        reveal_strlit("8");
        reveal_strlit("9");
        reveal_strlit("a");
        reveal_strlit("b");
        reveal_strlit("c");
        reveal_strlit("d");
        reveal_strlit("e");
        reveal_strlit("f");
    }
    match d {
        0 => "0",
        1 => "1",
        2 => "2",
        3 => "3",
        4 => "4",
        5 => "5",
        6 => "6",
        7 => "7",
        8 => "8",
        9 => "9",
        10 => "a",
        11 => "b",
        12 => "c",
        13 => "d",
        14 => "e",
        _ => "f",
    }
}

/// Render a byte buffer as lowercase hex, two characters per byte.
pub fn to_hex(bytes: &Vec<u8>) -> (r: String)
    ensures
        r@ == spec_hex(bytes@),
{
    let mut out = String::new();
    let mut i: usize = 0;
    while i < bytes.len()
        invariant
            i <= bytes@.len(),
            out@ == spec_hex(bytes@).take(2 * i as int),
        decreases bytes@.len() - i,
    {
        let b = bytes[i];
        let hi = hex_digit_str(b / 16);
        let lo = hex_digit_str(b % 16);
        out.append(hi);
        out.append(lo);
        proof {
            assert(spec_hex(bytes@).take(2 * (i + 1) as int) =~= spec_hex(bytes@).take(
                2 * i as int,
            ) + hi@ + lo@);
        }
        i += 1;
    }
    proof {
        assert(spec_hex(bytes@).take(2 * bytes@.len() as int) =~= spec_hex(bytes@));
    }
    out
}

/// The byte message that identifies a (path, modification time, page)
/// triple: the path bytes followed by the two numbers, each as eight
/// little-endian bytes.
pub open spec fn spec_fingerprint_message(path_bytes: Seq<u8>, mtime: u64, page: u64) -> Seq<u8> {
    path_bytes + spec_u64_to_le_bytes(mtime) + spec_u64_to_le_bytes(page)
}

/// Serialise the identity of a (path, modification time, page) triple.
pub fn fingerprint_message(path: &str, mtime: u64, page: u64) -> (r: Vec<u8>)
    ensures
        r@ == spec_fingerprint_message(path.spec_bytes(), mtime, page),
{
    let mut msg = path.as_bytes_vec();
    let mut mtime_bytes = u64_to_le_bytes(mtime);
    let mut page_bytes = u64_to_le_bytes(page);
    msg.append(&mut mtime_bytes);
    msg.append(&mut page_bytes);
    msg
}

/// The cache key of a (path, modification time, page) triple: the SHA-256
/// digest of its fingerprint message, in lowercase hex.
pub open spec fn spec_cache_key(path_bytes: Seq<u8>, mtime: u64, page: u64) -> Seq<char> {
    spec_hex(spec_sha256(spec_fingerprint_message(path_bytes, mtime, page)))
}

/// Generate a cache key from file path, modification time, and page
/// number: sixty-four lowercase hex characters.
pub fn cache_key(path: &str, mtime: u64, page: usize) -> (r: String)
    ensures
        r@ == spec_cache_key(path.spec_bytes(), mtime, page as u64),
        r@.len() == 64,
{
    let msg = fingerprint_message(path, mtime, page as u64);
    let digest = sha256_digest(&msg);
    to_hex(&digest)
}

/// The file name under which a thumbnail for the triple is stored: the
/// cache key with the fixed thumbnail extension.
pub open spec fn spec_thumbnail_path(path_bytes: Seq<u8>, mtime: u64, page: u64) -> Seq<char> {
    spec_cache_key(path_bytes, mtime, page) + ".png"@
}

/// Get the file name for a cached thumbnail.
pub fn thumbnail_path(path: &str, mtime: u64, page: usize) -> (r: String)
    ensures
        r@ == spec_thumbnail_path(path.spec_bytes(), mtime, page as u64),
{
    let mut name = cache_key(path, mtime, page);
    name.append(".png");
    name
}

/// Determinism half of the fingerprint law: the cache key is a function of
/// the (path, modification time, page) triple and of nothing else, so equal
/// triples always yield equal keys.
pub proof fn lemma_fingerprint_deterministic(
    pb1: Seq<u8>,
    m1: u64,
    p1: u64,
    pb2: Seq<u8>,
    m2: u64,
    p2: u64,
)
    requires
        pb1 == pb2,
        m1 == m2,
        p1 == p2,
    ensures
        spec_cache_key(pb1, m1, p1) == spec_cache_key(pb2, m2, p2),
{
}

/// Separation half of the fingerprint law, up to the hash: for one path,
/// changing the modification time or the page index always changes the
/// message that is hashed. (That distinct messages get distinct digests is
/// the collision resistance of SHA-256, which no proof here can supply.)
pub proof fn lemma_fingerprint_message_injective(pb: Seq<u8>, m1: u64, p1: u64, m2: u64, p2: u64)
    requires
        m1 != m2 || p1 != p2,
    ensures
        spec_fingerprint_message(pb, m1, p1) != spec_fingerprint_message(pb, m2, p2),
{
    lemma_auto_spec_u64_to_from_le_bytes();
    let a = spec_fingerprint_message(pb, m1, p1);
    let b = spec_fingerprint_message(pb, m2, p2);
    let n = pb.len() as int;
    if a == b {
        assert(a.subrange(n, n + 8) =~= spec_u64_to_le_bytes(m1));
        assert(b.subrange(n, n + 8) =~= spec_u64_to_le_bytes(m2));
        assert(a.subrange(n + 8, n + 16) =~= spec_u64_to_le_bytes(p1));
        assert(b.subrange(n + 8, n + 16) =~= spec_u64_to_le_bytes(p2));
        assert(m1 == m2);
        assert(p1 == p2);
        assert(false);
    }
}

} // verus!
