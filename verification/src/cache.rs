//! The thumbnail cache: compressed previews addressed by content
//! fingerprint.
//!
//! The cache holds, per fingerprint key, the PNG bytes of a previously
//! rendered thumbnail. A lookup misses when the key is absent or when the
//! stored bytes fail to decode; a decode failure is never fatal, only a
//! miss, so the next save overwrites the corrupt entry. Persisting the
//! entries to disk (one file per key) and reading them back is the owning
//! application's concern; the contracts here describe the cache's contents
//! as a map from key to bytes.

use vstd::prelude::*;

use crate::codec::{decode_image, encode_png, spec_image_decode, spec_png_encode};
use crate::surface::Surface;

verus! {

/// The map described by a list of (key, bytes) entries, later entries
/// winning.
pub open spec fn entries_map(s: Seq<(String, Vec<u8>)>) -> Map<Seq<char>, Seq<u8>>
    decreases s.len(),
{
    if s.len() == 0 {
        Map::empty()
    } else {
        entries_map(s.drop_last()).insert(s.last().0@, s.last().1@)
    }
}

/// Whether the keys of the entry list are pairwise distinct.
pub open spec fn entries_unique(s: Seq<(String, Vec<u8>)>) -> bool {
    forall|i: int, j: int| 0 <= i < j < s.len() ==> s[i].0@ != s[j].0@
}

/// A key is in the entry map exactly when some entry carries it.
proof fn lemma_entries_map_domain(s: Seq<(String, Vec<u8>)>, k: Seq<char>)
    ensures
        entries_map(s).contains_key(k) <==> exists|i: int| 0 <= i < s.len() && s[i].0@ == k,
    decreases s.len(),
{
    if s.len() > 0 {
        lemma_entries_map_domain(s.drop_last(), k);
        if s.last().0@ == k {
            assert(s[s.len() - 1].0@ == k);
        } else if entries_map(s).contains_key(k) {
            let i = choose|i: int| 0 <= i < s.drop_last().len() && s.drop_last()[i].0@ == k;
            assert(s[i].0@ == k);
        } else {
            assert forall|i: int| 0 <= i < s.len() implies s[i].0@ != k by {
                if i < s.len() - 1 {
                    assert(s.drop_last()[i].0@ == s[i].0@);
                }
            }
        }
    }
}

/// With pairwise distinct keys, the map's value for an entry's key is that
/// entry's bytes.
proof fn lemma_entries_map_index(s: Seq<(String, Vec<u8>)>, i: int)
    requires
        entries_unique(s),
        0 <= i < s.len(),
    ensures
        entries_map(s).contains_key(s[i].0@),
        entries_map(s)[s[i].0@] == s[i].1@,
    decreases s.len(),
{
    lemma_entries_map_domain(s, s[i].0@);
    if i < s.len() - 1 {
        assert(entries_unique(s.drop_last()));
        assert(s.drop_last()[i] == s[i]);
        lemma_entries_map_index(s.drop_last(), i);
    }
}

/// What a lookup in the cache model yields for a key: the decoded surface
/// of the stored bytes when the key is present and its bytes decode, and
/// nothing otherwise.
pub open spec fn spec_cache_lookup(m: Map<Seq<char>, Seq<u8>>, k: Seq<char>) -> Option<
    (u32, u32, Seq<u8>),
> {
    if m.contains_key(k) {
        spec_image_decode(m[k])
    } else {
        None
    }
}

/// Disk cache for document thumbnails, keyed by content fingerprint.
pub struct ThumbnailCache {
    entries: Vec<(String, Vec<u8>)>,
}

impl ThumbnailCache {
    /// The cache's contents: a map from fingerprint key to stored PNG
    /// bytes.
    pub closed spec fn view(&self) -> Map<Seq<char>, Seq<u8>> {
        entries_map(self.entries@)
    }

    /// Internal invariant: one entry per key.
    pub closed spec fn wf(&self) -> bool {
        entries_unique(self.entries@)
    }

    /// An empty cache.
    pub fn new() -> (r: ThumbnailCache)
        ensures
            r.wf(),
            r@ == Map::<Seq<char>, Seq<u8>>::empty(),
    {
        ThumbnailCache { entries: Vec::new() }
    }

    /// Position of the entry carrying the key, if any.
    fn find(&self, key: &String) -> (r: Option<usize>)
        requires
            self.wf(),
        ensures
            (r matches Some(i) ==> i < self.entries@.len() && self.entries@[i as int].0@ == key@
                && self@.contains_key(key@) && self@[key@] == self.entries@[i as int].1@),
            r is None ==> !self@.contains_key(key@),
    {
        let mut i: usize = 0;
        while i < self.entries.len()
            invariant
                self.wf(),
                i <= self.entries@.len(),
                forall|j: int| 0 <= j < i ==> self.entries@[j].0@ != key@,
            decreases self.entries@.len() - i,
        {
            if self.entries[i].0.eq(key) {
                proof {
                    lemma_entries_map_index(self.entries@, i as int);
                }
                return Some(i);
            }
            i += 1;
        }
        proof {
            lemma_entries_map_domain(self.entries@, key@);
        }
        None
    }

    /// Check if a thumbnail is stored under the key.
    pub fn has_thumbnail(&self, key: &String) -> (r: bool)
        requires
            self.wf(),
        ensures
            r == self@.contains_key(key@),
    {
        self.find(key).is_some()
    }

    /// Save a thumbnail: encode the surface as PNG and store it under the
    /// key, replacing any previous entry. After the save, a lookup of the
    /// key yields exactly the saved pixels.
    pub fn save_thumbnail(&mut self, key: &String, img: &Surface)
        requires
            old(self).wf(),
            img.wf(),
            img.width > 0,
            img.height > 0,
            4 * (img.width as int) * (img.height as int) <= 0x20000000,
        ensures
            final(self).wf(),
            final(self)@ == old(self)@.insert(
                key@,
                spec_png_encode(img.width, img.height, img.pixels@),
            ),
            spec_cache_lookup(final(self)@, key@) == Some((img.width, img.height, img.pixels@)),
    {
        let bytes = encode_png(img);
        let new_entry = (key.clone(), bytes);
        match self.find(key) {
            Some(i) => {
                proof {
                    let s = self.entries@;
                    let t = s.update(i as int, new_entry);
                    assert(entries_unique(t)) by {
                        assert forall|a: int, b: int| 0 <= a < b < t.len() implies t[a].0@
                            != t[b].0@ by {
                            if a != i && b != i {
                                assert(t[a] == s[a] && t[b] == s[b]);
                            }
                        }
                    }
                }
                self.entries.set(i, new_entry);
                proof {
                    lemma_update_keeps_map(
                        old(self).entries@,
                        self.entries@,
                        i as int,
                        key@,
                        spec_png_encode(img.width, img.height, img.pixels@),
                    );
                }
            },
            None => {
                proof {
                    lemma_entries_map_domain(self.entries@, key@);
                }
                self.entries.push(new_entry);
                proof {
                    assert(self.entries@.drop_last() =~= old(self).entries@);
                    let t = self.entries@;
                    assert(entries_unique(t)) by {
                        assert forall|a: int, b: int| 0 <= a < b < t.len() implies t[a].0@
                            != t[b].0@ by {
                            if b == t.len() - 1 {
                                assert(t[a] == old(self).entries@[a]);
                            }
                        }
                    }
                }
            },
        }
    }

    /// Load a thumbnail stored under the key. Returns `None` when nothing
    /// is stored or when the stored bytes fail to decode: a corrupt entry
    /// is only a miss, never an error.
    pub fn load_thumbnail(&self, key: &String) -> (r: Option<Surface>)
        requires
            self.wf(),
        ensures
            r is Some <==> spec_cache_lookup(self@, key@) is Some,
            (r matches Some(s) ==> s.wf() && spec_cache_lookup(self@, key@) == Some(
                (s.width, s.height, s.pixels@),
            )),
    {
        match self.find(key) {
            Some(i) => decode_image(&self.entries[i].1),
            None => None,
        }
    }

    /// Clear all cached thumbnails.
    pub fn clear_cache(&mut self)
        ensures
            final(self).wf(),
            final(self)@ == Map::<Seq<char>, Seq<u8>>::empty(),
    {
        self.entries.clear();
    }
}

/// Updating the entry at a position whose key is `k` with new bytes under
/// the same key turns the entry map into the old map with `k` re-inserted.
proof fn lemma_update_keeps_map(
    s: Seq<(String, Vec<u8>)>,
    t: Seq<(String, Vec<u8>)>,
    i: int,
    k: Seq<char>,
    v: Seq<u8>,
)
    requires
        entries_unique(s),
        0 <= i < s.len(),
        s[i].0@ == k,
        t.len() == s.len(),
        forall|j: int| 0 <= j < s.len() && j != i ==> t[j] == s[j],
        t[i].0@ == k,
        t[i].1@ == v,
    ensures
        entries_map(t) == entries_map(s).insert(k, v),
    decreases s.len(),
{
    if i == s.len() - 1 {
        assert(t.drop_last() =~= s.drop_last());
        assert(entries_map(t) =~= entries_map(s).insert(k, v));
    } else {
        assert(entries_unique(s.drop_last()));
        assert(forall|j: int|
            0 <= j < s.drop_last().len() && j != i ==> t.drop_last()[j] == s.drop_last()[j]);
        assert(s.drop_last()[i] == s[i] && t.drop_last()[i] == t[i]);
        lemma_update_keeps_map(s.drop_last(), t.drop_last(), i, k, v);
        assert(t.last() == s.last());
        // The final key differs from k, so the outer insert commutes.
        assert(s.last().0@ != k);
        assert(entries_map(t) =~= entries_map(s).insert(k, v));
    }
}

} // verus!
