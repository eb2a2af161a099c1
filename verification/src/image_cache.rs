//! Content-addressed cache of decoded, GPU-resident images.
//!
//! A key names decoded content: the absolute path of an image file, or
//! the identity (address and length, never the bytes) of an embedded
//! buffer. The cache maps each key to the decoded image together with
//! the number of outside holders of that image. An entry whose holder
//! count is zero is dead: the GPU image behind it was already deleted
//! when the last holder let go, and the entry itself is shed by the
//! end-of-frame sweep. The count saturates: an image whose count ever
//! reaches the maximum is pinned and never destroyed nor evicted, which
//! leaks that one image instead of ever deleting it too early.

use vstd::prelude::*;

verus! {

/// Identity of decoded image content.
#[derive(Debug)]
pub enum ImageCacheKey {
    /// An absolute file path.
    Path(String),
    /// Address and length of an embedded static buffer.
    EmbeddedData(u64, u64),
}

/// Mathematical identity of decoded image content.
pub enum ImageKeyView {
    Path(Seq<char>),
    EmbeddedData(u64, u64),
}

impl View for ImageCacheKey {
    type V = ImageKeyView;

    open spec fn view(&self) -> ImageKeyView {
        match self {
            ImageCacheKey::Path(p) => ImageKeyView::Path(p@),
            ImageCacheKey::EmbeddedData(addr, len) => ImageKeyView::EmbeddedData(*addr, *len),
        }
    }
}

/// A decoded image resident on the GPU: its handle and native size.
#[derive(Clone, Copy, PartialEq, Eq, Structural, Debug)]
pub struct GpuImage {
    pub handle: u64,
    pub width: u32,
    pub height: u32,
}

/// What the cache knows of one key: the image and its holder count.
pub type CacheEntryView = (GpuImage, u64);

/// The cache as a map from content identity to image and holder count.
pub type ImageCacheView = Map<ImageKeyView, CacheEntryView>;

struct ImageCacheEntry {
    key: ImageCacheKey,
    image: GpuImage,
    holders: u64,
}

/// Deduplicates image decoding and uploading across items and frames.
pub struct ImageCache {
    entries: Vec<ImageCacheEntry>,
}

impl ImageCacheKey {
    /// Whether two keys name the same content.
    pub fn key_eq(&self, other: &ImageCacheKey) -> (r: bool)
        ensures
            r == (self@ == other@),
    {
        match (self, other) {
            (ImageCacheKey::Path(a), ImageCacheKey::Path(b)) => *a == *b,
            (
                ImageCacheKey::EmbeddedData(a_addr, a_len),
                ImageCacheKey::EmbeddedData(b_addr, b_len),
            ) => *a_addr == *b_addr && *a_len == *b_len,
            _ => false,
        }
    }
}

/// The map a sequence of entries denotes; later entries would shadow
/// earlier ones, but the cache keeps its keys distinct.
spec fn map_of(s: Seq<ImageCacheEntry>) -> ImageCacheView
    decreases s.len(),
{
    if s.len() == 0 {
        Map::empty()
    } else {
        map_of(s.drop_last()).insert(s.last().key@, (s.last().image, s.last().holders))
    }
}

spec fn distinct_keys(s: Seq<ImageCacheEntry>) -> bool {
    forall|i: int, j: int| 0 <= i < j < s.len() ==> s[i].key@ != s[j].key@
}

proof fn lemma_map_of_contains(s: Seq<ImageCacheEntry>, k: ImageKeyView)
    ensures
        map_of(s).contains_key(k) <==> exists|i: int| 0 <= i < s.len() && s[i].key@ == k,
    decreases s.len(),
{
    if s.len() > 0 {
        lemma_map_of_contains(s.drop_last(), k);
        if s.last().key@ == k {
            assert(s[s.len() - 1].key@ == k);
        } else if map_of(s).contains_key(k) {
            let i = choose|i: int| 0 <= i < s.drop_last().len() && s.drop_last()[i].key@ == k;
            assert(s[i].key@ == k);
        } else {
            if exists|i: int| 0 <= i < s.len() && s[i].key@ == k {
                let i = choose|i: int| 0 <= i < s.len() && s[i].key@ == k;
                assert(s.drop_last()[i].key@ == k);
            }
        }
    }
}

proof fn lemma_map_of_index(s: Seq<ImageCacheEntry>, i: int)
    requires
        distinct_keys(s),
        0 <= i < s.len(),
    ensures
        map_of(s).contains_key(s[i].key@),
        map_of(s)[s[i].key@] == (s[i].image, s[i].holders),
    decreases s.len(),
{
    if i == s.len() - 1 {
        lemma_map_of_contains(s, s[i].key@);
    } else {
        lemma_map_of_index(s.drop_last(), i);
        assert(s.drop_last()[i] == s[i]);
        assert(s[i].key@ != s.last().key@);
    }
}

proof fn lemma_map_of_update(s: Seq<ImageCacheEntry>, i: int, e: ImageCacheEntry)
    requires
        distinct_keys(s),
        0 <= i < s.len(),
        e.key@ == s[i].key@,
    ensures
        map_of(s.update(i, e)) =~= map_of(s).insert(e.key@, (e.image, e.holders)),
    decreases s.len(),
{
    let s2 = s.update(i, e);
    if i == s.len() - 1 {
        assert(s2.drop_last() =~= s.drop_last());
        assert(s2.last() == e);
    } else {
        assert(s2.drop_last() =~= s.drop_last().update(i, e));
        assert(s.drop_last()[i] == s[i]);
        lemma_map_of_update(s.drop_last(), i, e);
        assert(s2.last() == s.last());
        assert(s.last().key@ != e.key@);
    }
}

proof fn lemma_map_of_push(s: Seq<ImageCacheEntry>, e: ImageCacheEntry)
    ensures
        map_of(s.push(e)) =~= map_of(s).insert(e.key@, (e.image, e.holders)),
{
    assert(s.push(e).drop_last() =~= s);
    assert(s.push(e).last() == e);
}

impl View for ImageCache {
    type V = ImageCacheView;

    closed spec fn view(&self) -> ImageCacheView {
        map_of(self.entries@)
    }
}

/// An entry is live while at least one holder outside the cache keeps
/// its image alive.
pub open spec fn live(m: ImageCacheView, k: ImageKeyView) -> bool {
    m.contains_key(k) && m[k].1 >= 1
}

/// Resolving a key: a live entry hands its image out once more (the
/// count saturates rather than overflow); a dead or absent entry is a
/// miss and is left alone.
pub open spec fn spec_acquire(m: ImageCacheView, k: ImageKeyView) -> (ImageCacheView, Option<
    GpuImage,
>) {
    if live(m, k) {
        let img = m[k].0;
        let h = m[k].1;
        let h2: u64 = if h == u64::MAX {
            h
        } else {
            (h + 1) as u64
        };
        (m.insert(k, (img, h2)), Some(img))
    } else {
        (m, None)
    }
}

/// Dropping one holder of a key's image. The second component names the
/// GPU image to delete now, handed out exactly when the last holder is
/// dropped; a saturated entry is pinned and never deleted.
pub open spec fn spec_release(m: ImageCacheView, k: ImageKeyView) -> (ImageCacheView, Option<
    u64,
>) {
    if live(m, k) {
        let img = m[k].0;
        let h = m[k].1;
        if h == u64::MAX {
            (m, None)
        } else if h == 1 {
            (m.insert(k, (img, 0)), Some(img.handle))
        } else {
            (m.insert(k, (img, (h - 1) as u64)), None)
        }
    } else {
        (m, None)
    }
}

/// Storing a freshly decoded image under a key, held once.
pub open spec fn spec_store(m: ImageCacheView, k: ImageKeyView, img: GpuImage) -> ImageCacheView {
    m.insert(k, (img, 1))
}

/// The end-of-frame sweep: dead entries leave, live entries stay as
/// they are.
pub open spec fn spec_collect(m: ImageCacheView) -> ImageCacheView {
    Map::new(|k: ImageKeyView| live(m, k), |k: ImageKeyView| m[k])
}

impl ImageCache {
    /// Validity: the cache holds each key at most once.
    pub closed spec fn wf(&self) -> bool {
        distinct_keys(self.entries@)
    }

    /// A fresh cache knows no content.
    pub fn new() -> (r: ImageCache)
        ensures
            r.wf(),
            r@ == Map::<ImageKeyView, CacheEntryView>::empty(),
    {
        let r = ImageCache { entries: Vec::new() };
        proof {
            assert(r@ =~= Map::<ImageKeyView, CacheEntryView>::empty());
        }
        r
    }

    /// Finds the entry holding `key`, if any.
    fn find(&self, key: &ImageCacheKey) -> (r: Option<usize>)
        ensures
            match r {
                Some(i) => 0 <= i < self.entries@.len() && self.entries@[i as int].key@ == key@,
                None => forall|i: int| 0 <= i < self.entries@.len() ==> self.entries@[i].key@ != key@,
            },
    {
        let n: usize = self.entries.len();
        let mut i: usize = 0;
        while i < n
            invariant
                n == self.entries@.len(),
                0 <= i <= n,
                forall|j: int| 0 <= j < i ==> self.entries@[j].key@ != key@,
            decreases n - i,
        {
            if self.entries[i].key.key_eq(key) {
                return Some(i);
            }
            i += 1;
        }
        None
    }

    /// Resolves `key` against the live entries: on a hit the caller
    /// becomes one more holder of the image and nothing is decoded; a
    /// dead or absent entry is reported as a miss and left for `store`.
    pub fn lookup_live(&mut self, key: &ImageCacheKey) -> (r: Option<GpuImage>)
        requires
            old(self).wf(),
        ensures
            final(self).wf(),
            final(self)@ == spec_acquire(old(self)@, key@).0,
            r == spec_acquire(old(self)@, key@).1,
    {
        proof {
            lemma_map_of_contains(self.entries@, key@);
        }
        match self.find(key) {
            Some(i) => {
                proof {
                    lemma_map_of_index(self.entries@, i as int);
                }
                let entry = &self.entries[i];
                if entry.holders >= 1 {
                    let img = entry.image;
                    let h: u64 = entry.holders;
                    let h2: u64 = if h == u64::MAX {
                        h
                    } else {
                        h + 1
                    };
                    let ghost old_entries = self.entries@;
                    let key_copy = self.entries[i].key.clone_key();
                    self.entries.set(
                        i,
                        ImageCacheEntry { key: key_copy, image: img, holders: h2 },
                    );
                    proof {
                        lemma_map_of_update(old_entries, i as int, self.entries@[i as int]);
                    }
                    Some(img)
                } else {
                    None
                }
            },
            None => None,
        }
    }

    /// Stores a freshly decoded image under `key`, replacing whatever
    /// dead entry sat there; the caller is its first holder.
    pub fn store(&mut self, key: ImageCacheKey, image: GpuImage)
        requires
            old(self).wf(),
        ensures
            final(self).wf(),
            final(self)@ == spec_store(old(self)@, key@, image),
    {
        let ghost old_entries = self.entries@;
        match self.find(&key) {
            Some(i) => {
                let ghost k = key@;
                self.entries.set(i, ImageCacheEntry { key, image, holders: 1 });
                proof {
                    lemma_map_of_update(old_entries, i as int, self.entries@[i as int]);
                }
            },
            None => {
                self.entries.push(ImageCacheEntry { key, image, holders: 1 });
                proof {
                    assert(self.entries@.drop_last() =~= old_entries);
                    lemma_map_of_push(old_entries, self.entries@.last());
                    assert(self.entries@ =~= old_entries.push(self.entries@.last()));
                }
            },
        }
    }

    /// Lets one holder of `key`'s image go. Returns the GPU handle to
    /// delete exactly when the last holder was dropped: destruction is
    /// deterministic, never deferred to the sweep.
    pub fn release(&mut self, key: &ImageCacheKey) -> (r: Option<u64>)
        requires
            old(self).wf(),
        ensures
            final(self).wf(),
            final(self)@ == spec_release(old(self)@, key@).0,
            r == spec_release(old(self)@, key@).1,
    {
        proof {
            lemma_map_of_contains(self.entries@, key@);
        }
        match self.find(key) {
            Some(i) => {
                proof {
                    lemma_map_of_index(self.entries@, i as int);
                }
                let entry = &self.entries[i];
                let h: u64 = entry.holders;
                if h == 0 || h == u64::MAX {
                    None
                } else {
                    let img = entry.image;
                    let h2: u64 = h - 1;
                    let ghost old_entries = self.entries@;
                    let key_copy = self.entries[i].key.clone_key();
                    self.entries.set(
                        i,
                        ImageCacheEntry { key: key_copy, image: img, holders: h2 },
                    );
                    proof {
                        lemma_map_of_update(old_entries, i as int, self.entries@[i as int]);
                    }
                    if h2 == 0 {
                        Some(img.handle)
                    } else {
                        None
                    }
                }
            },
            None => None,
        }
    }

    /// The end-of-frame sweep: sheds every dead entry in one pass and
    /// keeps every live one untouched.
    pub fn collect_garbage(&mut self)
        requires
            old(self).wf(),
        ensures
            final(self).wf(),
            final(self)@ == spec_collect(old(self)@),
    {
        let ghost old_entries = self.entries@;
        let mut kept: Vec<ImageCacheEntry> = Vec::new();
        let n: usize = self.entries.len();
        let mut i: usize = 0;
        while i < n
            invariant
                n == old_entries.len(),
                self.entries@ == old_entries,
                distinct_keys(old_entries),
                0 <= i <= n,
                distinct_keys(kept@),
                forall|a: int, b: int|
                    0 <= a < kept@.len() && 0 <= b < old_entries.len() && i <= b
                        ==> kept@[a].key@ != old_entries[b].key@,
                map_of(kept@) =~= spec_collect(map_of(old_entries.take(i as int))),
            decreases n - i,
        {
            let entry = &self.entries[i];
            proof {
                assert(old_entries.take(i as int + 1).drop_last() =~= old_entries.take(i as int));
                assert(old_entries.take(i as int + 1).last() == old_entries[i as int]);
                lemma_map_of_contains(old_entries.take(i as int), old_entries[i as int].key@);
            }
            if entry.holders >= 1 {
                let ghost old_kept = kept@;
                kept.push(
                    ImageCacheEntry { key: entry.key.clone_key(), image: entry.image, holders: entry.holders },
                );
                proof {
                    assert(kept@.drop_last() =~= old_kept);
                    lemma_map_of_push(old_kept, kept@.last());
                    assert(kept@ =~= old_kept.push(kept@.last()));
                    assert(map_of(kept@) =~= spec_collect(map_of(old_entries.take(i as int + 1))));
                }
            } else {
                proof {
                    assert(map_of(kept@) =~= spec_collect(map_of(old_entries.take(i as int + 1))));
                }
            }
            i += 1;
        }
        proof {
            assert(old_entries.take(n as int) =~= old_entries);
        }
        self.entries = kept;
    }
}

impl ImageCacheKey {
    /// A copy naming the same content.
    pub fn clone_key(&self) -> (r: ImageCacheKey)
        ensures
            r@ == self@,
    {
        match self {
            ImageCacheKey::Path(p) => ImageCacheKey::Path(p.clone()),
            ImageCacheKey::EmbeddedData(addr, len) => ImageCacheKey::EmbeddedData(*addr, *len),
        }
    }
}

/// Law: while any holder keeps a key's image alive, every further
/// resolution of that key hands back the very same GPU image, and none
/// decodes anew.
pub proof fn lemma_image_cache_deduplicates(m: ImageCacheView, k: ImageKeyView)
    requires
        live(m, k),
    ensures
        spec_acquire(m, k).1 == Some(m[k].0),
        spec_acquire(spec_acquire(m, k).0, k).1 == Some(m[k].0),
{
}

/// Law: once every holder of a key's image is dropped, the frame's
/// sweep removes the key, and the next resolution of it is a miss: a
/// fresh decode.
pub proof fn lemma_image_cache_collects_dead(m: ImageCacheView, k: ImageKeyView)
    requires
        m.contains_key(k),
        m[k].1 == 0,
    ensures
        !spec_collect(m).contains_key(k),
        spec_acquire(spec_collect(m), k).1 == None::<GpuImage>,
{
}

/// Law: dropping the last holder names the image for immediate
/// deletion and leaves the entry dead, ready for the sweep.
pub proof fn lemma_image_cache_deletes_deterministically(m: ImageCacheView, k: ImageKeyView)
    requires
        live(m, k),
        m[k].1 == 1,
    ensures
        spec_release(m, k).1 == Some(m[k].0.handle),
        spec_release(m, k).0.contains_key(k),
        spec_release(m, k).0[k].1 == 0,
{
}

} // verus!
