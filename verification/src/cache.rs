//! Load-once, never-evict resource caches: one for image assets keyed by
//! path, one for font assets keyed by path and point size. The cache maps
//! each key to the handle the backend produced when the asset was first
//! loaded; the backend load itself happens outside the library, between a
//! miss reported by `get` and the following `insert`, so each distinct key
//! is loaded at most once for the process lifetime and no entry is ever
//! evicted or replaced.

use vstd::prelude::*;

verus! {

/// One image cache entry: asset path and the backend's texture handle.
pub struct TextureEntry {
    pub path: String,
    pub handle: u64,
}

/// The handle an entry sequence caches under a path, if any.
pub open spec fn texture_lookup(entries: Seq<TextureEntry>, path: Seq<char>) -> Option<u64>
    decreases entries.len(),
{
    if entries.len() == 0 {
        None
    } else if entries.last().path@ == path {
        Some(entries.last().handle)
    } else {
        texture_lookup(entries.drop_last(), path)
    }
}

/// The image asset cache, keyed by path.
pub struct TextureCache {
    pub entries: Vec<TextureEntry>,
}

impl TextureCache {
    /// The handle cached under a path, if any. Under well-formedness at
    /// most one entry carries the path, so the scan direction is
    /// immaterial.
    pub open spec fn spec_lookup(self, path: Seq<char>) -> Option<u64> {
        texture_lookup(self.entries@, path)
    }

    /// Well-formedness: no two entries share a path, so a key is loaded at
    /// most once.
    pub open spec fn wf(self) -> bool {
        forall|i: int, j: int|
            0 <= i < j < self.entries@.len() ==> (#[trigger] self.entries@[i]).path@ != (
            #[trigger] self.entries@[j]).path@
    }

    /// An empty cache: nothing has been loaded.
    pub fn new() -> (c: TextureCache)
        ensures
            c.wf(),
            forall|path: Seq<char>| c.spec_lookup(path) is None,
    {
        TextureCache { entries: Vec::new() }
    }

    /// Returns the cached handle of a path, or `None` when the asset has
    /// not been loaded yet and the caller must load and `insert` it.
    pub fn get(&self, path: &String) -> (r: Option<u64>)
        ensures
            r == self.spec_lookup(path@),
    {
        let mut i: usize = self.entries.len();
        proof {
            assert(self.entries@.take(i as int) =~= self.entries@);
        }
        while i > 0
            invariant
                i <= self.entries@.len(),
                self.spec_lookup(path@) == texture_lookup(self.entries@.take(i as int), path@),
            decreases i,
        {
            i = i - 1;
            proof {
                assert(self.entries@.take(i as int + 1).last() == self.entries@[i as int]);
                assert(self.entries@.take(i as int + 1).drop_last() =~= self.entries@.take(
                    i as int,
                ));
            }
            if self.entries[i].path == *path {
                return Some(self.entries[i].handle);
            }
        }
        None
    }

    /// Records the handle the backend produced for a freshly loaded path.
    /// The path must not be cached yet: a key is loaded once and never
    /// replaced.
    pub fn insert(&mut self, path: String, handle: u64)
        requires
            old(self).wf(),
            old(self).spec_lookup(path@) is None,
        ensures
            final(self).wf(),
            final(self).spec_lookup(path@) == Some(handle),
            forall|other: Seq<char>|
                other != path@ ==> final(self).spec_lookup(other) == old(self).spec_lookup(other),
    {
        proof {
            lemma_texture_lookup_none(self.entries@, path@);
        }
        let ghost prev = *self;
        self.entries.push(TextureEntry { path, handle });
        proof {
            assert(self.entries@.drop_last() =~= prev.entries@);
        }
    }
}

/// A path that is not cached occurs in no entry.
proof fn lemma_texture_lookup_none(entries: Seq<TextureEntry>, path: Seq<char>)
    requires
        texture_lookup(entries, path) is None,
    ensures
        forall|i: int| 0 <= i < entries.len() ==> (#[trigger] entries[i]).path@ != path,
    decreases entries.len(),
{
    if entries.len() > 0 {
        lemma_texture_lookup_none(entries.drop_last(), path);
        assert forall|i: int| 0 <= i < entries.len() implies (#[trigger] entries[i]).path@
            != path by {
            if i < entries.len() - 1 {
                assert(entries.drop_last()[i] == entries[i]);
            }
        }
    }
}

/// One font cache entry: font path, point size, and the backend's font
/// handle.
pub struct FontEntry {
    pub path: String,
    pub size: u16,
    pub handle: u64,
}

/// The handle an entry sequence caches under a path and point size, if any.
pub open spec fn font_lookup(entries: Seq<FontEntry>, path: Seq<char>, size: u16) -> Option<u64>
    decreases entries.len(),
{
    if entries.len() == 0 {
        None
    } else if entries.last().path@ == path && entries.last().size == size {
        Some(entries.last().handle)
    } else {
        font_lookup(entries.drop_last(), path, size)
    }
}

/// The font asset cache, keyed by path and point size.
pub struct FontCache {
    pub entries: Vec<FontEntry>,
}

impl FontCache {
    /// The handle cached under a path and point size, if any.
    pub open spec fn spec_lookup(self, path: Seq<char>, size: u16) -> Option<u64> {
        font_lookup(self.entries@, path, size)
    }

    /// Well-formedness: no two entries share a key, so a key is loaded at
    /// most once.
    pub open spec fn wf(self) -> bool {
        forall|i: int, j: int|
            0 <= i < j < self.entries@.len() ==> ((#[trigger] self.entries@[i]).path@ != (
            #[trigger] self.entries@[j]).path@ || self.entries@[i].size != self.entries@[j].size)
    }

    /// An empty cache: nothing has been loaded.
    pub fn new() -> (c: FontCache)
        ensures
            c.wf(),
            forall|path: Seq<char>, size: u16| c.spec_lookup(path, size) is None,
    {
        FontCache { entries: Vec::new() }
    }

    /// Returns the cached handle of a font key, or `None` when the font
    /// has not been loaded yet and the caller must load and `insert` it.
    pub fn get(&self, path: &String, size: u16) -> (r: Option<u64>)
        ensures
            r == self.spec_lookup(path@, size),
    {
        let mut i: usize = self.entries.len();
        proof {
            assert(self.entries@.take(i as int) =~= self.entries@);
        }
        while i > 0
            invariant
                i <= self.entries@.len(),
                self.spec_lookup(path@, size) == font_lookup(
                    self.entries@.take(i as int),
                    path@,
                    size,
                ),
            decreases i,
        {
            i = i - 1;
            proof {
                assert(self.entries@.take(i as int + 1).last() == self.entries@[i as int]);
                assert(self.entries@.take(i as int + 1).drop_last() =~= self.entries@.take(
                    i as int,
                ));
            }
            if self.entries[i].path == *path && self.entries[i].size == size {
                return Some(self.entries[i].handle);
            }
        }
        None
    }

    /// Records the handle the backend produced for a freshly loaded font.
    /// The key must not be cached yet: a key is loaded once and never
    /// replaced.
    pub fn insert(&mut self, path: String, size: u16, handle: u64)
        requires
            old(self).wf(),
            old(self).spec_lookup(path@, size) is None,
        ensures
            final(self).wf(),
            final(self).spec_lookup(path@, size) == Some(handle),
            forall|other: Seq<char>, other_size: u16|
                other != path@ || other_size != size ==> final(self).spec_lookup(other, other_size)
                    == old(self).spec_lookup(other, other_size),
    {
        proof {
            lemma_font_lookup_none(self.entries@, path@, size);
        }
        let ghost prev = *self;
        self.entries.push(FontEntry { path, size, handle });
        proof {
            assert(self.entries@.drop_last() =~= prev.entries@);
        }
    }
}

/// A key that is not cached occurs in no entry.
proof fn lemma_font_lookup_none(entries: Seq<FontEntry>, path: Seq<char>, size: u16)
    requires
        font_lookup(entries, path, size) is None,
    ensures
        forall|i: int|
            0 <= i < entries.len() ==> ((#[trigger] entries[i]).path@ != path
                || entries[i].size != size),
    decreases entries.len(),
{
    if entries.len() > 0 {
        lemma_font_lookup_none(entries.drop_last(), path, size);
        assert forall|i: int| 0 <= i < entries.len() implies ((#[trigger] entries[i]).path@
            != path || entries[i].size != size) by {
            if i < entries.len() - 1 {
                assert(entries.drop_last()[i] == entries[i]);
            }
        }
    }
}

} // verus!
