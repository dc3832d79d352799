//! Synchronous shader caching.
//!
//! Shader compilation must happen on the thread that owns the graphics
//! context, so there is no background phase and no pending state: the cache
//! only ever holds finished programs. Requests are still deduplicated by
//! id — a compiled program is stored once and every later request for the
//! same id gets the cached handle. Compilation failure stores nothing, so
//! the same shader can be retried.

use vstd::prelude::*;

use crate::cache::Cache;
use crate::cache::CacheEntry;
use crate::resource::ResourceId;

verus! {

/// Owner of the shader cache, generic over the compiled program handle `S`.
pub struct ShaderManager<S> {
    cache: Cache<S>,
}

impl<S> View for ShaderManager<S> {
    type V = Map<(Seq<char>, Seq<char>), CacheEntry<S>>;

    closed spec fn view(&self) -> Map<(Seq<char>, Seq<char>), CacheEntry<S>> {
        self.cache@
    }
}

impl<S> ShaderManager<S> {
    /// The manager invariant: one entry per id, and — since compilation is
    /// synchronous — every entry is `Ready`.
    pub closed spec fn wf(&self) -> bool {
        &&& self.cache.wf()
        &&& forall|k: (Seq<char>, Seq<char>)| #[trigger]
            self.cache@.contains_key(k) ==> self.cache@[k] is Ready
    }

    /// Number of cached programs.
    pub closed spec fn count(&self) -> nat {
        self.cache.count()
    }

    /// An empty manager.
    pub fn new() -> (r: ShaderManager<S>)
        ensures
            r.wf(),
            r@ == Map::<(Seq<char>, Seq<char>), CacheEntry<S>>::empty(),
            r.count() == 0,
    {
        ShaderManager { cache: Cache::new() }
    }

    /// Number of cached programs.
    pub fn len(&self) -> (r: usize)
        ensures
            r == self.count(),
    {
        self.cache.len()
    }

    /// The cached program for `id`, if one was ever stored.
    pub fn get(&self, id: &ResourceId) -> (r: Option<&S>)
        requires
            self.wf(),
        ensures
            match r {
                Some(s) => self@.contains_key(id@) && self@[id@] == CacheEntry::Ready(*s),
                None => !self@.contains_key(id@),
            },
    {
        match self.cache.get(id) {
            Some(entry) => match entry {
                CacheEntry::Ready(s) => Some(s),
                CacheEntry::Pending => {
                    proof {
                        assert(false);
                    }
                    None
                },
            },
            None => None,
        }
    }

    /// Store a freshly compiled program, deduplicating by id.
    ///
    /// The first store for an id wins and returns true; if the id is
    /// already cached nothing changes and false is returned, so a finished
    /// program is never recompiled into the cache.
    pub fn store(&mut self, id: &ResourceId, program: S) -> (fresh: bool)
        requires
            old(self).wf(),
        ensures
            final(self).wf(),
            old(self)@.contains_key(id@) ==> final(self)@ == old(self)@ && !fresh,
            !old(self)@.contains_key(id@) ==> final(self)@ == old(self)@.insert(
                id@,
                CacheEntry::Ready(program),
            ) && fresh,
    {
        if self.cache.contains(id) {
            false
        } else {
            self.cache.insert(id.clone(), CacheEntry::Ready(program));
            true
        }
    }
}

} // verus!
