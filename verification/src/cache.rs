//! Deduplicating resource caches.
//!
//! A [`Cache`] maps [`ResourceId`]s to [`CacheEntry`] values. At most one
//! entry exists per id at any time; an entry is either `Pending` (a job has
//! been submitted, no artifact yet) or `Ready` (the finished artifact is
//! available). Entries are never evicted; a failed load removes its entry so
//! that a later request may retry.
//!
//! The cache is modelled as a [`Map`] from id views to entries, and every
//! operation is specified against that map.

use vstd::prelude::*;

use crate::resource::ResourceId;

verus! {

/// State of one cached resource.
pub enum CacheEntry<T> {
    /// A load job has been submitted; no artifact is available yet.
    Pending,
    /// The finished artifact.
    Ready(T),
}

/// The map denoted by a sequence of key/entry pairs: later pairs win,
/// though a well-formed cache never holds two pairs with one key.
pub open spec fn entry_map<T>(s: Seq<(ResourceId, CacheEntry<T>)>) -> Map<
    (Seq<char>, Seq<char>),
    CacheEntry<T>,
>
    decreases s.len(),
{
    if s.len() == 0 {
        Map::empty()
    } else {
        entry_map(s.drop_last()).insert(s.last().0@, s.last().1)
    }
}

/// No two pairs of `s` share a key.
pub open spec fn distinct_keys<T>(s: Seq<(ResourceId, CacheEntry<T>)>) -> bool {
    forall|i: int, j: int| 0 <= i < j < s.len() ==> s[i].0@ != s[j].0@
}

/// A mapping from resource ids to cache entries, owned exclusively by one
/// manager and mutated only on the owning thread.
pub struct Cache<T> {
    entries: Vec<(ResourceId, CacheEntry<T>)>,
}

impl<T> View for Cache<T> {
    type V = Map<(Seq<char>, Seq<char>), CacheEntry<T>>;

    closed spec fn view(&self) -> Map<(Seq<char>, Seq<char>), CacheEntry<T>> {
        entry_map(self.entries@)
    }
}

proof fn lemma_entry_map_key<T>(s: Seq<(ResourceId, CacheEntry<T>)>, k: (Seq<char>, Seq<char>))
    ensures
        entry_map(s).contains_key(k) <==> exists|i: int| 0 <= i < s.len() && s[i].0@ == k,
    decreases s.len(),
{
    if s.len() > 0 {
        lemma_entry_map_key(s.drop_last(), k);
        if s.last().0@ == k {
            assert(s[s.len() - 1].0@ == k);
        } else if entry_map(s).contains_key(k) {
            let i = choose|i: int| 0 <= i < s.drop_last().len() && s.drop_last()[i].0@ == k;
            assert(s[i].0@ == k);
        } else {
            assert forall|i: int| 0 <= i < s.len() && s[i].0@ == k implies false by {
                assert(i < s.len() - 1);
                assert(s.drop_last()[i].0@ == k);
            }
        }
    }
}

proof fn lemma_entry_map_index<T>(s: Seq<(ResourceId, CacheEntry<T>)>, i: int)
    requires
        distinct_keys(s),
        0 <= i < s.len(),
    ensures
        entry_map(s).contains_key(s[i].0@),
        entry_map(s)[s[i].0@] == s[i].1,
    decreases s.len(),
{
    if i == s.len() - 1 {
    } else {
        assert(distinct_keys(s.drop_last())) by {
            assert forall|p: int, q: int|
                0 <= p < q < s.drop_last().len() implies s.drop_last()[p].0@
                != s.drop_last()[q].0@ by {
                assert(s[p].0@ != s[q].0@);
            }
        }
        lemma_entry_map_index(s.drop_last(), i);
        assert(s.drop_last()[i] == s[i]);
        assert(s[i].0@ != s.last().0@);
    }
}

proof fn lemma_entry_map_update<T>(s: Seq<(ResourceId, CacheEntry<T>)>, i: int, p: (
    ResourceId,
    CacheEntry<T>,
))
    requires
        distinct_keys(s),
        0 <= i < s.len(),
        p.0@ == s[i].0@,
    ensures
        distinct_keys(s.update(i, p)),
        entry_map(s.update(i, p)) =~= entry_map(s).insert(s[i].0@, p.1),
    decreases s.len(),
{
    let t = s.update(i, p);
    assert forall|x: int, y: int| 0 <= x < y < t.len() implies t[x].0@ != t[y].0@ by {
        assert(s[x].0@ != s[y].0@);
    }
    if i == s.len() - 1 {
        assert(t.drop_last() =~= s.drop_last());
    } else {
        assert(distinct_keys(s.drop_last())) by {
            assert forall|x: int, y: int|
                0 <= x < y < s.drop_last().len() implies s.drop_last()[x].0@
                != s.drop_last()[y].0@ by {
                assert(s[x].0@ != s[y].0@);
            }
        }
        assert(t.drop_last() =~= s.drop_last().update(i, p));
        lemma_entry_map_update(s.drop_last(), i, p);
        assert(s.last().0@ != s[i].0@);
        assert(t.last() == s.last());
    }
}

proof fn lemma_entry_map_remove<T>(s: Seq<(ResourceId, CacheEntry<T>)>, i: int)
    requires
        distinct_keys(s),
        0 <= i < s.len(),
    ensures
        distinct_keys(s.remove(i)),
        entry_map(s.remove(i)) =~= entry_map(s).remove(s[i].0@),
    decreases s.len(),
{
    let t = s.remove(i);
    assert forall|x: int, y: int| 0 <= x < y < t.len() implies t[x].0@ != t[y].0@ by {
        let sx: int = if x < i {
            x
        } else {
            x + 1
        };
        let sy: int = if y < i {
            y
        } else {
            y + 1
        };
        assert(t[x] == s[sx] && t[y] == s[sy]);
        assert(s[sx].0@ != s[sy].0@);
    }
    if i == s.len() - 1 {
        assert(t =~= s.drop_last());
        lemma_entry_map_key(s.drop_last(), s[i].0@);
        assert forall|q: int|
            0 <= q < s.drop_last().len() implies s.drop_last()[q].0@ != s[i].0@ by {
            assert(s[q].0@ != s[i].0@);
        }
        assert(!entry_map(s.drop_last()).contains_key(s[i].0@));
        assert(entry_map(s.drop_last()) =~= entry_map(s).remove(s[i].0@));
    } else {
        assert(distinct_keys(s.drop_last())) by {
            assert forall|x: int, y: int|
                0 <= x < y < s.drop_last().len() implies s.drop_last()[x].0@
                != s.drop_last()[y].0@ by {
                assert(s[x].0@ != s[y].0@);
            }
        }
        lemma_entry_map_remove(s.drop_last(), i);
        assert(t.drop_last() =~= s.drop_last().remove(i));
        assert(t.last() == s.last());
        assert(s.last().0@ != s[i].0@);
    }
}

impl<T> Cache<T> {
    /// The cache invariant: one entry per resource id.
    pub closed spec fn wf(&self) -> bool {
        distinct_keys(self.entries@)
    }

    /// Number of entries held.
    pub closed spec fn count(&self) -> nat {
        self.entries@.len()
    }

    /// An empty cache.
    pub fn new() -> (r: Cache<T>)
        ensures
            r.wf(),
            r@ == Map::<(Seq<char>, Seq<char>), CacheEntry<T>>::empty(),
            r.count() == 0,
    {
        Cache { entries: Vec::new() }
    }

    /// Number of entries held.
    pub fn len(&self) -> (r: usize)
        ensures
            r == self.count(),
    {
        self.entries.len()
    }

    /// Index of the entry for `id`, if one exists.
    fn find(&self, id: &ResourceId) -> (r: Option<usize>)
        requires
            self.wf(),
        ensures
            match r {
                Some(i) => i < self.entries@.len() && self.entries@[i as int].0@ == id@,
                None => !self@.contains_key(id@),
            },
    {
        let mut i: usize = 0;
        while i < self.entries.len()
            invariant
                i <= self.entries@.len(),
                forall|k: int| 0 <= k < i ==> self.entries@[k].0@ != id@,
            decreases self.entries@.len() - i,
        {
            if self.entries[i].0.matches(id) {
                return Some(i);
            }
            i = i + 1;
        }
        proof {
            lemma_entry_map_key(self.entries@, id@);
        }
        None
    }

    /// Whether an entry (pending or ready) exists for `id`.
    pub fn contains(&self, id: &ResourceId) -> (r: bool)
        requires
            self.wf(),
        ensures
            r == self@.contains_key(id@),
    {
        match self.find(id) {
            Some(i) => {
                proof {
                    lemma_entry_map_index(self.entries@, i as int);
                }
                true
            },
            None => false,
        }
    }

    /// Read-only lookup: the entry for `id`, or `None` on a cache miss.
    pub fn get(&self, id: &ResourceId) -> (r: Option<&CacheEntry<T>>)
        requires
            self.wf(),
        ensures
            match r {
                Some(e) => self@.contains_key(id@) && *e == self@[id@],
                None => !self@.contains_key(id@),
            },
    {
        match self.find(id) {
            Some(i) => {
                proof {
                    lemma_entry_map_index(self.entries@, i as int);
                }
                Some(&self.entries[i].1)
            },
            None => None,
        }
    }

    /// Insert an entry for an id that has none.
    ///
    /// Only ids without an entry may be inserted; the coalescing check in
    /// the managers guarantees this before inserting.
    pub fn insert(&mut self, id: ResourceId, entry: CacheEntry<T>)
        requires
            old(self).wf(),
            !old(self)@.contains_key(id@),
        ensures
            final(self).wf(),
            final(self)@ == old(self)@.insert(id@, entry),
            final(self).count() == old(self).count() + 1,
    {
        proof {
            lemma_entry_map_key(self.entries@, id@);
        }
        let ghost gid = id@;
        let ghost s = self.entries@;
        self.entries.push((id, entry));
        proof {
            assert(self.entries@.drop_last() =~= s);
            assert forall|x: int, y: int|
                0 <= x < y < self.entries@.len() implies self.entries@[x].0@
                != self.entries@[y].0@ by {
                if y < s.len() {
                    assert(s[x].0@ != s[y].0@);
                } else {
                    assert(s[x].0@ != gid);
                }
            }
        }
    }

    /// Replace the entry for `id` with `Ready(value)`.
    ///
    /// The transition is only taken from `Pending`: it is the finishing
    /// half of the handoff that `insert_pending` started.
    pub fn mark_ready(&mut self, id: &ResourceId, value: T)
        requires
            old(self).wf(),
            old(self)@.contains_key(id@),
            old(self)@[id@] is Pending,
        ensures
            final(self).wf(),
            final(self)@ == old(self)@.insert(id@, CacheEntry::<T>::Ready(value)),
            final(self).count() == old(self).count(),
    {
        let found = self.find(id);
        match found {
            Some(i) => {
                let key = self.entries[i].0.clone();
                let ghost gv = value;
                let ghost s = self.entries@;
                self.entries[i] = (key, CacheEntry::Ready(value));
                proof {
                    lemma_entry_map_update(s, i as int, self.entries@[i as int]);
                    assert(self@ == entry_map(s).insert(s[i as int].0@, CacheEntry::Ready(gv)));
                }
            },
            None => {
                proof {
                    assert(false);
                }
            },
        }
    }

    /// Drop the entry for `id` entirely, so a later request may retry.
    pub fn remove(&mut self, id: &ResourceId)
        requires
            old(self).wf(),
            old(self)@.contains_key(id@),
        ensures
            final(self).wf(),
            final(self)@ == old(self)@.remove(id@),
            final(self).count() == old(self).count() - 1,
    {
        let found = self.find(id);
        match found {
            Some(i) => {
                let ghost s = self.entries@;
                self.entries.remove(i);
                proof {
                    lemma_entry_map_remove(s, i as int);
                }
            },
            None => {
                proof {
                    assert(false);
                }
            },
        }
    }
}

} // verus!
