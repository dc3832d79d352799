//! Asynchronous texture loading.
//!
//! `load` coalesces requests by resource id: the first request for an id
//! inserts a `Pending` placeholder and yields a decode job description; any
//! further request while the entry exists is a no-op. Worker threads run
//! the job, decode pixels, and publish the result on the handoff channel.
//! On each frame the owning thread drains whatever messages have arrived —
//! never blocking — and applies each completed result: a success turns the
//! `Pending` entry `Ready`, a failure removes the entry so the resource can
//! be requested again. Results arriving for ids that are absent or already
//! `Ready` are discarded, so a finished entry is never recomputed or
//! overwritten.

use vstd::prelude::*;

use std::sync::mpsc::Receiver;
use std::sync::mpsc::Sender;

use crate::cache::Cache;
use crate::cache::CacheEntry;
use crate::handoff::channel_pair;
use crate::handoff::sender_clone;
use crate::handoff::try_next;
use crate::resource::ResourceId;

verus! {

/// A decoded texture: dimensions and tightly packed RGBA bytes.
pub struct PixelData {
    /// Width in pixels.
    pub width: u32,
    /// Height in pixels.
    pub height: u32,
    /// Pixel bytes, four per pixel.
    pub rgba: Vec<u8>,
}

/// Why a background load failed.
#[derive(Clone, Copy, PartialEq, Eq, Structural, Debug)]
pub enum LoadFailure {
    /// The id resolved to no existing asset location.
    Resolution,
    /// Bytes were read but could not be decoded.
    Decode,
}

/// One message on the handoff channel: a decode result for one id,
/// produced by a worker and consumed exactly once by the owning thread.
pub struct DecodeMessage {
    /// The id the job was submitted for.
    pub id: ResourceId,
    /// The decoded pixels, or the failure that ended the job.
    pub payload: Result<PixelData, LoadFailure>,
}

/// Everything a worker needs to run one decode job: the id it answers for,
/// the resolved asset location to read, and the sending half of the
/// handoff channel to publish the result on.
pub struct TextureJob {
    /// The id the job answers for.
    pub id: ResourceId,
    /// Resolved location of the asset bytes.
    pub location: String,
    /// Where the job must publish its result.
    pub results: Sender<DecodeMessage>,
}

/// The cache after a load request for key `k`: a fresh key gains a
/// `Pending` placeholder; a key with any entry is left alone.
pub open spec fn load_transition<T>(
    m: Map<(Seq<char>, Seq<char>), CacheEntry<T>>,
    k: (Seq<char>, Seq<char>),
) -> Map<(Seq<char>, Seq<char>), CacheEntry<T>> {
    if m.contains_key(k) {
        m
    } else {
        m.insert(k, CacheEntry::Pending)
    }
}

/// Whether a load request for key `k` submits a background job: exactly
/// when no entry for `k` exists yet.
pub open spec fn load_submits<T>(
    m: Map<(Seq<char>, Seq<char>), CacheEntry<T>>,
    k: (Seq<char>, Seq<char>),
) -> bool {
    !m.contains_key(k)
}

/// The cache after one decode result for key `k` lands: a success turns a
/// `Pending` entry `Ready`, a failure removes it, and a result for an
/// absent or already-`Ready` key changes nothing.
pub open spec fn apply_outcome<T>(
    m: Map<(Seq<char>, Seq<char>), CacheEntry<T>>,
    k: (Seq<char>, Seq<char>),
    outcome: Result<T, LoadFailure>,
) -> Map<(Seq<char>, Seq<char>), CacheEntry<T>> {
    if m.contains_key(k) && m[k] is Pending {
        match outcome {
            Ok(v) => m.insert(k, CacheEntry::Ready(v)),
            Err(_) => m.remove(k),
        }
    } else {
        m
    }
}

/// The cache after a batch of decode results lands, first to last.
pub open spec fn apply_all<T>(
    m: Map<(Seq<char>, Seq<char>), CacheEntry<T>>,
    s: Seq<(ResourceId, Result<T, LoadFailure>)>,
) -> Map<(Seq<char>, Seq<char>), CacheEntry<T>>
    decreases s.len(),
{
    if s.len() == 0 {
        m
    } else {
        apply_outcome(apply_all(m, s.drop_last()), s.last().0@, s.last().1)
    }
}

/// Requesting a resource twice before the first job completes submits
/// exactly one job: the first request leaves an entry for the key, so the
/// second changes nothing and submits nothing.
pub proof fn lemma_load_coalesces<T>(
    m: Map<(Seq<char>, Seq<char>), CacheEntry<T>>,
    k: (Seq<char>, Seq<char>),
)
    ensures
        load_transition(load_transition(m, k), k) == load_transition(m, k),
        !load_submits(load_transition(m, k), k),
{
}

/// Once an entry is `Ready` it is never recomputed: a new load request
/// for its key changes nothing and submits no job, and no decode outcome
/// — success or failure — can alter or remove it.
pub proof fn lemma_ready_stable<T>(
    m: Map<(Seq<char>, Seq<char>), CacheEntry<T>>,
    k: (Seq<char>, Seq<char>),
    outcome: Result<T, LoadFailure>,
)
    requires
        m.contains_key(k),
        m[k] is Ready,
    ensures
        load_transition(m, k) == m,
        !load_submits(m, k),
        apply_outcome(m, k, outcome) == m,
{
}

/// A `Ready` entry survives any whole batch of decode results unchanged:
/// no tick, whatever arrived, recomputes or removes a finished texture.
pub proof fn lemma_ready_stable_all<T>(
    m: Map<(Seq<char>, Seq<char>), CacheEntry<T>>,
    s: Seq<(ResourceId, Result<T, LoadFailure>)>,
    k: (Seq<char>, Seq<char>),
)
    requires
        m.contains_key(k),
        m[k] is Ready,
    ensures
        apply_all(m, s).contains_key(k),
        apply_all(m, s)[k] == m[k],
    decreases s.len(),
{
    if s.len() > 0 {
        lemma_ready_stable_all(m, s.drop_last(), k);
        lemma_ready_stable(apply_all(m, s.drop_last()), k, s.last().1);
        if s.last().0@ != k {
            lemma_failure_isolated(apply_all(m, s.drop_last()), s.last().0@, k, s.last().1);
        }
    }
}

/// Decode results for distinct ids commute: whichever completes first,
/// the cache ends in the same state, so completion order does not matter.
pub proof fn lemma_apply_commutes<T>(
    m: Map<(Seq<char>, Seq<char>), CacheEntry<T>>,
    a: (Seq<char>, Seq<char>),
    b: (Seq<char>, Seq<char>),
    oa: Result<T, LoadFailure>,
    ob: Result<T, LoadFailure>,
)
    requires
        a != b,
    ensures
        apply_outcome(apply_outcome(m, a, oa), b, ob) == apply_outcome(
            apply_outcome(m, b, ob),
            a,
            oa,
        ),
{
    assert(apply_outcome(apply_outcome(m, a, oa), b, ob) =~= apply_outcome(
        apply_outcome(m, b, ob),
        a,
        oa,
    ));
}

/// A decode result for one id — in particular a failure — leaves the
/// entry of every other id, pending or ready, exactly as it was.
pub proof fn lemma_failure_isolated<T>(
    m: Map<(Seq<char>, Seq<char>), CacheEntry<T>>,
    k: (Seq<char>, Seq<char>),
    j: (Seq<char>, Seq<char>),
    outcome: Result<T, LoadFailure>,
)
    requires
        j != k,
    ensures
        apply_outcome(m, k, outcome).contains_key(j) == m.contains_key(j),
        m.contains_key(j) ==> apply_outcome(m, k, outcome)[j] == m[j],
{
}

/// Owner of the texture cache and of the receiving half of the handoff
/// channel. Generic over the GPU handle type `T` that uploaded textures
/// become: the upload itself needs the thread owning the graphics context,
/// which hands the finished handle back in through `tick`.
pub struct TextureManager<T> {
    cache: Cache<T>,
    incoming: Receiver<DecodeMessage>,
    outgoing: Sender<DecodeMessage>,
}

impl<T> View for TextureManager<T> {
    type V = Map<(Seq<char>, Seq<char>), CacheEntry<T>>;

    closed spec fn view(&self) -> Map<(Seq<char>, Seq<char>), CacheEntry<T>> {
        self.cache@
    }
}

impl<T> TextureManager<T> {
    /// The manager invariant: its cache holds one entry per id.
    pub closed spec fn wf(&self) -> bool {
        self.cache.wf()
    }

    /// Number of cache entries, pending and ready together.
    pub closed spec fn count(&self) -> nat {
        self.cache.count()
    }

    /// An empty manager with a fresh handoff channel.
    pub fn new() -> (r: TextureManager<T>)
        ensures
            r.wf(),
            r@ == Map::<(Seq<char>, Seq<char>), CacheEntry<T>>::empty(),
            r.count() == 0,
    {
        let (tx, rx) = channel_pair();
        TextureManager { cache: Cache::new(), incoming: rx, outgoing: tx }
    }

    /// Number of cache entries, pending and ready together.
    pub fn len(&self) -> (r: usize)
        ensures
            r == self.count(),
    {
        self.cache.len()
    }

    /// Read-only lookup for the draw layer: the entry for `id`, if any.
    /// A `Pending` entry carries no artifact yet; callers tolerate absence.
    pub fn get(&self, id: &ResourceId) -> (r: Option<&CacheEntry<T>>)
        requires
            self.wf(),
        ensures
            match r {
                Some(e) => self@.contains_key(id@) && *e == self@[id@],
                None => !self@.contains_key(id@),
            },
    {
        self.cache.get(id)
    }

    /// Request a texture load, coalescing duplicates.
    ///
    /// If `id` already has an entry — pending or ready — nothing changes
    /// and no job is produced. Otherwise a `Pending` placeholder is
    /// inserted and the returned job, which captures the id, its location
    /// under `root` and a sender for the handoff channel, must be submitted
    /// to the worker pool.
    pub fn load(&mut self, id: &ResourceId, root: &str) -> (job: Option<TextureJob>)
        requires
            old(self).wf(),
        ensures
            final(self).wf(),
            final(self)@ == load_transition(old(self)@, id@),
            (job is Some) == load_submits(old(self)@, id@),
            final(self).count() == if load_submits(old(self)@, id@) {
                old(self).count() + 1
            } else {
                old(self).count()
            },
            job matches Some(j) ==> j.id@ == id@ && j.location@ == root@ + seq!['/'] + id@.0
                + seq!['/'] + id@.1,
    {
        if self.cache.contains(id) {
            None
        } else {
            self.cache.insert(id.clone(), CacheEntry::Pending);
            Some(
                TextureJob {
                    id: id.clone(),
                    location: id.resolve(root),
                    results: sender_clone(&self.outgoing),
                },
            )
        }
    }

    /// Apply one completed decode result.
    ///
    /// Only a `Pending` entry for `id` is affected: success makes it
    /// `Ready(handle)`, failure removes it so a retry is possible. Every
    /// other id's entry is untouched, and an absent or `Ready` entry for
    /// `id` itself stays exactly as it was.
    pub fn apply(&mut self, id: &ResourceId, outcome: Result<T, LoadFailure>)
        requires
            old(self).wf(),
        ensures
            final(self).wf(),
            final(self)@ == apply_outcome(old(self)@, id@, outcome),
            forall|k: (Seq<char>, Seq<char>)|
                k != id@ ==> final(self)@.contains_key(k) == old(self)@.contains_key(k) && (
                old(self)@.contains_key(k) ==> final(self)@[k] == old(self)@[k]),
    {
        let is_pending = match self.cache.get(id) {
            Some(entry) => match entry {
                CacheEntry::Pending => true,
                CacheEntry::Ready(_) => false,
            },
            None => false,
        };
        if is_pending {
            match outcome {
                Ok(handle) => self.cache.mark_ready(id, handle),
                Err(_) => self.cache.remove(id),
            }
        }
    }

    /// Apply a batch of completed decode results, first to last.
    ///
    /// An empty batch leaves every entry unchanged: the per-frame tick
    /// costs nothing when no decode has finished.
    pub fn tick(&mut self, completed: Vec<(ResourceId, Result<T, LoadFailure>)>)
        requires
            old(self).wf(),
        ensures
            final(self).wf(),
            final(self)@ == apply_all(old(self)@, completed@),
            completed@.len() == 0 ==> final(self)@ == old(self)@,
    {
        let mut remaining = completed;
        let ghost orig = remaining@;
        let ghost mut done = Seq::<(ResourceId, Result<T, LoadFailure>)>::empty();
        proof {
            assert(orig =~= done + remaining@);
        }
        while remaining.len() > 0
            invariant
                self.wf(),
                orig == done + remaining@,
                self@ == apply_all(old(self)@, done),
            decreases remaining@.len(),
        {
            let ghost before = remaining@;
            let (id, outcome) = remaining.remove(0);
            let ghost pair = (id, outcome);
            self.apply(&id, outcome);
            proof {
                let done_before = done;
                done = done.push(pair);
                assert(done.drop_last() =~= done_before);
                assert(done.last() == pair);
                assert(orig =~= done + remaining@) by {
                    assert(before[0] == pair);
                    assert(remaining@ =~= before.remove(0));
                }
            }
        }
        proof {
            assert(orig =~= done);
            assert(completed@ == orig);
        }
    }

    /// Drain every message currently available on the handoff channel,
    /// without blocking.
    ///
    /// At most one decode job is ever in flight per cache entry, so one
    /// message per entry bounds everything a drain can owe; the loop stops
    /// as soon as the channel is momentarily empty.
    pub fn drain_incoming(&self) -> (msgs: Vec<DecodeMessage>)
        ensures
            msgs@.len() <= self.count(),
    {
        let mut msgs: Vec<DecodeMessage> = Vec::new();
        let mut budget = self.cache.len();
        while budget > 0
            invariant
                msgs@.len() + budget <= self.count(),
            decreases budget,
        {
            match try_next(&self.incoming) {
                Some(m) => msgs.push(m),
                None => {
                    return msgs;
                },
            }
            budget = budget - 1;
        }
        msgs
    }

    /// A sending handle onto this manager's handoff channel, for tests and
    /// custom producers.
    pub fn result_sender(&self) -> Sender<DecodeMessage> {
        sender_clone(&self.outgoing)
    }
}

} // verus!
