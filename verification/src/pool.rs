//! Trusted surface of the background worker pool.
//!
//! Decode jobs run on a fixed-size pool of worker threads so that load
//! latency never blocks the render loop. The pool itself is opaque: the
//! contracts only track the number of workers it was built with, which the
//! resource manager fixes from configuration. Job bodies perform file I/O,
//! so submitting them is the caller's side of the bargain; the library only
//! sizes and hands out the pool.

use vstd::prelude::*;

use threadpool::ThreadPool;

verus! {

/// Fixed-size set of background worker threads.
#[verifier::external_type_specification]
#[verifier::external_body]
pub struct ExThreadPool(ThreadPool);

/// The number of worker threads a pool was built with.
pub uninterp spec fn pool_threads(p: ThreadPool) -> usize;

/// Relies on threadpool::ThreadPool::new: builds a pool running exactly
/// `num_threads` workers; it panics when `num_threads` is zero, so that
/// input is excluded.
#[verifier::external_body]
pub(crate) fn pool_new(num_threads: usize) -> (r: ThreadPool)
    requires
        num_threads >= 1,
    ensures
        pool_threads(r) == num_threads,
{
    ThreadPool::new(num_threads)
}

/// Relies on threadpool::ThreadPool::max_count: the number of workers the
/// pool runs. The library never resizes a pool after construction, so this
/// is the count it was built with.
#[verifier::external_body]
pub(crate) fn pool_max_count(p: &ThreadPool) -> (r: usize)
    ensures
        r == pool_threads(*p),
{
    p.max_count()
}

/// Relies on threadpool::ThreadPool::clone: a new handle to the same pool,
/// sharing its workers and queue, for submitting jobs from elsewhere.
#[verifier::external_body]
pub(crate) fn pool_handle(p: &ThreadPool) -> (r: ThreadPool)
    ensures
        pool_threads(r) == pool_threads(*p),
{
    p.clone()
}

} // verus!
