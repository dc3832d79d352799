//! Immutable configuration consumed by the resource pipeline.
//!
//! The settings value is built once at startup, shared read-only through a
//! reference-counted handle, and supplies the worker-pool size, the initial
//! window dimensions and the asset root used to resolve resource ids.

use vstd::prelude::*;

verus! {

/// Read-only configuration for the resource manager.
pub struct Settings {
    pub loader_threads: usize,
    pub width: u32,
    pub height: u32,
    pub asset_root: String,
}

impl Settings {
    /// A settings value is valid when it asks for at least one loader thread.
    pub open spec fn valid(&self) -> bool {
        self.loader_threads >= 1
    }

    /// Build a configuration value.
    ///
    /// At least one loader thread is required: the worker pool cannot be
    /// constructed with zero threads.
    pub fn new(loader_threads: usize, width: u32, height: u32, asset_root: String) -> (r:
        Settings)
        requires
            loader_threads >= 1,
        ensures
            r.valid(),
            r.loader_threads == loader_threads,
            r.width == width,
            r.height == height,
            r.asset_root@ == asset_root@,
    {
        Settings { loader_threads, width, height, asset_root }
    }

    /// Number of background worker threads to run decode jobs on.
    pub fn loader_threads(&self) -> (r: usize)
        ensures
            r == self.loader_threads,
    {
        self.loader_threads
    }

    /// Initial window width in pixels.
    pub fn width(&self) -> (r: u32)
        ensures
            r == self.width,
    {
        self.width
    }

    /// Initial window height in pixels.
    pub fn height(&self) -> (r: u32)
        ensures
            r == self.height,
    {
        self.height
    }

    /// Root location that resource ids resolve under.
    pub fn asset_root(&self) -> (r: &str)
        ensures
            r@ == self.asset_root@,
    {
        self.asset_root.as_str()
    }
}

} // verus!
