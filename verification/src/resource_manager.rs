//! Top-level resource manager facade.
//!
//! Composes the texture and shader managers, the background worker pool,
//! and per-session state: the shared configuration handle, the in-memory
//! window size, and the session start time. Generic over the GPU texture
//! handle `T` and compiled shader handle `S` that the graphics layer
//! produces, since creating either requires the thread owning the
//! graphics context.

use vstd::prelude::*;

use std::sync::Arc;
use std::time::Instant;

use glium::draw_parameters::Blend;
use glium::draw_parameters::DepthTest;
use glium::Depth;
use glium::DrawParameters;
use threadpool::ThreadPool;

use crate::cache::CacheEntry;
use crate::clock::duration_nanos;
use crate::clock::elapsed_since;
use crate::clock::instant_now;
use crate::clock::split_nanos;
use crate::clock::TimeParts;
use crate::pool::pool_handle;
use crate::pool::pool_max_count;
use crate::pool::pool_new;
use crate::pool::pool_threads;
use crate::resource::ResourceId;
use crate::settings::Settings;
use crate::shader_manager::ShaderManager;
use crate::texture_manager::apply_all;
use crate::texture_manager::load_submits;
use crate::texture_manager::load_transition;
use crate::texture_manager::DecodeMessage;
use crate::texture_manager::LoadFailure;
use crate::texture_manager::TextureJob;
use crate::texture_manager::TextureManager;

verus! {

/// Parameters for an ordinary draw call: depth testing and alpha blending.
#[verifier::external_type_specification]
#[verifier::external_body]
pub struct ExDrawParameters<'a>(DrawParameters<'a>);

/// Relies on std::sync::Arc::clone: another handle to the same settings
/// value.
#[verifier::external_body]
fn settings_handle(s: &Arc<Settings>) -> (r: Arc<Settings>)
    ensures
        r == *s,
{
    Arc::clone(s)
}

/// In-memory window size, kept by the resource manager and read by layout
/// and draw code; propagating it to the actual window is the windowing
/// layer's concern.
#[derive(Clone, Copy, PartialEq, Eq, Structural, Debug)]
pub struct WindowSize {
    /// Width in pixels.
    pub width: u32,
    /// Height in pixels.
    pub height: u32,
}

/// Facade over the texture manager, shader manager, worker pool and
/// session state.
pub struct ResourceManager<T, S> {
    /// Shared immutable configuration handle.
    pub settings: Arc<Settings>,
    /// Fixed-size background worker pool for decode jobs.
    pub pool: ThreadPool,
    /// Current in-memory window size.
    pub window_size: WindowSize,
    /// Clock reading taken at construction.
    pub started: Instant,
    /// Owner of the texture cache and handoff channel.
    pub texture_manager: TextureManager<T>,
    /// Owner of the shader cache.
    pub shader_manager: ShaderManager<S>,
}

impl<T, S> ResourceManager<T, S> {
    /// The facade invariant: valid configuration, a pool sized to it, and
    /// well-formed sub-managers.
    pub open spec fn valid(&self) -> bool {
        &&& self.settings.valid()
        &&& pool_threads(self.pool) == self.settings.loader_threads
        &&& self.texture_manager.wf()
        &&& self.shader_manager.wf()
    }

    /// Build the resource manager: a worker pool sized from the settings,
    /// the window size taken from the settings, empty caches, and the
    /// session clock started now.
    pub fn new(settings: Arc<Settings>) -> (r: ResourceManager<T, S>)
        requires
            settings.valid(),
        ensures
            r.valid(),
            r.settings == settings,
            r.window_size == (WindowSize { width: settings.width, height: settings.height }),
            r.texture_manager@ == Map::<(Seq<char>, Seq<char>), CacheEntry<T>>::empty(),
            r.texture_manager.count() == 0,
            r.shader_manager@ == Map::<(Seq<char>, Seq<char>), CacheEntry<S>>::empty(),
            r.shader_manager.count() == 0,
    {
        let pool = pool_new(settings.loader_threads());
        let window_size = WindowSize { width: settings.width(), height: settings.height() };
        ResourceManager {
            pool,
            settings,
            window_size,
            started: instant_now(),
            texture_manager: TextureManager::new(),
            shader_manager: ShaderManager::new(),
        }
    }

    /// A handle to the shared configuration.
    pub fn settings(&self) -> (r: Arc<Settings>)
        ensures
            r == self.settings,
    {
        settings_handle(&self.settings)
    }

    /// Number of workers in the background pool.
    pub fn pool_size(&self) -> (r: usize)
        ensures
            r == pool_threads(self.pool),
    {
        pool_max_count(&self.pool)
    }

    /// A handle to the worker pool, for submitting decode jobs.
    pub fn worker_pool(&self) -> (r: ThreadPool)
        ensures
            pool_threads(r) == pool_threads(self.pool),
    {
        pool_handle(&self.pool)
    }

    /// Apply a batch of completed, uploaded texture results, first to
    /// last. With an empty batch — nothing finished this frame — every
    /// cache entry is left unchanged.
    pub fn tick(&mut self, completed: Vec<(ResourceId, Result<T, LoadFailure>)>)
        requires
            old(self).valid(),
        ensures
            final(self).valid(),
            final(self).texture_manager@ == apply_all(old(self).texture_manager@, completed@),
            completed@.len() == 0 ==> final(self).texture_manager@ == old(self).texture_manager@,
            final(self).shader_manager == old(self).shader_manager,
            final(self).settings == old(self).settings,
            final(self).window_size == old(self).window_size,
            final(self).pool == old(self).pool,
            final(self).started == old(self).started,
    {
        self.texture_manager.tick(completed);
    }

    /// Drain every decode message currently available, without blocking.
    pub fn poll_decoded(&self) -> (msgs: Vec<DecodeMessage>)
        ensures
            msgs@.len() <= self.texture_manager.count(),
    {
        self.texture_manager.drain_incoming()
    }

    /// Current window size.
    pub fn size(&self) -> (r: WindowSize)
        ensures
            r == self.window_size,
    {
        self.window_size
    }

    /// Replace the window size.
    pub fn set_size(&mut self, value: WindowSize)
        ensures
            *final(self) == (ResourceManager { window_size: value, ..*old(self) }),
    {
        self.window_size = value;
    }

    /// Current window width.
    pub fn width(&self) -> (r: u32)
        ensures
            r == self.window_size.width,
    {
        self.window_size.width
    }

    /// Current window height.
    pub fn height(&self) -> (r: u32)
        ensures
            r == self.window_size.height,
    {
        self.window_size.height
    }

    /// Replace the window width.
    pub fn set_width(&mut self, value: u32)
        ensures
            *final(self) == (ResourceManager {
                window_size: WindowSize { width: value, height: old(self).window_size.height },
                ..*old(self)
            }),
    {
        self.window_size.width = value;
    }

    /// Replace the window height.
    pub fn set_height(&mut self, value: u32)
        ensures
            *final(self) == (ResourceManager {
                window_size: WindowSize { width: old(self).window_size.width, height: value },
                ..*old(self)
            }),
    {
        self.window_size.height = value;
    }

    /// The texture manager.
    pub fn textures(&self) -> (r: &TextureManager<T>)
        ensures
            *r == self.texture_manager,
    {
        &self.texture_manager
    }

    /// The shader manager.
    pub fn shaders(&self) -> (r: &ShaderManager<S>)
        ensures
            *r == self.shader_manager,
    {
        &self.shader_manager
    }

    /// Time since construction, split into whole seconds and nanoseconds.
    ///
    /// The reading relies on the monotonic process clock, so successive
    /// calls never go backwards; the split itself is verified, see
    /// [`crate::clock::lemma_split_monotonic`].
    pub fn time(&self) -> (r: TimeParts)
        ensures
            r.subsec_nanos < 1_000_000_000,
    {
        let dur = elapsed_since(&self.started);
        split_nanos(duration_nanos(&dur))
    }

    /// Request a texture load, coalescing duplicates by id.
    ///
    /// The first request for an id yields a decode job — capturing the id,
    /// its location under the configured asset root, and the handoff
    /// sender — which must be submitted to the worker pool; any further
    /// request while the entry exists changes nothing and yields none.
    pub fn load_texture(&mut self, name: &ResourceId) -> (job: Option<TextureJob>)
        requires
            old(self).valid(),
        ensures
            final(self).valid(),
            final(self).texture_manager@ == load_transition(old(self).texture_manager@, name@),
            (job is Some) == load_submits(old(self).texture_manager@, name@),
            job matches Some(j) ==> j.id@ == name@,
            final(self).shader_manager == old(self).shader_manager,
            final(self).settings == old(self).settings,
            final(self).window_size == old(self).window_size,
            final(self).pool == old(self).pool,
            final(self).started == old(self).started,
    {
        let root = self.settings.asset_root();
        self.texture_manager.load(name, root)
    }

    /// The cached shader program for `id`, if one was stored.
    pub fn shader(&self, id: &ResourceId) -> (r: Option<&S>)
        requires
            self.valid(),
        ensures
            match r {
                Some(s) => self.shader_manager@.contains_key(id@) && self.shader_manager@[id@]
                    == CacheEntry::Ready(*s),
                None => !self.shader_manager@.contains_key(id@),
            },
    {
        self.shader_manager.get(id)
    }

    /// Store a compiled shader program, deduplicating by id: the first
    /// store wins and later ones change nothing.
    pub fn store_shader(&mut self, id: &ResourceId, program: S) -> (fresh: bool)
        requires
            old(self).valid(),
        ensures
            final(self).valid(),
            old(self).shader_manager@.contains_key(id@) ==> final(self).shader_manager@ == old(
                self,
            ).shader_manager@ && !fresh,
            !old(self).shader_manager@.contains_key(id@) ==> final(self).shader_manager@ == old(
                self,
            ).shader_manager@.insert(id@, CacheEntry::Ready(program)) && fresh,
            final(self).texture_manager == old(self).texture_manager,
            final(self).settings == old(self).settings,
            final(self).window_size == old(self).window_size,
            final(self).pool == old(self).pool,
            final(self).started == old(self).started,
    {
        self.shader_manager.store(id, program)
    }

    /// Parameters to draw almost any shape: depth-tested, alpha-blended.
    ///
    /// Relies on glium's DrawParameters, Depth and Blend constructors; the
    /// value is opaque configuration consumed by the draw layer.
    #[verifier::external_body]
    pub fn parameters(&self) -> DrawParameters<'static> {
        DrawParameters {
            depth: Depth { test: DepthTest::IfLess, write: true, ..Default::default() },
            blend: Blend::alpha_blending(),
            ..Default::default()
        }
    }

    /// Parameters to draw shapes without depth testing, alpha-blended.
    ///
    /// Relies on glium's DrawParameters and Blend constructors; the value
    /// is opaque configuration consumed by the draw layer.
    #[verifier::external_body]
    pub fn no_depth(&self) -> DrawParameters<'static> {
        DrawParameters { blend: Blend::alpha_blending(), ..Default::default() }
    }
}

} // verus!
