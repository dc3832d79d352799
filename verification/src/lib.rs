//! Asynchronous asset-loading and resource-lifecycle core of a real-time
//! rendering client.
//!
//! Named resources (textures, shaders) are turned into GPU-ready artifacts
//! without blocking the render loop: texture decoding runs on a background
//! worker pool and results flow back to the owning thread through a
//! single-consumer handoff channel, while shader compilation stays
//! synchronous on the thread that owns the graphics context. Caches
//! deduplicate requests by structural resource identity.

pub mod cache;
pub mod clock;
pub mod gui;
pub mod handoff;
pub mod pool;
pub mod resource;
pub mod resource_manager;
pub mod settings;
pub mod shader_manager;
pub mod texture_manager;

pub use cache::Cache;
pub use cache::CacheEntry;
pub use clock::TimeParts;
pub use gui::Button;
pub use gui::Container;
pub use gui::ContainerPosition;
pub use resource::ResourceId;
pub use resource_manager::ResourceManager;
pub use resource_manager::WindowSize;
pub use settings::Settings;
pub use shader_manager::ShaderManager;
pub use texture_manager::DecodeMessage;
pub use texture_manager::LoadFailure;
pub use texture_manager::PixelData;
pub use texture_manager::TextureJob;
pub use texture_manager::TextureManager;
