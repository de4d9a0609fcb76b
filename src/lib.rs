//! Device-resource layer of a real-time renderer: name-keyed libraries of meshes,
//! textures and materials, a sampler cache, a queue of pending device uploads and
//! the recording of per-framebuffer draw commands.

pub mod command_buffer;
pub mod engine;
pub mod lemmas;
pub mod library;
pub mod pixels;
pub mod resources;

pub use engine::{MdrEngine, MdrEngineOptions};
pub use resources::{MdrMaterial, MdrMesh, MdrResourceError, MdrResourceManager, MdrTexture};
