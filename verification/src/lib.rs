//! The presentation core of the Ironhold engine: buffer capacity management,
//! surface acquisition and recovery, projection of a scene into GPU instance
//! records, and the cancellable frame loop that sequences them.

pub mod assets;
pub mod buffer;
pub mod dev_server;
pub mod engine;
pub mod export;
pub mod frame;
pub mod hot_reload;
pub mod payload;
pub mod pipeline;
pub mod projector;
pub mod scene;
pub mod sim;
pub mod surface;
pub mod text;
pub mod tooling;
pub mod types;
pub mod wgpu_init;
