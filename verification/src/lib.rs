//! Frontend of a real-time rendering engine: a frame-graph task scheduler
//! with dependency/barrier merging, resource lifetime queries, and a
//! sort-key-based command submission pipeline.

pub mod api;
pub mod buffer;
pub mod cmd;
pub mod format;
pub mod frame;
pub mod glbackend;
pub mod image;
pub mod imageio;
pub mod pipeline;
pub mod upload;

pub use api::AliasScope;
