//! Renderer rules: draw batching, texture parameters, sprite animation and shader sources.
pub mod batch;
pub mod camera;
pub mod particles;
pub mod shader;
pub mod sprite;
pub mod texture;
