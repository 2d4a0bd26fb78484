//! Core of a retained-mode rendering engine: typed vertex attribute streams,
//! byte-exact layout planning for single-attribute and interleaved buffers,
//! little-endian serialization into packed byte buffers, named per-vertex
//! mutation, and the dirty/clean lifecycle that keeps a device-side mirror of
//! each buffer current.
//!
//! Everything that touches a real GPU context lives outside this crate; the
//! types here expose the computed layouts, the raw bytes ready to upload, and
//! the synchronization decisions, all with proved contracts.
use vstd::prelude::*;

pub mod attributes;
pub mod buffer_gpu;
pub mod codec;
pub mod generate_id;
pub mod geometry;
pub mod index_buffer;
pub mod layout;
pub mod material;
pub mod mesh;
pub mod obj_parser;
pub mod renderer;
pub mod texture;
pub mod ubo;
pub mod vertex_buffer;

verus! {

} // verus!
