//! The renderer's error vocabulary: everything a draw submission can fail
//! with, folded into one type so the render loop can propagate any of them.
use vstd::prelude::*;

use crate::buffer_gpu::BufferError;
use crate::material::MaterialError;
use crate::mesh::MeshError;

verus! {

/// Any fatal failure a render pass can surface.
#[derive(Debug)]
pub enum RenderError {
    MeshError(MeshError),
    BufferError(BufferError),
    MaterialError(MaterialError),
}

impl From<BufferError> for RenderError {
    fn from(value: BufferError) -> (error: RenderError) {
        RenderError::BufferError(value)
    }
}

impl vstd::std_specs::convert::FromSpecImpl<BufferError> for RenderError {
    open spec fn obeys_from_spec() -> bool {
        true
    }

    open spec fn from_spec(value: BufferError) -> RenderError {
        RenderError::BufferError(value)
    }
}

impl From<MeshError> for RenderError {
    fn from(value: MeshError) -> (error: RenderError) {
        RenderError::MeshError(value)
    }
}

impl vstd::std_specs::convert::FromSpecImpl<MeshError> for RenderError {
    open spec fn obeys_from_spec() -> bool {
        true
    }

    open spec fn from_spec(value: MeshError) -> RenderError {
        RenderError::MeshError(value)
    }
}

impl From<MaterialError> for RenderError {
    fn from(value: MaterialError) -> (error: RenderError) {
        RenderError::MaterialError(value)
    }
}

impl vstd::std_specs::convert::FromSpecImpl<MaterialError> for RenderError {
    open spec fn obeys_from_spec() -> bool {
        true
    }

    open spec fn from_spec(value: MaterialError) -> RenderError {
        RenderError::MaterialError(value)
    }
}

} // verus!
