//! Draw-level vocabulary shared with the renderer.
use vstd::prelude::*;

verus! {

/// Which primitive the vertices assemble into when drawn.
#[derive(Clone, Copy, Debug, PartialEq, Eq, Structural)]
pub enum RenderPrimitive {
    Points,
    LineStrip,
    LineLoop,
    Lines,
    TriangleStrip,
    TriangleFan,
    Triangles,
}

/// Fatal mesh-level failures surfaced to the caller.
#[derive(Clone, Copy, Debug, PartialEq, Eq, Structural)]
pub enum MeshError {
    VAOCreationFailed,
    UninitializedMaterial,
}

} // verus!
