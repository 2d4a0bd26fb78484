//! A geometry: the buffers one drawable object owns.
//!
//! Producers (model loaders, procedural builders, instancing setups) fill a
//! geometry with single-attribute and interleaved vertex buffers plus an
//! optional index buffer. The lookups here answer the one question the
//! mutation API needs: which buffer, if any, carries an attribute of a given
//! name. A miss is an expected probe result, since callers routinely ask
//! several buffers for the same name.
use vstd::prelude::*;

use crate::index_buffer::IndexBuffer;
use crate::layout::spec_find;
use crate::vertex_buffer::{InterleavedVertexBuffer, VertexBuffer};

verus! {

/// The buffers making up one drawable object.
pub struct Geometry {
    pub instance_count: Option<usize>,
    pub vertex_count: usize,
    pub indices: Option<IndexBuffer>,
    pub vertex_buffers: Vec<VertexBuffer>,
    pub interleaved_vertex_buffers: Vec<InterleavedVertexBuffer>,
}

/// Index of the first single-attribute buffer named `name` at or after `i`,
/// or `-1`.
pub open spec fn spec_find_buffer_from(
    buffers: Seq<VertexBuffer>,
    name: Seq<char>,
    i: int,
) -> int
    decreases buffers.len() - i,
{
    if i < 0 || i >= buffers.len() {
        -1
    } else if buffers[i].layout.name@ == name {
        i
    } else {
        spec_find_buffer_from(buffers, name, i + 1)
    }
}

/// Index of the first interleaved buffer with an attribute named `name` at
/// or after `i`, or `-1`.
pub open spec fn spec_find_interleaved_from(
    buffers: Seq<InterleavedVertexBuffer>,
    name: Seq<char>,
    i: int,
) -> int
    decreases buffers.len() - i,
{
    if i < 0 || i >= buffers.len() {
        -1
    } else if spec_find(buffers[i].layouts@, name) >= 0 {
        i
    } else {
        spec_find_interleaved_from(buffers, name, i + 1)
    }
}

impl Geometry {
    /// Index into `vertex_buffers` of the first buffer whose attribute is
    /// named `name`, or `None` when no such buffer exists.
    pub fn get_vertex_buffer(&self, name: &str) -> (found: Option<usize>)
        ensures
            ({
                let f = spec_find_buffer_from(self.vertex_buffers@, name@, 0);
                if f >= 0 {
                    found == Some(f as usize)
                } else {
                    found is None
                }
            }),
    {
        let owned: String = name.to_owned();
        let mut idx: usize = 0;
        while idx < self.vertex_buffers.len()
            invariant
                idx <= self.vertex_buffers.len(),
                owned@ == name@,
                spec_find_buffer_from(self.vertex_buffers@, name@, 0) == spec_find_buffer_from(
                    self.vertex_buffers@,
                    name@,
                    idx as int,
                ),
            decreases self.vertex_buffers.len() - idx,
        {
            if self.vertex_buffers[idx].layout.name == owned {
                return Some(idx);
            }
            idx = idx + 1;
        }
        None
    }

    /// Index into `interleaved_vertex_buffers` of the first buffer holding
    /// an attribute named `name`, or `None` when no buffer does.
    ///
    /// An interleaved buffer stores several attributes; mutating it through
    /// this handle can touch bytes of the named attribute only, but the
    /// buffer returned is shared with its other attributes.
    pub fn get_interleaved_vertex_buffer(&self, name: &str) -> (found: Option<usize>)
        ensures
            ({
                let f = spec_find_interleaved_from(self.interleaved_vertex_buffers@, name@, 0);
                if f >= 0 {
                    found == Some(f as usize)
                } else {
                    found is None
                }
            }),
    {
        let mut idx: usize = 0;
        while idx < self.interleaved_vertex_buffers.len()
            invariant
                idx <= self.interleaved_vertex_buffers.len(),
                spec_find_interleaved_from(self.interleaved_vertex_buffers@, name@, 0)
                    == spec_find_interleaved_from(
                    self.interleaved_vertex_buffers@,
                    name@,
                    idx as int,
                ),
            decreases self.interleaved_vertex_buffers.len() - idx,
        {
            match crate::layout::find_layout(&self.interleaved_vertex_buffers[idx].layouts, name) {
                Some(_) => {
                    return Some(idx);
                },
                None => {
                },
            }
            idx = idx + 1;
        }
        None
    }

    /// A geometry drawing one interleaved buffer without indices.
    pub fn from_interleaved(interleaved_vertex_buffer: InterleavedVertexBuffer) -> (geometry:
        Geometry)
        requires
            interleaved_vertex_buffer.wf(),
        ensures
            geometry.instance_count is None,
            geometry.vertex_count == interleaved_vertex_buffer.spec_vertex_count(),
            geometry.indices is None,
            geometry.vertex_buffers@.len() == 0,
            geometry.interleaved_vertex_buffers@.len() == 1,
            geometry.interleaved_vertex_buffers[0] == interleaved_vertex_buffer,
    {
        let vertex_count = interleaved_vertex_buffer.vertex_count();
        let mut interleaved_vertex_buffers: Vec<InterleavedVertexBuffer> = Vec::new();
        interleaved_vertex_buffers.push(interleaved_vertex_buffer);
        Geometry {
            instance_count: None,
            vertex_count,
            indices: None,
            vertex_buffers: Vec::new(),
            interleaved_vertex_buffers,
        }
    }
}

} // verus!
