//! Element index buffers: index arrays serialized little-endian for the
//! device's element-array binding, in 8, 16 or 32 bit widths.
use vstd::prelude::*;

use crate::attributes::{Data, VertexComponentType};
use crate::buffer_gpu::{BufferGPU, BufferKind, BufferUsage, SyncState};

verus! {

/// An index array ready for the device: the packed bytes, the index width,
/// how many indices there are, and the byte offset draws start at.
pub struct IndexBuffer {
    pub kind: VertexComponentType,
    pub count: usize,
    pub offset: usize,
    pub buffer: BufferGPU,
}

impl IndexBuffer {
    /// Wraps byte-wide indices; the bytes go in unchanged.
    pub fn from_u8(usage: BufferUsage, buffer_cpu: Vec<u8>, counter: &mut u64) -> (indices:
        IndexBuffer)
        requires
            *old(counter) < u64::MAX,
        ensures
            indices.kind == VertexComponentType::UnsignedByte,
            indices.count == buffer_cpu.len(),
            indices.offset == 0,
            indices.buffer.buffer_cpu@ == buffer_cpu@,
            indices.buffer.kind == BufferKind::ElementArrayBuffer,
            indices.buffer.usage == usage,
            indices.buffer.state == SyncState::Unallocated,
            indices.buffer.id == *old(counter),
            *final(counter) == *old(counter) + 1,
    {
        let count = buffer_cpu.len();
        IndexBuffer {
            kind: VertexComponentType::UnsignedByte,
            count,
            offset: 0,
            buffer: BufferGPU::new(BufferKind::ElementArrayBuffer, usage, buffer_cpu, counter),
        }
    }

    /// Serializes 16-bit indices little-endian, two bytes each.
    pub fn from_u16(usage: BufferUsage, buffer_cpu: Vec<u16>, counter: &mut u64) -> (indices:
        IndexBuffer)
        requires
            buffer_cpu.len() * 2 <= usize::MAX,
            *old(counter) < u64::MAX,
        ensures
            indices.kind == VertexComponentType::UnsignedShort,
            indices.count == buffer_cpu.len(),
            indices.offset == 0,
            indices.buffer.buffer_cpu@ == Data::UnsignedShort(buffer_cpu).spec_packed_bytes(),
            indices.buffer.buffer_cpu.len() == buffer_cpu.len() * 2,
            indices.buffer.kind == BufferKind::ElementArrayBuffer,
            indices.buffer.usage == usage,
            indices.buffer.state == SyncState::Unallocated,
            indices.buffer.id == *old(counter),
            *final(counter) == *old(counter) + 1,
    {
        let count = buffer_cpu.len();
        let data = Data::UnsignedShort(buffer_cpu);
        let bytes = data.to_bytes();
        IndexBuffer {
            kind: VertexComponentType::UnsignedShort,
            count,
            offset: 0,
            buffer: BufferGPU::new(BufferKind::ElementArrayBuffer, usage, bytes, counter),
        }
    }

    /// Serializes 32-bit indices little-endian, four bytes each.
    pub fn from_u32(usage: BufferUsage, buffer_cpu: Vec<u32>, counter: &mut u64) -> (indices:
        IndexBuffer)
        requires
            buffer_cpu.len() * 4 <= usize::MAX,
            *old(counter) < u64::MAX,
        ensures
            indices.kind == VertexComponentType::UnsignedInt,
            indices.count == buffer_cpu.len(),
            indices.offset == 0,
            indices.buffer.buffer_cpu@ == Data::UnsignedInt(buffer_cpu).spec_packed_bytes(),
            indices.buffer.buffer_cpu.len() == buffer_cpu.len() * 4,
            indices.buffer.kind == BufferKind::ElementArrayBuffer,
            indices.buffer.usage == usage,
            indices.buffer.state == SyncState::Unallocated,
            indices.buffer.id == *old(counter),
            *final(counter) == *old(counter) + 1,
    {
        let count = buffer_cpu.len();
        let data = Data::UnsignedInt(buffer_cpu);
        let bytes = data.to_bytes();
        IndexBuffer {
            kind: VertexComponentType::UnsignedInt,
            count,
            offset: 0,
            buffer: BufferGPU::new(BufferKind::ElementArrayBuffer, usage, bytes, counter),
        }
    }
}

} // verus!
