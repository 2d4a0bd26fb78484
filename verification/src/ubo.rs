//! Uniform buffer objects: a uniform block's bytes with the same
//! device-mirror lifecycle as vertex data.
//!
//! The block's contents are opaque bytes to this core; what is managed here
//! is the byte buffer, its binding-point assignment, and the dirty/clean
//! lifecycle. Issuing the actual binding call belongs to the caller that
//! owns the graphics context.
use vstd::prelude::*;

use crate::buffer_gpu::{spec_touch, BufferGPU, BufferKind, BufferUsage, SyncState};

verus! {

/// A uniform block's bytes and the binding point it was assigned, if any.
pub struct UniformBufferObject {
    pub binding_point: Option<u32>,
    pub buffer: BufferGPU,
}

impl UniformBufferObject {
    /// A fresh uniform buffer holding `buffer_cpu`, not yet bound anywhere.
    pub fn new(buffer_cpu: Vec<u8>, counter: &mut u64) -> (ubo: UniformBufferObject)
        requires
            *old(counter) < u64::MAX,
        ensures
            ubo.binding_point is None,
            ubo.buffer.buffer_cpu == buffer_cpu,
            ubo.buffer.kind == BufferKind::UniformBuffer,
            ubo.buffer.usage == BufferUsage::DynamicDraw,
            ubo.buffer.state == SyncState::Unallocated,
            ubo.buffer.id == *old(counter),
            *final(counter) == *old(counter) + 1,
    {
        UniformBufferObject {
            binding_point: None,
            buffer: BufferGPU::new(
                BufferKind::UniformBuffer,
                BufferUsage::DynamicDraw,
                buffer_cpu,
                counter,
            ),
        }
    }

    /// Records the binding point the caller bound this block to.
    pub fn set_binding_point(&mut self, binding_point: u32)
        ensures
            final(self).binding_point == Some(binding_point),
            final(self).buffer == old(self).buffer,
    {
        self.binding_point = Some(binding_point);
    }

    /// Overwrites `data.len()` bytes at `byte_offset` and marks the block's
    /// mirror dirty; no byte outside the window changes.
    pub fn set_bytes(&mut self, byte_offset: usize, data: &[u8])
        requires
            old(self).buffer.state != SyncState::Released,
            byte_offset + data.len() <= old(self).buffer.buffer_cpu.len(),
        ensures
            final(self).binding_point == old(self).binding_point,
            final(self).buffer.buffer_cpu.len() == old(self).buffer.buffer_cpu.len(),
            forall|i: int|
                byte_offset <= i < byte_offset + data.len()
                    ==> #[trigger] final(self).buffer.buffer_cpu[i] == data[i - byte_offset],
            forall|i: int|
                0 <= i < old(self).buffer.buffer_cpu.len() && !(byte_offset <= i < byte_offset
                    + data.len()) ==> final(self).buffer.buffer_cpu[i] == old(
                    self,
                ).buffer.buffer_cpu[i],
            final(self).buffer.state == spec_touch(old(self).buffer.state),
            final(self).buffer.id == old(self).buffer.id,
            final(self).buffer.kind == old(self).buffer.kind,
            final(self).buffer.usage == old(self).buffer.usage,
    {
        self.buffer.set_bytes(byte_offset, data);
    }
}

} // verus!
