//! CPU-side buffers with a device-mirror lifecycle.
//!
//! A [`BufferGPU`] owns the packed bytes of one buffer together with the
//! state of its device-side mirror. The mirror goes through four states:
//! unallocated, allocated and clean, allocated and dirty, released. The
//! synchronization step [`BufferGPU::on_before_render`] decides what the
//! device must do — create the buffer and upload everything on first use,
//! re-upload after a mutation, or nothing — and the caller carries that
//! [`SyncAction`] out against the real graphics context. Mutations through
//! [`BufferGPU::set_bytes`] patch the bytes in place and mark the mirror
//! dirty, so the next synchronization uploads exactly once.
use vstd::prelude::*;

verus! {

/// Which binding target a buffer is created for.
#[derive(Clone, Copy, Debug, PartialEq, Eq, Structural)]
pub enum BufferKind {
    ArrayBuffer,
    UniformBuffer,
    ElementArrayBuffer,
}

/// The usage hint handed to the device when the mirror is allocated.
#[derive(Clone, Copy, Debug, PartialEq, Eq, Structural)]
pub enum BufferUsage {
    StaticDraw,
    DynamicDraw,
}

/// Fatal buffer failures surfaced to the caller. Device allocation failing is
/// not recoverable at this layer: without a device buffer nothing can render.
#[derive(Clone, Copy, Debug, PartialEq, Eq, Structural)]
pub enum BufferError {
    UsageChangeAfterCreation,
    CreationFailed,
}

/// The lifecycle state of a buffer's device-side mirror.
#[derive(Clone, Copy, Debug, PartialEq, Eq, Structural)]
pub enum SyncState {
    /// No device buffer exists yet; the first synchronization creates it.
    Unallocated,
    /// The device buffer holds the current bytes.
    AllocatedClean,
    /// The bytes changed since the last upload.
    AllocatedDirty,
    /// The owner tore the buffer down; it must never be used again.
    Released,
}

/// What the device must do at a synchronization point.
#[derive(Clone, Copy, Debug, PartialEq, Eq, Structural)]
pub enum SyncAction {
    /// Create the device buffer and upload the entire byte buffer.
    CreateAndUpload,
    /// Upload the current byte buffer into the existing device buffer.
    Upload,
    /// The mirror is current; no device call is needed.
    NoOp,
}

/// The synchronization transition: next state and required device action.
pub open spec fn spec_sync_step(state: SyncState) -> (SyncState, SyncAction) {
    match state {
        SyncState::Unallocated => (SyncState::AllocatedClean, SyncAction::CreateAndUpload),
        SyncState::AllocatedClean => (SyncState::AllocatedClean, SyncAction::NoOp),
        SyncState::AllocatedDirty => (SyncState::AllocatedClean, SyncAction::Upload),
        SyncState::Released => (SyncState::Released, SyncAction::NoOp),
    }
}

/// How a mutation moves the mirror state: an allocated mirror becomes dirty,
/// an unallocated one stays unallocated since its first upload is still owed.
pub open spec fn spec_touch(state: SyncState) -> SyncState {
    match state {
        SyncState::Unallocated => SyncState::Unallocated,
        SyncState::AllocatedClean => SyncState::AllocatedDirty,
        SyncState::AllocatedDirty => SyncState::AllocatedDirty,
        SyncState::Released => SyncState::Released,
    }
}

/// Synchronizing is idempotent: one step lands in the allocated-clean state,
/// and a second step with no intervening mutation is a no-op that stays
/// there, so the upload happens exactly once per change.
pub proof fn lemma_sync_idempotent(state: SyncState)
    requires
        state != SyncState::Released,
    ensures
        spec_sync_step(state).0 == SyncState::AllocatedClean,
        spec_sync_step(spec_sync_step(state).0).0 == spec_sync_step(state).0,
        spec_sync_step(spec_sync_step(state).0).1 == SyncAction::NoOp,
{
}

/// A byte buffer destined for the device, with its mirror's lifecycle state.
///
/// `id` is the identity minted at construction: the join key into the
/// device-buffer cache owned by the renderer. It is never reused.
pub struct BufferGPU {
    pub id: u64,
    pub kind: BufferKind,
    pub usage: BufferUsage,
    pub buffer_cpu: Vec<u8>,
    pub state: SyncState,
}

impl BufferGPU {
    /// A fresh buffer holding `buffer_cpu`, with a newly minted identity and
    /// no device mirror yet.
    pub fn new(
        kind: BufferKind,
        usage: BufferUsage,
        buffer_cpu: Vec<u8>,
        counter: &mut u64,
    ) -> (buffer: BufferGPU)
        requires
            *old(counter) < u64::MAX,
        ensures
            buffer.id == *old(counter),
            *final(counter) == *old(counter) + 1,
            buffer.kind == kind,
            buffer.usage == usage,
            buffer.buffer_cpu == buffer_cpu,
            buffer.state == SyncState::Unallocated,
    {
        let id = crate::generate_id::generate_id(counter);
        BufferGPU { id, kind, usage, buffer_cpu, state: SyncState::Unallocated }
    }

    /// Overwrites `value.len()` bytes at `byte_offset` and marks the mirror
    /// dirty. No byte outside the window changes, and nothing else about the
    /// buffer changes.
    pub fn set_bytes(&mut self, byte_offset: usize, value: &[u8])
        requires
            old(self).state != SyncState::Released,
            byte_offset + value.len() <= old(self).buffer_cpu.len(),
        ensures
            final(self).buffer_cpu.len() == old(self).buffer_cpu.len(),
            forall|i: int|
                byte_offset <= i < byte_offset + value.len()
                    ==> #[trigger] final(self).buffer_cpu[i] == value[i - byte_offset],
            forall|i: int|
                0 <= i < old(self).buffer_cpu.len() && !(byte_offset <= i < byte_offset
                    + value.len()) ==> final(self).buffer_cpu[i] == old(self).buffer_cpu[i],
            final(self).state == spec_touch(old(self).state),
            final(self).id == old(self).id,
            final(self).kind == old(self).kind,
            final(self).usage == old(self).usage,
    {
        let mut j: usize = 0;
        while j < value.len()
            invariant
                byte_offset + value.len() <= self.buffer_cpu.len(),
                j <= value.len(),
                self.buffer_cpu.len() == old(self).buffer_cpu.len(),
                forall|i: int|
                    byte_offset <= i < byte_offset + j ==> #[trigger] self.buffer_cpu[i] == value[i
                        - byte_offset],
                forall|i: int|
                    0 <= i < old(self).buffer_cpu.len() && !(byte_offset <= i < byte_offset + j)
                        ==> self.buffer_cpu[i] == old(self).buffer_cpu[i],
                self.state == old(self).state,
                self.id == old(self).id,
                self.kind == old(self).kind,
                self.usage == old(self).usage,
            decreases value.len() - j,
        {
            self.buffer_cpu.set(byte_offset + j, value[j]);
            j = j + 1;
        }
        self.state = match self.state {
            SyncState::Unallocated => SyncState::Unallocated,
            SyncState::AllocatedClean => SyncState::AllocatedDirty,
            SyncState::AllocatedDirty => SyncState::AllocatedDirty,
            SyncState::Released => SyncState::Released,
        };
    }

    /// Overwrites the `size`-byte little-endian scalar at `byte_offset` with
    /// `bits` and marks the mirror dirty, leaving all other bytes alone.
    pub fn write_scalar_at(&mut self, byte_offset: usize, bits: u32, size: usize)
        requires
            old(self).state != SyncState::Released,
            size == 1 || size == 2 || size == 4,
            bits < crate::codec::pow256(size as nat),
            byte_offset + size <= old(self).buffer_cpu.len(),
        ensures
            final(self).buffer_cpu.len() == old(self).buffer_cpu.len(),
            forall|i: int|
                byte_offset <= i < byte_offset + size ==> #[trigger] final(self).buffer_cpu[i]
                    == crate::codec::le_byte(bits as int, (i - byte_offset) as nat),
            forall|i: int|
                0 <= i < old(self).buffer_cpu.len() && !(byte_offset <= i < byte_offset + size)
                    ==> final(self).buffer_cpu[i] == old(self).buffer_cpu[i],
            final(self).state == spec_touch(old(self).state),
            final(self).id == old(self).id,
            final(self).kind == old(self).kind,
            final(self).usage == old(self).usage,
    {
        crate::codec::write_scalar_le(&mut self.buffer_cpu, byte_offset, bits, size);
        self.state = match self.state {
            SyncState::Unallocated => SyncState::Unallocated,
            SyncState::AllocatedClean => SyncState::AllocatedDirty,
            SyncState::AllocatedDirty => SyncState::AllocatedDirty,
            SyncState::Released => SyncState::Released,
        };
    }

    /// The synchronization point before a draw: decides the device action and
    /// settles the mirror into the allocated-clean state. Whatever the state
    /// was, after this call the buffer is clean and a second call without an
    /// intervening mutation returns [`SyncAction::NoOp`].
    pub fn on_before_render(&mut self) -> (action: SyncAction)
        requires
            old(self).state != SyncState::Released,
        ensures
            (final(self).state, action) == spec_sync_step(old(self).state),
            final(self).state == SyncState::AllocatedClean,
            final(self).buffer_cpu == old(self).buffer_cpu,
            final(self).id == old(self).id,
            final(self).kind == old(self).kind,
            final(self).usage == old(self).usage,
    {
        let action = match self.state {
            SyncState::Unallocated => SyncAction::CreateAndUpload,
            SyncState::AllocatedClean => SyncAction::NoOp,
            SyncState::AllocatedDirty => SyncAction::Upload,
            SyncState::Released => SyncAction::NoOp,
        };
        self.state = SyncState::AllocatedClean;
        action
    }

    /// Tears the mirror down for good. Identities are never reused, so a
    /// released buffer can never be rebound to a new logical resource.
    pub fn release(&mut self)
        ensures
            final(self).state == SyncState::Released,
            final(self).buffer_cpu == old(self).buffer_cpu,
            final(self).id == old(self).id,
            final(self).kind == old(self).kind,
            final(self).usage == old(self).usage,
    {
        self.state = SyncState::Released;
    }

    /// Whether the bytes changed since the device mirror last saw them.
    pub fn dirty(&self) -> (dirty: bool)
        ensures
            dirty == (self.state == SyncState::AllocatedDirty),
    {
        match self.state {
            SyncState::AllocatedDirty => true,
            _ => false,
        }
    }

    /// Byte length of the buffer.
    pub fn size(&self) -> (size: usize)
        ensures
            size == self.buffer_cpu.len(),
    {
        self.buffer_cpu.len()
    }
}

} // verus!
