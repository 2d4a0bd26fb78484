use suricato::attributes::{Data, VertexData};
use suricato::buffer_gpu::{BufferGPU, BufferKind, BufferUsage, SyncAction, SyncState};
use suricato::generate_id::generate_id;
use suricato::geometry::Geometry;
use suricato::index_buffer::IndexBuffer;
use suricato::vertex_buffer::{InterleavedVertexBuffer, VertexBuffer};

fn identity_bits() -> [u32; 16] {
    let identity = [
        1.0f32, 0.0, 0.0, 0.0, 0.0, 1.0, 0.0, 0.0, 0.0, 0.0, 1.0, 0.0, 0.0, 0.0, 0.0, 1.0,
    ];
    let mut bits = [0u32; 16];
    for (slot, value) in bits.iter_mut().zip(identity.iter()) {
        *slot = value.to_bits();
    }
    bits
}

fn zero_mat4(count: usize) -> Data {
    Data::Mat4(vec![[0u32; 16]; count])
}

#[test]
fn generate_id_is_monotonic() {
    let mut counter: u64 = 0;
    assert_eq!(generate_id(&mut counter), 0);
    assert_eq!(generate_id(&mut counter), 1);
    assert_eq!(generate_id(&mut counter), 2);
    assert_eq!(counter, 3);
}

#[test]
fn buffers_mint_distinct_ids() {
    let mut counter: u64 = 0;
    let a = VertexBuffer::new("a", Data::Float(vec![0]), &mut counter);
    let b = VertexBuffer::new("b", Data::Float(vec![0]), &mut counter);
    assert_ne!(a.buffer.id, b.buffer.id);
    assert_eq!(counter, 2);
}

#[test]
fn size_invariant_holds_for_constructed_buffers() {
    let mut counter: u64 = 0;
    let buffer = VertexBuffer::new(
        "position",
        Data::Vec3(vec![[0, 0, 0], [1, 2, 3], [4, 5, 6], [7, 8, 9]]),
        &mut counter,
    );
    assert_eq!(buffer.layout.stride, 12);
    assert_eq!(buffer.vertex_count(), 4);
    assert_eq!(buffer.buffer.buffer_cpu.len(), buffer.layout.stride * buffer.vertex_count());
}

#[test]
fn sync_uploads_once_until_mutated() {
    // Idempotence of the synchronization step: allocate and upload on first
    // use, nothing on the second call, upload again only after a mutation.
    let mut counter: u64 = 0;
    let mut buffer = BufferGPU::new(
        BufferKind::ArrayBuffer,
        BufferUsage::DynamicDraw,
        vec![0, 1, 2, 3],
        &mut counter,
    );
    assert_eq!(buffer.state, SyncState::Unallocated);
    assert_eq!(buffer.on_before_render(), SyncAction::CreateAndUpload);
    assert!(!buffer.dirty());
    assert_eq!(buffer.on_before_render(), SyncAction::NoOp);
    assert!(!buffer.dirty());

    buffer.set_bytes(1, &[9, 9]);
    assert!(buffer.dirty());
    assert_eq!(buffer.buffer_cpu, vec![0, 9, 9, 3]);
    assert_eq!(buffer.on_before_render(), SyncAction::Upload);
    assert!(!buffer.dirty());
    assert_eq!(buffer.on_before_render(), SyncAction::NoOp);
}

#[test]
fn released_buffers_stay_released() {
    let mut counter: u64 = 0;
    let mut buffer =
        BufferGPU::new(BufferKind::UniformBuffer, BufferUsage::StaticDraw, vec![0], &mut counter);
    buffer.release();
    assert_eq!(buffer.state, SyncState::Released);
    assert!(!buffer.dirty());
}

#[test]
fn set_matrix_writes_exactly_one_vertex_and_dirties() {
    // A single-attribute Mat4 instance buffer with stride 64: updating
    // instance 3 touches exactly bytes [192, 256) and flips the dirty flag
    // that a previous synchronization had cleared.
    let mut counter: u64 = 0;
    let mut attr = VertexData::new("transform", zero_mat4(4));
    attr.divisor = 1;
    let mut buffer = VertexBuffer::with_config(BufferUsage::DynamicDraw, attr, &mut counter);
    assert_eq!(buffer.layout.stride, 64);
    assert_eq!(buffer.buffer.buffer_cpu.len(), 256);

    assert_eq!(buffer.buffer.on_before_render(), SyncAction::CreateAndUpload);
    assert!(!buffer.buffer.dirty());

    let before = buffer.buffer.buffer_cpu.clone();
    assert!(buffer.set_matrix("transform", 3, &identity_bits()));
    assert!(buffer.buffer.dirty());

    let after = &buffer.buffer.buffer_cpu;
    assert_eq!(&after[..192], &before[..192]);
    let mut expected = Vec::new();
    for value in identity_bits() {
        expected.extend_from_slice(&value.to_le_bytes());
    }
    assert_eq!(&after[192..256], &expected[..]);
    assert_eq!(buffer.buffer.on_before_render(), SyncAction::Upload);
}

#[test]
fn set_scalar_misses_are_silent() {
    let mut counter: u64 = 0;
    let mut buffer =
        VertexBuffer::new("displacement", Data::Float(vec![0, 0, 0]), &mut counter);
    buffer.buffer.on_before_render();
    let before = buffer.buffer.buffer_cpu.clone();
    assert!(!buffer.set_scalar("weight", 1, 2.5f32.to_bits()));
    assert_eq!(buffer.buffer.buffer_cpu, before);
    assert!(!buffer.buffer.dirty());

    assert!(buffer.set_scalar("displacement", 1, 2.5f32.to_bits()));
    assert_eq!(&buffer.buffer.buffer_cpu[4..8], &2.5f32.to_le_bytes());
    assert_eq!(&buffer.buffer.buffer_cpu[0..4], &[0, 0, 0, 0]);
    assert_eq!(&buffer.buffer.buffer_cpu[8..12], &[0, 0, 0, 0]);
    assert!(buffer.buffer.dirty());
}

fn quad_attrs() -> Vec<VertexData> {
    let positions: Vec<[u32; 2]> = [[0.5f32, 0.5], [0.5, -0.5], [-0.5, -0.5], [-0.5, 0.5]]
        .iter()
        .map(|v| [v[0].to_bits(), v[1].to_bits()])
        .collect();
    let colors = vec![[255u8, 0, 0], [0, 255, 0], [0, 0, 255], [0, 255, 0]];
    let mut color = VertexData::new("color", Data::UnsignedByteVec3(colors));
    color.normalize = true;
    vec![VertexData::new("position", Data::Vec2(positions)), color]
}

#[test]
fn interleaved_quad_serializes_to_forty_eight_bytes() {
    let mut counter: u64 = 0;
    let buffer = InterleavedVertexBuffer::new(BufferUsage::StaticDraw, quad_attrs(), &mut counter);
    assert_eq!(buffer.stride(), 12);
    assert_eq!(buffer.vertex_count(), 4);
    assert_eq!(buffer.buffer.buffer_cpu.len(), 48);

    // Vertex 1: position (0.5, -0.5) at offset 12, color (0,255,0) at 20,
    // and the padding byte 23 is zero.
    let bytes = &buffer.buffer.buffer_cpu;
    assert_eq!(&bytes[12..16], &0.5f32.to_le_bytes());
    assert_eq!(&bytes[16..20], &(-0.5f32).to_le_bytes());
    assert_eq!(&bytes[20..23], &[0, 255, 0]);
    assert_eq!(bytes[23], 0);
}

#[test]
fn mutation_isolates_vertices_in_interleaved_buffers() {
    let mut counter: u64 = 0;
    let mut buffer =
        InterleavedVertexBuffer::new(BufferUsage::StaticDraw, quad_attrs(), &mut counter);
    buffer.buffer.on_before_render();
    let before = buffer.buffer.buffer_cpu.clone();

    assert!(buffer.set_scalar("position", 2, 9.0f32.to_bits()));

    let after = &buffer.buffer.buffer_cpu;
    // Only the first scalar of vertex 2's position window changed.
    for (index, (was, is)) in before.iter().zip(after.iter()).enumerate() {
        if (24..28).contains(&index) {
            continue;
        }
        assert_eq!(was, is, "byte {} changed outside the mutated window", index);
    }
    assert_eq!(&after[24..28], &9.0f32.to_le_bytes());
    assert!(buffer.buffer.dirty());
}

#[test]
fn update_vertex_patches_the_named_attribute() {
    let mut counter: u64 = 0;
    let mut buffer =
        InterleavedVertexBuffer::new(BufferUsage::StaticDraw, quad_attrs(), &mut counter);
    assert_eq!(buffer.get_vertex_byte_offset("color", 3), Some(44));
    assert_eq!(buffer.get_vertex_byte_offset("normal", 3), None);

    assert!(buffer.update_vertex("color", 3, &[9, 8, 7]));
    assert_eq!(&buffer.buffer.buffer_cpu[44..47], &[9, 8, 7]);
    assert!(!buffer.update_vertex("normal", 3, &[1, 2, 3]));
}

#[test]
fn index_buffers_serialize_little_endian() {
    let mut counter: u64 = 0;
    let bytes8 = IndexBuffer::from_u8(BufferUsage::StaticDraw, vec![0, 1, 2, 2, 3, 0], &mut counter);
    assert_eq!(bytes8.count, 6);
    assert_eq!(bytes8.buffer.buffer_cpu, vec![0, 1, 2, 2, 3, 0]);

    let bytes16 = IndexBuffer::from_u16(BufferUsage::StaticDraw, vec![0x0102, 0xA0B0], &mut counter);
    assert_eq!(bytes16.count, 2);
    assert_eq!(bytes16.buffer.buffer_cpu, vec![0x02, 0x01, 0xB0, 0xA0]);

    let bytes32 = IndexBuffer::from_u32(BufferUsage::StaticDraw, vec![0x01020304], &mut counter);
    assert_eq!(bytes32.count, 1);
    assert_eq!(bytes32.buffer.buffer_cpu, vec![0x04, 0x03, 0x02, 0x01]);
    assert_ne!(bytes8.buffer.id, bytes16.buffer.id);
}

#[test]
fn geometry_lookups_probe_buffers_by_name() {
    let mut counter: u64 = 0;
    let position = VertexBuffer::new("position", Data::Float(vec![0, 0]), &mut counter);
    let weight = VertexBuffer::new("weight", Data::Float(vec![0, 0]), &mut counter);
    let interleaved =
        InterleavedVertexBuffer::new(BufferUsage::StaticDraw, quad_attrs(), &mut counter);
    let geometry = Geometry {
        instance_count: None,
        vertex_count: 2,
        indices: None,
        vertex_buffers: vec![position, weight],
        interleaved_vertex_buffers: vec![interleaved],
    };
    assert_eq!(geometry.get_vertex_buffer("weight"), Some(1));
    assert_eq!(geometry.get_vertex_buffer("color"), None);
    assert_eq!(geometry.get_interleaved_vertex_buffer("color"), Some(0));
    assert_eq!(geometry.get_interleaved_vertex_buffer("weight"), None);
}

#[test]
fn geometry_from_interleaved_takes_its_vertex_count() {
    let mut counter: u64 = 0;
    let interleaved =
        InterleavedVertexBuffer::new(BufferUsage::StaticDraw, quad_attrs(), &mut counter);
    let geometry = Geometry::from_interleaved(interleaved);
    assert_eq!(geometry.vertex_count, 4);
    assert!(geometry.indices.is_none());
    assert_eq!(geometry.interleaved_vertex_buffers.len(), 1);
}

#[test]
fn values_read_back_from_computed_offsets() {
    // Round trip through an interleaved buffer: every float written comes
    // back bit-exactly from the offset the layout computes for it.
    let mut counter: u64 = 0;
    let buffer = InterleavedVertexBuffer::new(BufferUsage::StaticDraw, quad_attrs(), &mut counter);
    let expected = [[0.5f32, 0.5], [0.5, -0.5], [-0.5, -0.5], [-0.5, 0.5]];
    for (vertex, pair) in expected.iter().enumerate() {
        let at = buffer.get_vertex_byte_offset("position", vertex).unwrap();
        for (component, value) in pair.iter().enumerate() {
            let bits =
                suricato::codec::read_scalar_le(&buffer.buffer.buffer_cpu, at + component * 4, 4);
            assert_eq!(f32::from_bits(bits), *value);
        }
    }
}

#[test]
fn uniform_buffers_share_the_sync_lifecycle() {
    let mut counter: u64 = 0;
    let mut ubo = suricato::ubo::UniformBufferObject::new(vec![0u8; 16], &mut counter);
    assert!(ubo.binding_point.is_none());
    ubo.set_binding_point(2);
    assert_eq!(ubo.binding_point, Some(2));

    assert_eq!(ubo.buffer.on_before_render(), SyncAction::CreateAndUpload);
    ubo.set_bytes(4, &1.0f32.to_le_bytes());
    assert!(ubo.buffer.dirty());
    assert_eq!(&ubo.buffer.buffer_cpu[4..8], &1.0f32.to_le_bytes());
    assert_eq!(&ubo.buffer.buffer_cpu[0..4], &[0, 0, 0, 0]);
    assert_eq!(ubo.buffer.on_before_render(), SyncAction::Upload);
}
