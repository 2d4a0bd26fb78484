use suricato::attributes::{Data, VertexComponentType, VertexData};
use suricato::buffer_gpu::BufferError;
use suricato::layout::VertexLayout;
use suricato::material::column_bindings;
use suricato::mesh::MeshError;
use suricato::renderer::RenderError;

#[test]
fn scalar_attributes_bind_one_slot() {
    let attr = VertexData::new("weight", Data::Float(vec![0, 0]));
    let layout = VertexLayout::from_vertex(&attr);
    let bindings = column_bindings(5, &layout);
    assert_eq!(bindings.len(), 1);
    assert_eq!(bindings[0].location, 5);
    assert_eq!(bindings[0].component_count, 1);
    assert_eq!(bindings[0].component_type, VertexComponentType::Float);
    assert_eq!(bindings[0].offset, 0);
    assert_eq!(bindings[0].stride, 4);
}

#[test]
fn matrix_attributes_bind_one_slot_per_column() {
    // A 4x4 float matrix occupies four consecutive slots of four components,
    // sixteen bytes apart.
    let mut attr = VertexData::new("transform", Data::Mat4(vec![[0u32; 16]; 3]));
    attr.divisor = 1;
    let layout = VertexLayout::from_vertex(&attr);
    let bindings = column_bindings(8, &layout);
    assert_eq!(bindings.len(), 4);
    for (column, binding) in bindings.iter().enumerate() {
        assert_eq!(binding.location, 8 + column as u32);
        assert_eq!(binding.component_count, 4);
        assert_eq!(binding.component_type, VertexComponentType::Float);
        assert_eq!(binding.offset, column * 16);
        assert_eq!(binding.stride, 64);
        assert_eq!(binding.divisor, 1);
    }
}

#[test]
fn mat3_columns_are_spaced_by_twelve_bytes() {
    let attr = VertexData::new("transform", Data::Mat3(vec![[0u32; 9]]));
    let layout = VertexLayout::from_vertex(&attr);
    let bindings = column_bindings(0, &layout);
    assert_eq!(bindings.len(), 3);
    assert_eq!(bindings[0].offset, 0);
    assert_eq!(bindings[1].offset, 12);
    assert_eq!(bindings[2].offset, 24);
    assert_eq!(bindings[2].component_count, 3);
}

#[test]
fn render_errors_wrap_their_sources() {
    let from_buffer = RenderError::from(BufferError::CreationFailed);
    assert!(matches!(from_buffer, RenderError::BufferError(BufferError::CreationFailed)));
    let from_mesh = RenderError::from(MeshError::VAOCreationFailed);
    assert!(matches!(from_mesh, RenderError::MeshError(MeshError::VAOCreationFailed)));
}
