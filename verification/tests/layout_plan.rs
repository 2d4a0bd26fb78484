use suricato::attributes::{Data, VertexComponentType, VertexData};
use suricato::layout::VertexLayout;

fn vec2_attr(name: &str, values: &[[f32; 2]]) -> VertexData {
    let data: Vec<[u32; 2]> = values.iter().map(|v| [v[0].to_bits(), v[1].to_bits()]).collect();
    VertexData::new(name, Data::Vec2(data))
}

fn color_attr(name: &str, values: &[[u8; 3]]) -> VertexData {
    let mut attr = VertexData::new(name, Data::UnsignedByteVec3(values.to_vec()));
    attr.normalize = true;
    attr
}

#[test]
fn align_to_rounds_up_to_the_boundary() {
    assert_eq!(VertexLayout::align_to(5, 4), 8);
    assert_eq!(VertexLayout::align_to(8, 4), 8);
    assert_eq!(VertexLayout::align_to(0, 4), 0);
    assert_eq!(VertexLayout::align_to(11, 4), 12);
    assert_eq!(VertexLayout::align_to(7, 0), 7);
    assert_eq!(VertexLayout::align_to(3, 1), 3);
    assert_eq!(VertexLayout::align_to(3, 2), 4);
}

#[test]
fn single_attribute_layout_is_tightly_packed() {
    let attr = vec2_attr("position", &[[0.5, 0.5], [-0.5, 0.5]]);
    let layout = VertexLayout::from_vertex(&attr);
    assert_eq!(layout.name, "position");
    assert_eq!(layout.component_count, 2);
    assert_eq!(layout.component_type, VertexComponentType::Float);
    assert_eq!(layout.offset, 0);
    assert_eq!(layout.stride, 8);
    assert_eq!(layout.divisor, 0);
    assert_eq!(layout.number_of_columns, 1);
    assert!(!layout.normalize);
}

#[test]
fn matrix_attribute_spans_columns() {
    let identity = [
        1.0f32, 0.0, 0.0, 0.0, 0.0, 1.0, 0.0, 0.0, 0.0, 0.0, 1.0, 0.0, 0.0, 0.0, 0.0, 1.0,
    ];
    let mut bits = [0u32; 16];
    for (slot, value) in bits.iter_mut().zip(identity.iter()) {
        *slot = value.to_bits();
    }
    let mut attr = VertexData::new("transform", Data::Mat4(vec![bits, bits]));
    attr.divisor = 1;
    let layout = VertexLayout::from_vertex(&attr);
    assert_eq!(layout.component_count, 16);
    assert_eq!(layout.number_of_columns, 4);
    assert_eq!(layout.stride, 64);
    assert_eq!(layout.divisor, 1);
}

#[test]
fn interleaved_position_and_color_layout() {
    // Two attributes for four vertices: float pairs then normalized bytes.
    // The color lands right after the position (8 is already 1-aligned) and
    // the stride rounds 11 up to the widest alignment, 4.
    let attrs = vec![
        vec2_attr("position", &[[0.5, 0.5], [0.5, -0.5], [-0.5, -0.5], [-0.5, 0.5]]),
        color_attr("color", &[[255, 0, 0], [0, 255, 0], [0, 0, 255], [0, 255, 0]]),
    ];
    let layouts = VertexLayout::from_vertex_array(&attrs);
    assert_eq!(layouts.len(), 2);

    assert_eq!(layouts[0].name, "position");
    assert_eq!(layouts[0].offset, 0);
    assert_eq!(layouts[0].stride, 12);
    assert_eq!(layouts[0].component_count, 2);
    assert_eq!(layouts[0].component_type, VertexComponentType::Float);
    assert!(!layouts[0].normalize);

    assert_eq!(layouts[1].name, "color");
    assert_eq!(layouts[1].offset, 8);
    assert_eq!(layouts[1].stride, 12);
    assert_eq!(layouts[1].component_count, 3);
    assert_eq!(layouts[1].component_type, VertexComponentType::UnsignedByte);
    assert!(layouts[1].normalize);
}

#[test]
fn interleaved_layout_aligns_floats_after_bytes() {
    // A byte triple first: the float pair must be pushed from 3 up to 4.
    let attrs = vec![
        color_attr("color", &[[1, 2, 3]]),
        vec2_attr("uv", &[[0.25, 0.75]]),
    ];
    let layouts = VertexLayout::from_vertex_array(&attrs);
    assert_eq!(layouts[0].offset, 0);
    assert_eq!(layouts[1].offset, 4);
    assert_eq!(layouts[0].stride, 12);
    assert_eq!(layouts[1].stride, 12);
}

#[test]
fn alignment_invariant_holds_on_a_mixed_layout() {
    let attrs = vec![
        color_attr("color", &[[1, 2, 3]]),
        VertexData::new("flags", Data::UnsignedShort(vec![7])),
        vec2_attr("uv", &[[0.0, 1.0]]),
    ];
    let layouts = VertexLayout::from_vertex_array(&attrs);
    let sizes = [1usize, 2, 4];
    for (layout, size) in layouts.iter().zip(sizes.iter()) {
        assert_eq!(layout.offset % size, 0);
        assert_eq!(layout.stride % size, 0);
    }
    // Ranges are disjoint and inside the stride.
    assert_eq!(layouts[0].offset, 0);
    assert_eq!(layouts[1].offset, 4);
    assert_eq!(layouts[2].offset, 8);
    assert_eq!(layouts[2].stride, 16);
    assert!(layouts[2].offset + 8 <= layouts[2].stride);
}
