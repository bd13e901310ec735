use scene_renderer::instance::InstanceRaw;
use scene_renderer::layout::{
    IndexFormat, VertexAttribute, VertexBufferLayout, VertexFormat, VertexStepMode,
};
use scene_renderer::model::ModelVertex;
use scene_renderer::primitives::quad::QuadVertex;
use scene_renderer::primitives::triangle::TriangleVertex;
use scene_renderer::primitives::Vertex;

fn attribute(format: VertexFormat, offset: u64, shader_location: u32) -> VertexAttribute {
    VertexAttribute { format, offset, shader_location }
}

#[test]
fn vertex_format_sizes_are_four_bytes_per_component() {
    assert_eq!(VertexFormat::Float32x2.size(), 8);
    assert_eq!(VertexFormat::Float32x3.size(), 12);
    assert_eq!(VertexFormat::Float32x4.size(), 16);
}

#[test]
fn index_format_sizes() {
    assert_eq!(IndexFormat::Uint16.size(), 2);
    assert_eq!(IndexFormat::Uint32.size(), 4);
}

#[test]
fn packed_layout_of_nothing_is_empty() {
    let layout = VertexBufferLayout::packed(VertexStepMode::Vertex, &[], 7);
    assert_eq!(layout.array_stride, 0);
    assert_eq!(layout.step_mode, VertexStepMode::Vertex);
    assert!(layout.attributes.is_empty());
}

#[test]
fn packed_layout_adds_up_offsets_and_numbers_locations() {
    let formats = [VertexFormat::Float32x2, VertexFormat::Float32x4, VertexFormat::Float32x3];
    let layout = VertexBufferLayout::packed(VertexStepMode::Instance, &formats, 3);
    assert_eq!(layout.array_stride, 36);
    assert_eq!(layout.step_mode, VertexStepMode::Instance);
    assert_eq!(
        layout.attributes,
        vec![
            attribute(VertexFormat::Float32x2, 0, 3),
            attribute(VertexFormat::Float32x4, 8, 4),
            attribute(VertexFormat::Float32x3, 24, 5),
        ]
    );
}

#[test]
fn packed_layout_reaches_the_last_shader_location() {
    let formats = [VertexFormat::Float32x3, VertexFormat::Float32x3];
    let layout = VertexBufferLayout::packed(VertexStepMode::Vertex, &formats, u32::MAX - 1);
    assert_eq!(layout.attributes[0].shader_location, u32::MAX - 1);
    assert_eq!(layout.attributes[1].shader_location, u32::MAX);
}

#[test]
fn quad_vertex_layout() {
    let layout = QuadVertex::<f32>::layout();
    assert_eq!(layout.array_stride, 28);
    assert_eq!(layout.array_stride as usize, std::mem::size_of::<QuadVertex<f32>>());
    assert_eq!(layout.step_mode, VertexStepMode::Vertex);
    assert_eq!(
        layout.attributes,
        vec![attribute(VertexFormat::Float32x3, 0, 0), attribute(VertexFormat::Float32x4, 12, 1)]
    );
}

#[test]
fn triangle_vertex_layout() {
    let layout = TriangleVertex::<f32>::layout();
    assert_eq!(layout.array_stride, 24);
    assert_eq!(layout.array_stride as usize, std::mem::size_of::<TriangleVertex<f32>>());
    assert_eq!(layout.step_mode, VertexStepMode::Vertex);
    assert_eq!(
        layout.attributes,
        vec![attribute(VertexFormat::Float32x3, 0, 0), attribute(VertexFormat::Float32x3, 12, 1)]
    );
}

#[test]
fn model_vertex_layout() {
    let layout = ModelVertex::<f32>::layout();
    assert_eq!(layout.array_stride, 56);
    assert_eq!(layout.array_stride as usize, std::mem::size_of::<ModelVertex<f32>>());
    assert_eq!(
        layout.attributes,
        vec![
            attribute(VertexFormat::Float32x3, 0, 0),
            attribute(VertexFormat::Float32x2, 12, 1),
            attribute(VertexFormat::Float32x3, 20, 2),
            attribute(VertexFormat::Float32x3, 32, 3),
            attribute(VertexFormat::Float32x3, 44, 4),
        ]
    );
}

#[test]
fn instance_layout_steps_per_instance_from_location_five() {
    let layout = InstanceRaw::<f32>::layout();
    assert_eq!(layout.array_stride, 64);
    assert_eq!(layout.step_mode, VertexStepMode::Instance);
    assert_eq!(
        layout.attributes,
        vec![
            attribute(VertexFormat::Float32x4, 0, 5),
            attribute(VertexFormat::Float32x4, 16, 6),
            attribute(VertexFormat::Float32x4, 32, 7),
            attribute(VertexFormat::Float32x4, 48, 8),
        ]
    );
}

#[test]
fn model_and_instance_streams_share_no_location() {
    let model = ModelVertex::<f32>::layout();
    let instance = InstanceRaw::<f32>::layout();
    for a in model.attributes.iter() {
        for b in instance.attributes.iter() {
            assert_ne!(a.shader_location, b.shader_location);
        }
    }
}
