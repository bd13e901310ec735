//! A single coloured triangle.

use std::ops::Range;
use vstd::prelude::*;

use crate::buffer::{BufferDescriptor, BufferUsages};
use crate::bytes::{index_bytes, native_bytes};
use crate::layout::{
    packed_layout, packed_offset, IndexFormat, VertexAttribute, VertexBufferLayout,
    VertexBufferLayoutView, VertexFormat, VertexStepMode,
};
use crate::pass::{BindGroupId, BufferId, DrawCommand, RenderPass};
use crate::primitives::Vertex;
use crate::scalar::Scalar;

verus! {

/// A vertex of a triangle: where it is and what colour it has.
#[derive(Clone, Copy, Debug)]
pub struct TriangleVertex<S> {
    pub position: [S; 3],
    pub color: [S; 3],
}

/// The attributes of a [`TriangleVertex`], in the order of its fields.
pub open spec fn triangle_vertex_formats() -> Seq<VertexFormat> {
    seq![VertexFormat::Float32x3, VertexFormat::Float32x3]
}

impl<S> Vertex for TriangleVertex<S> {
    /// Position at location 0 and offset 0, colour at location 1 and offset
    /// 12, in an element of 24 bytes. The layout is that of scalars of 32
    /// bits.
    open spec fn spec_layout() -> VertexBufferLayoutView {
        VertexBufferLayoutView {
            array_stride: 24,
            step_mode: VertexStepMode::Vertex,
            attributes: seq![
                VertexAttribute { format: VertexFormat::Float32x3, offset: 0, shader_location: 0 },
                VertexAttribute { format: VertexFormat::Float32x3, offset: 12, shader_location: 1 },
            ],
        }
    }

    fn layout() -> (layout: VertexBufferLayout) {
        let formats = [VertexFormat::Float32x3, VertexFormat::Float32x3];
        proof {
            reveal_with_fuel(packed_offset, 3);
            assert(formats@ =~= triangle_vertex_formats());
            assert(packed_layout(VertexStepMode::Vertex, formats@, 0).attributes
                =~= Self::spec_layout().attributes);
        }
        VertexBufferLayout::packed(VertexStepMode::Vertex, formats.as_slice(), 0)
    }
}

/// A triangle: three vertices and the order in which they are drawn.
#[derive(Debug)]
pub struct Triangle<S> {
    pub vertices: [TriangleVertex<S>; 3],
    pub indices: [u16; 3],
}

impl<S: Scalar> Triangle<S> {
    /// The triangle of `vertices`, drawn in the order given.
    pub fn new(vertices: [TriangleVertex<S>; 3]) -> (triangle: Triangle<S>)
        ensures
            triangle.vertices == vertices,
            triangle.indices@ == seq![0u16, 1, 2],
    {
        let indices: [u16; 3] = [0, 1, 2];
        assert(indices@ =~= seq![0u16, 1, 2]);
        Triangle { vertices, indices }
    }

    /// The buffer of the vertices: three elements of the vertex layout.
    pub fn vertex_buffer(&self) -> (descriptor: BufferDescriptor)
        ensures
            descriptor.label@ == "Triangle Vertex Buffer"@,
            descriptor.size == 3 * TriangleVertex::<S>::spec_layout().array_stride,
            descriptor.usage == BufferUsages::vertex(),
    {
        BufferDescriptor { label: "Triangle Vertex Buffer", size: 72, usage: BufferUsages::vertex() }
    }

    /// The buffer of the indices: two bytes for each.
    pub fn index_buffer(&self) -> (descriptor: BufferDescriptor)
        ensures
            descriptor.label@ == "Triangle Index Buffer"@,
            descriptor.size == 2 * self.indices@.len(),
            descriptor.usage == BufferUsages::index(),
    {
        BufferDescriptor { label: "Triangle Index Buffer", size: 6, usage: BufferUsages::index() }
    }

    /// The contents of the index buffer: the indices as the machine stores
    /// them.
    pub fn index_bytes(&self) -> (bytes: Vec<u8>)
        ensures
            native_bytes(self.indices@, bytes@),
            bytes@.len() == 2 * self.indices@.len(),
    {
        index_bytes(self.indices.as_slice())
    }
}

/// The commands that draw a triangle for the instances
/// `instances.start..instances.end`.
pub open spec fn triangle_commands(instances: Range<u32>, camera_bind_group: BindGroupId) -> Seq<
    DrawCommand,
> {
    seq![
        DrawCommand::SetVertexBuffer { slot: 0, buffer: BufferId::TriangleVertices },
        DrawCommand::SetIndexBuffer {
            buffer: BufferId::TriangleIndices,
            format: IndexFormat::Uint32,
        },
        DrawCommand::SetBindGroup { index: 0, group: camera_bind_group },
        DrawCommand::DrawIndexed {
            first_index: 0,
            end_index: 3,
            base_vertex: 0,
            first_instance: instances.start,
            end_instance: instances.end,
        },
    ]
}

/// Recording the draw of a triangle.
pub trait DrawTriangle<S> {
    /// What has been recorded so far.
    spec fn recorded(&self) -> Seq<DrawCommand>;

    /// Draws the triangle once.
    fn draw_triangle(&mut self, triangle: &Triangle<S>, camera_bind_group: BindGroupId)
        ensures
            final(self).recorded() == old(self).recorded() + triangle_commands(
                0..1,
                camera_bind_group,
            ),
    ;

    /// Draws the triangle once for each of `instances`.
    fn draw_triangle_instanced(
        &mut self,
        triangle: &Triangle<S>,
        instances: Range<u32>,
        camera_bind_group: BindGroupId,
    )
        ensures
            final(self).recorded() == old(self).recorded() + triangle_commands(
                instances,
                camera_bind_group,
            ),
    ;
}

impl<S> DrawTriangle<S> for RenderPass {
    open spec fn recorded(&self) -> Seq<DrawCommand> {
        self@
    }

    fn draw_triangle(&mut self, triangle: &Triangle<S>, camera_bind_group: BindGroupId) {
        self.draw_triangle_instanced(triangle, 0..1, camera_bind_group);
    }

    fn draw_triangle_instanced(
        &mut self,
        triangle: &Triangle<S>,
        instances: Range<u32>,
        camera_bind_group: BindGroupId,
    ) {
        let num_indices: u32 = 3;
        self.set_vertex_buffer(0, BufferId::TriangleVertices);
        self.set_index_buffer(BufferId::TriangleIndices, IndexFormat::Uint32);
        self.set_bind_group(0, camera_bind_group);
        self.draw_indexed(0..num_indices, 0, instances);
        assert(self@ =~= old(self)@ + triangle_commands(instances, camera_bind_group));
    }
}

} // verus!
