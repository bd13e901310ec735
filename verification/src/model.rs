//! The vertices of a loaded model.

use vstd::prelude::*;

use crate::instance::InstanceRaw;
use crate::layout::{
    packed_layout, packed_offset, VertexAttribute, VertexBufferLayout, VertexBufferLayoutView,
    VertexFormat, VertexStepMode,
};
use crate::primitives::Vertex;

verus! {

/// A vertex of a mesh: position, texture coordinates, normal, and the two
/// directions that span its tangent space.
#[derive(Clone, Copy, Debug)]
pub struct ModelVertex<S> {
    pub position: [S; 3],
    pub tex_coords: [S; 2],
    pub normal: [S; 3],
    pub tangent: [S; 3],
    pub bitangent: [S; 3],
}

/// The attributes of a [`ModelVertex`], in the order of its fields.
pub open spec fn model_vertex_formats() -> Seq<VertexFormat> {
    seq![
        VertexFormat::Float32x3,
        VertexFormat::Float32x2,
        VertexFormat::Float32x3,
        VertexFormat::Float32x3,
        VertexFormat::Float32x3,
    ]
}

impl<S> Vertex for ModelVertex<S> {
    /// The five fields at locations 0 to 4, packed into an element of 56
    /// bytes. The layout is that of scalars of 32 bits.
    open spec fn spec_layout() -> VertexBufferLayoutView {
        VertexBufferLayoutView {
            array_stride: 56,
            step_mode: VertexStepMode::Vertex,
            attributes: seq![
                VertexAttribute { format: VertexFormat::Float32x3, offset: 0, shader_location: 0 },
                VertexAttribute { format: VertexFormat::Float32x2, offset: 12, shader_location: 1 },
                VertexAttribute { format: VertexFormat::Float32x3, offset: 20, shader_location: 2 },
                VertexAttribute { format: VertexFormat::Float32x3, offset: 32, shader_location: 3 },
                VertexAttribute { format: VertexFormat::Float32x3, offset: 44, shader_location: 4 },
            ],
        }
    }

    fn layout() -> (layout: VertexBufferLayout) {
        let formats = [
            VertexFormat::Float32x3,
            VertexFormat::Float32x2,
            VertexFormat::Float32x3,
            VertexFormat::Float32x3,
            VertexFormat::Float32x3,
        ];
        proof {
            reveal_with_fuel(packed_offset, 6);
            assert(formats@ =~= model_vertex_formats());
            assert(packed_layout(VertexStepMode::Vertex, formats@, 0).attributes
                =~= Self::spec_layout().attributes);
        }
        VertexBufferLayout::packed(VertexStepMode::Vertex, formats.as_slice(), 0)
    }
}

/// The vertex stream of a model and the instance stream can feed one
/// pipeline: no shader location is claimed by both.
pub proof fn lemma_model_and_instance_locations_disjoint<S>()
    ensures
        ModelVertex::<S>::spec_layout().disjoint_locations(InstanceRaw::<S>::spec_layout()),
{
}

} // verus!
