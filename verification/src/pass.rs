//! A render pass as a list of commands.
//!
//! Drawing is recorded, not performed: each call appends one command, and the
//! shell that owns the device replays the list in order. What a frame draws,
//! and in which order, is therefore a value that contracts can state.

use std::ops::Range;
use vstd::prelude::*;

use crate::layout::IndexFormat;

verus! {

/// The pipelines of the scene.
#[derive(Clone, Copy, Debug, PartialEq, Eq, Structural)]
pub enum PipelineId {
    /// Draws the marker of the light.
    Light,
    /// Draws the lit, instanced model.
    Model,
    /// Draws the screen-space overlay, alpha-blended.
    Overlay,
}

/// The device buffers that a pass reads.
#[derive(Clone, Copy, Debug, PartialEq, Eq, Structural)]
pub enum BufferId {
    Instances,
    QuadVertices,
    QuadIndices,
    TriangleVertices,
    TriangleIndices,
}

/// The bind groups that a pass attaches.
#[derive(Clone, Copy, Debug, PartialEq, Eq, Structural)]
pub enum BindGroupId {
    Camera,
    OrthoCamera,
    Light,
    Quad,
}

/// The loaded models.
#[derive(Clone, Copy, Debug, PartialEq, Eq, Structural)]
pub enum ModelId {
    Object,
    LightMarker,
}

/// One recorded command.
#[derive(Clone, Copy, Debug, PartialEq, Eq, Structural)]
pub enum DrawCommand {
    SetPipeline { pipeline: PipelineId },
    SetVertexBuffer { slot: u32, buffer: BufferId },
    SetIndexBuffer { buffer: BufferId, format: IndexFormat },
    SetBindGroup { index: u32, group: BindGroupId },
    /// Draws the indices `first_index..end_index` for the instances
    /// `first_instance..end_instance`.
    DrawIndexed {
        first_index: u32,
        end_index: u32,
        base_vertex: i32,
        first_instance: u32,
        end_instance: u32,
    },
    /// Draws every mesh of the light marker once.
    DrawLightModel { model: ModelId, camera: BindGroupId, light: BindGroupId },
    /// Draws every mesh of a model for the instances
    /// `first_instance..end_instance`.
    DrawModelInstanced {
        model: ModelId,
        first_instance: u32,
        end_instance: u32,
        camera: BindGroupId,
        light: BindGroupId,
    },
}

/// How a pass starts: whether the colour target and the depth buffer are
/// cleared first, and whether what is drawn is kept.
#[derive(Clone, Copy, Debug)]
pub struct RenderPassDescriptor {
    pub label: &'static str,
    pub clear_color: bool,
    pub clear_depth: bool,
    pub store: bool,
}

/// The commands of one pass, in the order in which they were recorded.
#[derive(Debug)]
pub struct RenderPass {
    pub commands: Vec<DrawCommand>,
}

/// One frame: how its pass starts and what the pass draws.
#[derive(Debug)]
pub struct Frame {
    pub descriptor: RenderPassDescriptor,
    pub pass: RenderPass,
}

impl View for RenderPass {
    type V = Seq<DrawCommand>;

    open spec fn view(&self) -> Seq<DrawCommand> {
        self.commands@
    }
}

impl RenderPass {
    /// A pass with nothing recorded.
    pub fn new() -> (pass: RenderPass)
        ensures
            pass@ == Seq::<DrawCommand>::empty(),
    {
        RenderPass { commands: Vec::new() }
    }

    pub fn set_pipeline(&mut self, pipeline: PipelineId)
        ensures
            final(self)@ == old(self)@.push(DrawCommand::SetPipeline { pipeline }),
    {
        self.commands.push(DrawCommand::SetPipeline { pipeline });
    }

    pub fn set_vertex_buffer(&mut self, slot: u32, buffer: BufferId)
        ensures
            final(self)@ == old(self)@.push(DrawCommand::SetVertexBuffer { slot, buffer }),
    {
        self.commands.push(DrawCommand::SetVertexBuffer { slot, buffer });
    }

    pub fn set_index_buffer(&mut self, buffer: BufferId, format: IndexFormat)
        ensures
            final(self)@ == old(self)@.push(DrawCommand::SetIndexBuffer { buffer, format }),
    {
        self.commands.push(DrawCommand::SetIndexBuffer { buffer, format });
    }

    pub fn set_bind_group(&mut self, index: u32, group: BindGroupId)
        ensures
            final(self)@ == old(self)@.push(DrawCommand::SetBindGroup { index, group }),
    {
        self.commands.push(DrawCommand::SetBindGroup { index, group });
    }

    pub fn draw_indexed(&mut self, indices: Range<u32>, base_vertex: i32, instances: Range<u32>)
        ensures
            final(self)@ == old(self)@.push(
                DrawCommand::DrawIndexed {
                    first_index: indices.start,
                    end_index: indices.end,
                    base_vertex,
                    first_instance: instances.start,
                    end_instance: instances.end,
                },
            ),
    {
        self.commands.push(
            DrawCommand::DrawIndexed {
                first_index: indices.start,
                end_index: indices.end,
                base_vertex,
                first_instance: instances.start,
                end_instance: instances.end,
            },
        );
    }

    pub fn draw_light_model(&mut self, model: ModelId, camera: BindGroupId, light: BindGroupId)
        ensures
            final(self)@ == old(self)@.push(DrawCommand::DrawLightModel { model, camera, light }),
    {
        self.commands.push(DrawCommand::DrawLightModel { model, camera, light });
    }

    pub fn draw_model_instanced(
        &mut self,
        model: ModelId,
        instances: Range<u32>,
        camera: BindGroupId,
        light: BindGroupId,
    )
        ensures
            final(self)@ == old(self)@.push(
                DrawCommand::DrawModelInstanced {
                    model,
                    first_instance: instances.start,
                    end_instance: instances.end,
                    camera,
                    light,
                },
            ),
    {
        self.commands.push(
            DrawCommand::DrawModelInstanced {
                model,
                first_instance: instances.start,
                end_instance: instances.end,
                camera,
                light,
            },
        );
    }
}

} // verus!
