//! Descriptions of bind group layouts, bind groups and pipeline layouts.
//!
//! A bind group layout says what kind of resource stands at each binding
//! number; a bind group puts resources there; a pipeline layout lists the
//! bind group layouts that a pipeline expects, slot by slot.

use vstd::prelude::*;

use crate::pass::{BindGroupId, PipelineId};

verus! {

/// The shader stages that can see a binding.
#[derive(Clone, Copy, Debug, PartialEq, Eq, Structural)]
pub struct ShaderStages {
    pub vertex: bool,
    pub fragment: bool,
}

/// What kind of resource a binding holds.
#[derive(Clone, Copy, Debug, PartialEq, Eq, Structural)]
pub enum BindingType {
    /// A uniform buffer, bound whole and at a fixed offset.
    UniformBuffer,
    /// A two-dimensional texture sampled as floats.
    Texture { filterable: bool },
    /// A sampler.
    Sampler { filtering: bool },
}

/// One binding of a bind group layout.
#[derive(Clone, Copy, Debug, PartialEq, Eq, Structural)]
pub struct BindGroupLayoutEntry {
    pub binding: u32,
    pub visibility: ShaderStages,
    pub ty: BindingType,
}

/// A bind group layout to create.
#[derive(Debug)]
pub struct BindGroupLayoutDescriptor {
    pub label: &'static str,
    pub entries: Vec<BindGroupLayoutEntry>,
}

/// One binding of a bind group: the whole of the buffer that the group is
/// made for.
#[derive(Clone, Copy, Debug, PartialEq, Eq, Structural)]
pub struct BindGroupEntry {
    pub binding: u32,
}

/// A bind group to create.
#[derive(Debug)]
pub struct BindGroupDescriptor {
    pub label: &'static str,
    pub entries: Vec<BindGroupEntry>,
}

/// The entries of a layout number their bindings 0, 1, 2, ...
pub open spec fn bindings_in_order(entries: Seq<BindGroupLayoutEntry>) -> bool {
    forall|i: int| 0 <= i < entries.len() ==> (#[trigger] entries[i]).binding == i
}

/// Every texture is followed by a sampler that filters exactly when the
/// texture can be filtered.
pub open spec fn samplers_match_textures(entries: Seq<BindGroupLayoutEntry>) -> bool {
    forall|i: int|
        0 <= i < entries.len() ==> match (#[trigger] entries[i]).ty {
            BindingType::Texture { filterable } => i + 1 < entries.len() && entries[i + 1].ty == (
            BindingType::Sampler { filtering: filterable }),
            _ => true,
        }
}

/// A bind group fills a layout when it has one entry for each binding of the
/// layout, under the same number.
pub open spec fn fills(group: Seq<BindGroupEntry>, layout: Seq<BindGroupLayoutEntry>) -> bool {
    &&& group.len() == layout.len()
    &&& forall|i: int| 0 <= i < group.len() ==> (#[trigger] group[i]).binding == layout[i].binding
}

/// The entries of the layout for a material: the diffuse texture and its
/// sampler, then the normal map and its sampler, all for the fragment stage.
pub open spec fn texture_layout_entries() -> Seq<BindGroupLayoutEntry> {
    let fragment = ShaderStages { vertex: false, fragment: true };
    seq![
        BindGroupLayoutEntry {
            binding: 0,
            visibility: fragment,
            ty: BindingType::Texture { filterable: true },
        },
        BindGroupLayoutEntry {
            binding: 1,
            visibility: fragment,
            ty: BindingType::Sampler { filtering: true },
        },
        BindGroupLayoutEntry {
            binding: 2,
            visibility: fragment,
            ty: BindingType::Texture { filterable: true },
        },
        BindGroupLayoutEntry {
            binding: 3,
            visibility: fragment,
            ty: BindingType::Sampler { filtering: true },
        },
    ]
}

/// The bind group layout of a material.
pub fn texture_bind_group_layout() -> (descriptor: BindGroupLayoutDescriptor)
    ensures
        descriptor.label@ == "texture_bind_group_layout"@,
        descriptor.entries@ == texture_layout_entries(),
        bindings_in_order(descriptor.entries@),
        samplers_match_textures(descriptor.entries@),
{
    let fragment = ShaderStages { vertex: false, fragment: true };
    let mut entries: Vec<BindGroupLayoutEntry> = Vec::new();
    entries.push(
        BindGroupLayoutEntry {
            binding: 0,
            visibility: fragment,
            ty: BindingType::Texture { filterable: true },
        },
    );
    entries.push(
        BindGroupLayoutEntry {
            binding: 1,
            visibility: fragment,
            ty: BindingType::Sampler { filtering: true },
        },
    );
    entries.push(
        BindGroupLayoutEntry {
            binding: 2,
            visibility: fragment,
            ty: BindingType::Texture { filterable: true },
        },
    );
    entries.push(
        BindGroupLayoutEntry {
            binding: 3,
            visibility: fragment,
            ty: BindingType::Sampler { filtering: true },
        },
    );
    assert(entries@ =~= texture_layout_entries());
    BindGroupLayoutDescriptor { label: "texture_bind_group_layout", entries }
}

/// The bind group layouts of the scene.
#[derive(Clone, Copy, Debug, PartialEq, Eq, Structural)]
pub enum LayoutId {
    /// Diffuse texture and normal map of a material.
    Texture,
    Camera,
    OrthoCamera,
    Light,
    Quad,
}

/// The layout that a bind group was made for.
pub open spec fn layout_of(group: BindGroupId) -> LayoutId {
    match group {
        BindGroupId::Camera => LayoutId::Camera,
        BindGroupId::OrthoCamera => LayoutId::OrthoCamera,
        BindGroupId::Light => LayoutId::Light,
        BindGroupId::Quad => LayoutId::Quad,
    }
}

/// The bind group layouts that each pipeline expects, slot by slot.
pub open spec fn pipeline_layout(pipeline: PipelineId) -> Seq<LayoutId> {
    match pipeline {
        PipelineId::Model => seq![LayoutId::Texture, LayoutId::Camera, LayoutId::Light],
        PipelineId::Light => seq![LayoutId::Camera, LayoutId::Light],
        PipelineId::Overlay => seq![LayoutId::OrthoCamera, LayoutId::Quad],
    }
}

/// A pipeline layout to create.
#[derive(Debug)]
pub struct PipelineLayoutDescriptor {
    pub label: &'static str,
    pub bind_group_layouts: Vec<LayoutId>,
}

/// The label of each pipeline layout.
pub open spec fn pipeline_layout_label(pipeline: PipelineId) -> Seq<char> {
    match pipeline {
        PipelineId::Model => "Render Pipeline Layout"@,
        PipelineId::Light => "Light Pipeline Layout"@,
        PipelineId::Overlay => "2d Render Pipeline Lauout"@,
    }
}

impl PipelineId {
    /// The layout of the pipeline.
    pub fn layout(self) -> (descriptor: PipelineLayoutDescriptor)
        ensures
            descriptor.label@ == pipeline_layout_label(self),
            descriptor.bind_group_layouts@ == pipeline_layout(self),
    {
        let mut layouts: Vec<LayoutId> = Vec::new();
        match self {
            PipelineId::Model => {
                layouts.push(LayoutId::Texture);
                layouts.push(LayoutId::Camera);
                layouts.push(LayoutId::Light);
                assert(layouts@ =~= pipeline_layout(self));
                PipelineLayoutDescriptor {
                    label: "Render Pipeline Layout",
                    bind_group_layouts: layouts,
                }
            },
            PipelineId::Light => {
                layouts.push(LayoutId::Camera);
                layouts.push(LayoutId::Light);
                assert(layouts@ =~= pipeline_layout(self));
                PipelineLayoutDescriptor {
                    label: "Light Pipeline Layout",
                    bind_group_layouts: layouts,
                }
            },
            PipelineId::Overlay => {
                layouts.push(LayoutId::OrthoCamera);
                layouts.push(LayoutId::Quad);
                assert(layouts@ =~= pipeline_layout(self));
                PipelineLayoutDescriptor {
                    label: "2d Render Pipeline Lauout",
                    bind_group_layouts: layouts,
                }
            },
        }
    }
}

} // verus!
