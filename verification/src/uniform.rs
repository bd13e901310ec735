//! The uniform resources of the scene.
//!
//! Each uniform value lives twice: on the CPU, where it is changed, and in a
//! device buffer, where the shaders read it. A resource is made in a fixed
//! order (value, buffer, layout, binding) and is brought up to date by
//! writing the whole value over the buffer, from its first byte.

use vstd::prelude::*;

use crate::binding::{
    bindings_in_order, fills, BindGroupDescriptor, BindGroupEntry, BindGroupLayoutDescriptor,
    BindGroupLayoutEntry, BindingType, ShaderStages,
};
use crate::buffer::{BufferDescriptor, BufferUsages};

verus! {

/// The uniform values of the scene.
#[derive(Clone, Copy, Debug, PartialEq, Eq, Structural)]
pub enum UniformKind {
    /// Eye position and view-projection matrix of the perspective camera.
    Camera,
    /// The same two for the orthographic camera of the overlay.
    OrthoCamera,
    /// Model matrix of the overlay quad.
    Quad,
    /// Position and colour of the light, each padded to four scalars.
    Light,
}

/// The label of each uniform buffer.
pub open spec fn buffer_label(kind: UniformKind) -> Seq<char> {
    match kind {
        UniformKind::Camera => "Camera Buffer"@,
        UniformKind::OrthoCamera => "Ortho Camera Buffer"@,
        UniformKind::Quad => "Camera Buffer"@,
        UniformKind::Light => "Light Buffer"@,
    }
}

/// The label of each bind group layout.
pub open spec fn layout_label(kind: UniformKind) -> Seq<char> {
    match kind {
        UniformKind::Camera => "camera_bind_group_layout"@,
        UniformKind::OrthoCamera => "ortho_camera_bind_group_layout"@,
        UniformKind::Quad => "quad_bind_group_layout"@,
        UniformKind::Light => "light_bind_group_layout"@,
    }
}

/// The label of each bind group.
pub open spec fn bind_group_label(kind: UniformKind) -> Seq<char> {
    match kind {
        UniformKind::Camera => "camera_bind_group"@,
        UniformKind::OrthoCamera => "ortho_camera_bind_group"@,
        UniformKind::Quad => "quad_bind_group"@,
        UniformKind::Light => "light_bind_group"@,
    }
}

/// The one binding of every uniform layout: a uniform buffer at binding 0
/// that the vertex and the fragment stage can read.
pub open spec fn uniform_layout_entries() -> Seq<BindGroupLayoutEntry> {
    seq![
        BindGroupLayoutEntry {
            binding: 0,
            visibility: ShaderStages { vertex: true, fragment: true },
            ty: BindingType::UniformBuffer,
        },
    ]
}

/// A write into a uniform buffer: `size` bytes of the CPU value of `target`,
/// placed at `offset`.
#[derive(Clone, Copy, Debug, PartialEq, Eq, Structural)]
pub struct BufferWrite {
    pub target: UniformKind,
    pub offset: u64,
    pub size: u64,
}

/// One step in the making of a uniform resource.
#[derive(Debug)]
pub enum ConstructionStep {
    /// Compute the value that the buffer starts with.
    ComputeValue,
    /// Create the buffer with that value as its contents.
    AllocateBuffer { buffer: BufferDescriptor },
    /// Create the bind group layout.
    CreateLayout { layout: BindGroupLayoutDescriptor },
    /// Create the bind group that ties the buffer to the layout.
    CreateBinding { binding: BindGroupDescriptor },
}

impl UniformKind {
    /// Number of 32-bit scalars in the value.
    pub open spec fn scalars(self) -> nat {
        match self {
            UniformKind::Camera => 4 + 16,
            UniformKind::OrthoCamera => 4 + 16,
            UniformKind::Quad => 16,
            UniformKind::Light => 4 + 4,
        }
    }

    /// Size of the value in bytes.
    pub open spec fn spec_size(self) -> nat {
        4 * self.scalars()
    }

    /// Size of the value in bytes.
    pub fn size(self) -> (bytes: u64)
        ensures
            bytes == self.spec_size(),
    {
        match self {
            UniformKind::Camera => 80,
            UniformKind::OrthoCamera => 80,
            UniformKind::Quad => 64,
            UniformKind::Light => 32,
        }
    }

    /// The buffer of the resource: as large as the value, readable as a
    /// uniform and writable after creation.
    pub fn create_buffer(self) -> (descriptor: BufferDescriptor)
        ensures
            descriptor.label@ == buffer_label(self),
            descriptor.size == self.spec_size(),
            descriptor.usage == BufferUsages::uniform(),
    {
        let label = match self {
            UniformKind::Camera => "Camera Buffer",
            UniformKind::OrthoCamera => "Ortho Camera Buffer",
            UniformKind::Quad => "Camera Buffer",
            UniformKind::Light => "Light Buffer",
        };
        BufferDescriptor { label, size: self.size(), usage: BufferUsages::uniform() }
    }

    /// The bind group layout of the resource.
    pub fn create_bind_group_layout(self) -> (descriptor: BindGroupLayoutDescriptor)
        ensures
            descriptor.label@ == layout_label(self),
            descriptor.entries@ == uniform_layout_entries(),
            bindings_in_order(descriptor.entries@),
    {
        let label = match self {
            UniformKind::Camera => "camera_bind_group_layout",
            UniformKind::OrthoCamera => "ortho_camera_bind_group_layout",
            UniformKind::Quad => "quad_bind_group_layout",
            UniformKind::Light => "light_bind_group_layout",
        };
        let mut entries: Vec<BindGroupLayoutEntry> = Vec::new();
        entries.push(
            BindGroupLayoutEntry {
                binding: 0,
                visibility: ShaderStages { vertex: true, fragment: true },
                ty: BindingType::UniformBuffer,
            },
        );
        assert(entries@ =~= uniform_layout_entries());
        BindGroupLayoutDescriptor { label, entries }
    }

    /// The bind group of the resource: the whole buffer at binding 0.
    pub fn create_bind_group(self) -> (descriptor: BindGroupDescriptor)
        ensures
            descriptor.label@ == bind_group_label(self),
            descriptor.entries@ == seq![BindGroupEntry { binding: 0 }],
            fills(descriptor.entries@, uniform_layout_entries()),
    {
        let label = match self {
            UniformKind::Camera => "camera_bind_group",
            UniformKind::OrthoCamera => "ortho_camera_bind_group",
            UniformKind::Quad => "quad_bind_group",
            UniformKind::Light => "light_bind_group",
        };
        let mut entries: Vec<BindGroupEntry> = Vec::new();
        entries.push(BindGroupEntry { binding: 0 });
        assert(entries@ =~= seq![BindGroupEntry { binding: 0 }]);
        BindGroupDescriptor { label, entries }
    }

    /// The steps that make the resource, in the order in which they must be
    /// taken: the value first, then the buffer that holds it, then the
    /// layout, then the binding that needs both.
    pub fn construction(self) -> (steps: Vec<ConstructionStep>)
        ensures
            steps@.len() == 4,
            steps@[0] is ComputeValue,
            steps@[1] matches ConstructionStep::AllocateBuffer { buffer } && {
                &&& buffer.label@ == buffer_label(self)
                &&& buffer.size == self.spec_size()
                &&& buffer.usage == BufferUsages::uniform()
            },
            steps@[2] matches ConstructionStep::CreateLayout { layout } && {
                &&& layout.label@ == layout_label(self)
                &&& layout.entries@ == uniform_layout_entries()
            },
            steps@[3] matches ConstructionStep::CreateBinding { binding } && {
                &&& binding.label@ == bind_group_label(self)
                &&& binding.entries@ == seq![BindGroupEntry { binding: 0 }]
            },
    {
        let mut steps: Vec<ConstructionStep> = Vec::new();
        steps.push(ConstructionStep::ComputeValue);
        steps.push(ConstructionStep::AllocateBuffer { buffer: self.create_buffer() });
        steps.push(ConstructionStep::CreateLayout { layout: self.create_bind_group_layout() });
        steps.push(ConstructionStep::CreateBinding { binding: self.create_bind_group() });
        steps
    }

    /// The write that brings the buffer up to date: the whole value, from the
    /// first byte of the buffer.
    pub fn write(self) -> (write: BufferWrite)
        ensures
            write == (BufferWrite { target: self, offset: 0, size: self.spec_size() as u64 }),
    {
        BufferWrite { target: self, offset: 0, size: self.size() }
    }
}

/// A write of a uniform covers the buffer that was created for it: it starts
/// at the first byte and is as long as the buffer, so no part of the buffer
/// keeps an old value, and the buffer accepts writes.
pub proof fn lemma_write_covers_buffer(
    kind: UniformKind,
    buffer: BufferDescriptor,
    write: BufferWrite,
)
    requires
        buffer.size == kind.spec_size(),
        buffer.usage == BufferUsages::uniform(),
        write == (BufferWrite { target: kind, offset: 0, size: kind.spec_size() as u64 }),
    ensures
        write.offset == 0,
        write.offset + write.size == buffer.size,
        buffer.usage.copy_dst,
{
}

} // verus!
