//! Descriptions of device buffers.

use vstd::prelude::*;

verus! {

/// What a buffer may be used for.
#[derive(Clone, Copy, Debug, PartialEq, Eq, Structural)]
pub struct BufferUsages {
    pub vertex: bool,
    pub index: bool,
    pub uniform: bool,
    /// The buffer can be the target of a write after its creation.
    pub copy_dst: bool,
}

impl BufferUsages {
    /// Use as a buffer of vertices or instances.
    pub open spec fn spec_vertex() -> BufferUsages {
        BufferUsages { vertex: true, index: false, uniform: false, copy_dst: false }
    }

    /// Use as a buffer of indices.
    pub open spec fn spec_index() -> BufferUsages {
        BufferUsages { vertex: false, index: true, uniform: false, copy_dst: false }
    }

    /// Use as a uniform buffer that is rewritten while it is in use.
    pub open spec fn spec_uniform() -> BufferUsages {
        BufferUsages { vertex: false, index: false, uniform: true, copy_dst: true }
    }

    /// A buffer of vertices or instances.
    #[verifier::when_used_as_spec(spec_vertex)]
    pub fn vertex() -> (usage: BufferUsages)
        ensures
            usage == Self::spec_vertex(),
    {
        BufferUsages { vertex: true, index: false, uniform: false, copy_dst: false }
    }

    /// A buffer of indices.
    #[verifier::when_used_as_spec(spec_index)]
    pub fn index() -> (usage: BufferUsages)
        ensures
            usage == Self::spec_index(),
    {
        BufferUsages { vertex: false, index: true, uniform: false, copy_dst: false }
    }

    /// A uniform buffer that is rewritten while it is in use.
    #[verifier::when_used_as_spec(spec_uniform)]
    pub fn uniform() -> (usage: BufferUsages)
        ensures
            usage == Self::spec_uniform(),
    {
        BufferUsages { vertex: false, index: false, uniform: true, copy_dst: true }
    }
}

/// A buffer to create: its label, its size in bytes and its uses. The
/// contents have exactly `size` bytes.
#[derive(Clone, Copy, Debug)]
pub struct BufferDescriptor {
    pub label: &'static str,
    pub size: u64,
    pub usage: BufferUsages,
}

} // verus!
