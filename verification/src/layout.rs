//! Binary layout of the vertex and instance streams that the pipelines read.
//!
//! A layout says how many bytes one element of a stream takes and where each
//! attribute sits inside it. The types here carry the same facts as the
//! descriptors of the graphics API, as plain values, so that the facts can be
//! stated and proved: attributes lie inside the stride, do not overlap, and
//! use distinct shader locations.

use vstd::prelude::*;

verus! {

/// Element format of one vertex attribute: 32-bit floats, two to four of them.
#[derive(Clone, Copy, Debug, PartialEq, Eq, Structural)]
pub enum VertexFormat {
    Float32x2,
    Float32x3,
    Float32x4,
}

impl VertexFormat {
    /// Number of 32-bit components.
    pub open spec fn components(self) -> nat {
        match self {
            VertexFormat::Float32x2 => 2,
            VertexFormat::Float32x3 => 3,
            VertexFormat::Float32x4 => 4,
        }
    }

    /// Size in bytes: four per component.
    pub open spec fn spec_size(self) -> nat {
        4 * self.components()
    }

    /// Size in bytes.
    pub fn size(self) -> (bytes: u64)
        ensures
            bytes == self.spec_size(),
    {
        match self {
            VertexFormat::Float32x2 => 8,
            VertexFormat::Float32x3 => 12,
            VertexFormat::Float32x4 => 16,
        }
    }
}

/// Width of the entries of an index buffer.
#[derive(Clone, Copy, Debug, PartialEq, Eq, Structural)]
pub enum IndexFormat {
    Uint16,
    Uint32,
}

impl IndexFormat {
    /// Size in bytes of one index.
    pub open spec fn spec_size(self) -> nat {
        match self {
            IndexFormat::Uint16 => 2,
            IndexFormat::Uint32 => 4,
        }
    }

    /// Size in bytes of one index.
    pub fn size(self) -> (bytes: u64)
        ensures
            bytes == self.spec_size(),
    {
        match self {
            IndexFormat::Uint16 => 2,
            IndexFormat::Uint32 => 4,
        }
    }
}

/// Whether a stream advances once per vertex or once per instance.
#[derive(Clone, Copy, Debug, PartialEq, Eq, Structural)]
pub enum VertexStepMode {
    Vertex,
    Instance,
}

/// One attribute of a stream element.
#[derive(Clone, Copy, Debug, PartialEq, Eq, Structural)]
pub struct VertexAttribute {
    pub format: VertexFormat,
    /// Byte offset from the start of the element.
    pub offset: u64,
    /// Input slot of the vertex shader that reads the attribute.
    pub shader_location: u32,
}

impl VertexAttribute {
    /// First byte past the attribute.
    pub open spec fn end(self) -> nat {
        self.offset as nat + self.format.spec_size()
    }
}

/// Layout of one vertex or instance stream.
#[derive(Debug)]
pub struct VertexBufferLayout {
    /// Bytes from one element to the next.
    pub array_stride: u64,
    pub step_mode: VertexStepMode,
    pub attributes: Vec<VertexAttribute>,
}

/// Mathematical value of a [`VertexBufferLayout`].
pub struct VertexBufferLayoutView {
    pub array_stride: nat,
    pub step_mode: VertexStepMode,
    pub attributes: Seq<VertexAttribute>,
}

impl View for VertexBufferLayout {
    type V = VertexBufferLayoutView;

    open spec fn view(&self) -> VertexBufferLayoutView {
        VertexBufferLayoutView {
            array_stride: self.array_stride as nat,
            step_mode: self.step_mode,
            attributes: self.attributes@,
        }
    }
}

/// Byte offset of attribute `i` when the attributes `formats` follow one
/// another without padding: the sizes of the first `i` of them, added up.
pub open spec fn packed_offset(formats: Seq<VertexFormat>, i: int) -> nat
    decreases i,
{
    if i <= 0 {
        0
    } else {
        packed_offset(formats, i - 1) + formats[i - 1].spec_size()
    }
}

/// Size of one element made of `formats` without padding.
pub open spec fn packed_size(formats: Seq<VertexFormat>) -> nat {
    packed_offset(formats, formats.len() as int)
}

/// The tightly packed layout of `formats`, attribute `i` read at shader
/// location `first_location + i`.
pub open spec fn packed_layout(
    step_mode: VertexStepMode,
    formats: Seq<VertexFormat>,
    first_location: u32,
) -> VertexBufferLayoutView {
    VertexBufferLayoutView {
        array_stride: packed_size(formats),
        step_mode,
        attributes: Seq::new(
            formats.len(),
            |i: int|
                VertexAttribute {
                    format: formats[i],
                    offset: packed_offset(formats, i) as u64,
                    shader_location: (first_location + i) as u32,
                },
        ),
    }
}

impl VertexBufferLayoutView {
    /// Every attribute lies inside one element, attributes come in ascending
    /// order without overlap, and no shader location is used twice.
    pub open spec fn well_formed(self) -> bool {
        &&& forall|i: int|
            0 <= i < self.attributes.len() ==> (#[trigger] self.attributes[i]).end()
                <= self.array_stride
        &&& forall|i: int, j: int|
            0 <= i < j < self.attributes.len() ==> (#[trigger] self.attributes[i]).end() <= (
            #[trigger] self.attributes[j]).offset
        &&& forall|i: int, j: int|
            0 <= i < j < self.attributes.len() ==> (#[trigger] self.attributes[i]).shader_location
                != (#[trigger] self.attributes[j]).shader_location
    }

    /// Two streams can feed one pipeline when they share no shader location.
    pub open spec fn disjoint_locations(self, other: VertexBufferLayoutView) -> bool {
        forall|i: int, j: int|
            0 <= i < self.attributes.len() && 0 <= j < other.attributes.len() ==> (
            #[trigger] self.attributes[i]).shader_location != (
            #[trigger] other.attributes[j]).shader_location
    }
}

/// Offsets grow with the attribute index.
pub proof fn lemma_packed_offset_monotonic(formats: Seq<VertexFormat>, i: int, j: int)
    requires
        0 <= i <= j,
    ensures
        packed_offset(formats, i) <= packed_offset(formats, j),
    decreases j - i,
{
    if i < j {
        lemma_packed_offset_monotonic(formats, i, j - 1);
    }
}

/// A packed layout is well formed whenever its numbers fit their fields.
pub proof fn lemma_packed_layout_well_formed(
    step_mode: VertexStepMode,
    formats: Seq<VertexFormat>,
    first_location: u32,
)
    requires
        packed_size(formats) <= u64::MAX,
        first_location + formats.len() <= u32::MAX + 1,
    ensures
        packed_layout(step_mode, formats, first_location).well_formed(),
{
    let layout = packed_layout(step_mode, formats, first_location);
    let n = formats.len() as int;
    assert forall|i: int| 0 <= i < n implies (#[trigger] layout.attributes[i]).end()
        <= layout.array_stride by {
        lemma_packed_offset_monotonic(formats, i, n);
        lemma_packed_offset_monotonic(formats, i + 1, n);
    }
    assert forall|i: int, j: int| 0 <= i < j < n implies (#[trigger] layout.attributes[i]).end() <= (
    #[trigger] layout.attributes[j]).offset by {
        lemma_packed_offset_monotonic(formats, i, n);
        lemma_packed_offset_monotonic(formats, j, n);
        lemma_packed_offset_monotonic(formats, i + 1, j);
    }
}

impl VertexBufferLayout {
    /// Lays `formats` out one after another without padding and numbers their
    /// shader locations from `first_location`.
    ///
    /// The two preconditions are the limits of the fields: the element size
    /// must fit the stride and the last location must fit its slot number.
    pub fn packed(step_mode: VertexStepMode, formats: &[VertexFormat], first_location: u32) -> (layout:
        VertexBufferLayout)
        requires
            packed_size(formats@) <= u64::MAX,
            first_location + formats@.len() <= u32::MAX + 1,
        ensures
            layout@ == packed_layout(step_mode, formats@, first_location),
            layout@.well_formed(),
    {
        let mut attributes: Vec<VertexAttribute> = Vec::new();
        let mut offset: u64 = 0;
        let mut location: u32 = first_location;
        let mut i: usize = 0;
        while i < formats.len()
            invariant
                0 <= i <= formats@.len(),
                packed_size(formats@) <= u64::MAX,
                first_location + formats@.len() <= u32::MAX + 1,
                offset == packed_offset(formats@, i as int),
                i < formats@.len() ==> location == first_location + i,
                attributes@.len() == i,
                forall|k: int|
                    0 <= k < i ==> attributes@[k] == packed_layout(
                        step_mode,
                        formats@,
                        first_location,
                    ).attributes[k],
            decreases formats@.len() - i,
        {
            let format = formats[i];
            proof {
                lemma_packed_offset_monotonic(formats@, i as int, formats@.len() as int);
                lemma_packed_offset_monotonic(formats@, i as int + 1, formats@.len() as int);
            }
            attributes.push(VertexAttribute { format, offset, shader_location: location });
            offset = offset + format.size();
            i = i + 1;
            if i < formats.len() {
                location = location + 1;
            }
        }
        let layout = VertexBufferLayout { array_stride: offset, step_mode, attributes };
        proof {
            lemma_packed_layout_well_formed(step_mode, formats@, first_location);
            assert(layout@.attributes =~= packed_layout(
                step_mode,
                formats@,
                first_location,
            ).attributes);
        }
        layout
    }
}

} // verus!
