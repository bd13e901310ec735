//! The drawable primitives of the overlay and what they share.

pub mod quad;
pub mod triangle;

use vstd::prelude::*;

use crate::layout::{VertexBufferLayout, VertexBufferLayoutView};

verus! {

/// A vertex type that knows how its values lie in a vertex buffer.
pub trait Vertex {
    /// The layout of the type.
    spec fn spec_layout() -> VertexBufferLayoutView;

    /// The layout of the type, for the pipeline that reads the buffer.
    fn layout() -> (layout: VertexBufferLayout)
        ensures
            layout@ == Self::spec_layout(),
            layout@.well_formed(),
    ;
}

} // verus!
