//! The rectangle of the screen-space overlay.

use std::ops::Range;
use vstd::prelude::*;
use vstd::std_specs::ops::{AddSpec, DivSpec, SubSpec};

use crate::buffer::{BufferDescriptor, BufferUsages};
use crate::bytes::{index_bytes, native_bytes};
use crate::layout::{
    packed_layout, packed_offset, IndexFormat, VertexAttribute, VertexBufferLayout,
    VertexBufferLayoutView, VertexFormat, VertexStepMode,
};
use crate::matrix::{columns, from_translation, identity, identity_columns, translation_columns};
use crate::pass::{BindGroupId, BufferId, DrawCommand, RenderPass};
use crate::primitives::Vertex;
use crate::scalar::{arithmetic, Scalar};

verus! {

/// A vertex of a quad: where it is and what colour it has, with alpha.
#[derive(Clone, Copy, Debug)]
pub struct QuadVertex<S> {
    pub position: [S; 3],
    pub color: [S; 4],
}

/// The attributes of a [`QuadVertex`], in the order of its fields.
pub open spec fn quad_vertex_formats() -> Seq<VertexFormat> {
    seq![VertexFormat::Float32x3, VertexFormat::Float32x4]
}

impl<S> Vertex for QuadVertex<S> {
    /// Position at location 0 and offset 0, colour at location 1 and offset
    /// 12, in an element of 28 bytes. The layout is that of scalars of 32
    /// bits.
    open spec fn spec_layout() -> VertexBufferLayoutView {
        VertexBufferLayoutView {
            array_stride: 28,
            step_mode: VertexStepMode::Vertex,
            attributes: seq![
                VertexAttribute { format: VertexFormat::Float32x3, offset: 0, shader_location: 0 },
                VertexAttribute { format: VertexFormat::Float32x4, offset: 12, shader_location: 1 },
            ],
        }
    }

    fn layout() -> (layout: VertexBufferLayout) {
        let formats = [VertexFormat::Float32x3, VertexFormat::Float32x4];
        proof {
            reveal_with_fuel(packed_offset, 3);
            assert(formats@ =~= quad_vertex_formats());
            assert(packed_layout(VertexStepMode::Vertex, formats@, 0).attributes
                =~= Self::spec_layout().attributes);
        }
        VertexBufferLayout::packed(VertexStepMode::Vertex, formats.as_slice(), 0)
    }
}

/// The model matrix of a quad, as the overlay shader reads it.
#[derive(Clone, Copy, Debug)]
pub struct QuadUniform<S> {
    pub model: [[S; 4]; 4],
}

impl<S: Scalar> QuadUniform<S> {
    /// The uniform of a quad that has not been moved: the identity.
    pub fn new(zero: S, one: S) -> (uniform: QuadUniform<S>)
        ensures
            columns(uniform.model) == identity_columns(zero, one),
    {
        QuadUniform { model: identity(zero, one) }
    }

    /// Sets the model matrix to that of `quad`.
    pub fn update_model(&mut self, quad: &Quad<S>, zero: S, one: S)
        ensures
            columns(final(self).model) == quad.spec_model(zero, one),
    {
        self.model = quad.model(zero, one);
    }

    /// Sets the model matrix to the translation to `position` on the screen,
    /// at depth `zero`.
    pub fn update_model_from_position(&mut self, position: [S; 2], zero: S, one: S)
        ensures
            columns(final(self).model) == translation_columns(
                position@[0],
                position@[1],
                zero,
                zero,
                one,
            ),
    {
        let model_position = [position[0], position[1], zero];
        self.model = from_translation(model_position, zero, one);
    }
}

/// Where a quad stands on the screen, its colour (red, green and blue from 0
/// to 255, then alpha) and its width and height.
#[derive(Debug)]
pub struct QuadOptions<S> {
    pub position: [S; 2],
    pub color: (u32, u32, u32, S),
    pub dimensions: (S, S),
}

/// The parts of the transform of a quad.
#[derive(Debug)]
pub struct QuadTransform<S> {
    pub translation: [[S; 4]; 4],
    pub rotation: [[S; 4]; 4],
    pub scale: [[S; 4]; 4],
}

impl<S: Scalar> QuadOptions<S> {
    /// Whether the options are those of a quad that was given none, for the
    /// scalar `side` of 40: a square of that side in the upper left corner,
    /// in an opaque pink.
    pub open spec fn default_from<T: Fn(i64) -> S>(
        self,
        zero: S,
        one: S,
        to_scalar: T,
        side: S,
    ) -> bool {
        &&& call_ensures(to_scalar, (40i64,), side)
        &&& self.position@ == seq![zero, zero]
        &&& self.color == (252u32, 3u32, 223u32, one)
        &&& self.dimensions == (side, side)
    }

    /// The options of a quad that was given none.
    pub fn default<T: Fn(i64) -> S>(zero: S, one: S, to_scalar: &T) -> (options: QuadOptions<S>)
        requires
            forall|n: i64| call_requires(*to_scalar, (n,)),
        ensures
            exists|side: S| #[trigger] options.default_from(zero, one, *to_scalar, side),
    {
        let side = to_scalar(40);
        let position = [zero, zero];
        assert(position@ =~= seq![zero, zero]);
        let options = QuadOptions { position, color: (252, 3, 223, one), dimensions: (side, side) };
        assert(options.default_from(zero, one, *to_scalar, side));
        options
    }
}

impl<S: Scalar> QuadTransform<S> {
    /// The transform that changes nothing: no translation, no rotation, and
    /// a scale of one.
    pub fn default(zero: S, one: S) -> (transform: QuadTransform<S>)
        ensures
            columns(transform.translation) == identity_columns(zero, one),
            columns(transform.rotation) == identity_columns(zero, one),
            columns(transform.scale) == identity_columns(zero, one),
    {
        QuadTransform {
            translation: identity(zero, one),
            rotation: identity(zero, one),
            scale: identity(zero, one),
        }
    }
}

/// The two corners that span a quad: `(x, y)` and the opposite `(x2, y2)`.
#[derive(Debug)]
pub struct QuadVertexPositions<S> {
    pub x: S,
    pub y: S,
    pub x2: S,
    pub y2: S,
}

/// A quad: four vertices, the two triangles that cover it, and the model
/// matrix that places it.
#[derive(Debug)]
pub struct Quad<S> {
    pub vertices: [QuadVertex<S>; 4],
    pub indices: [u16; 6],
    pub options: QuadOptions<S>,
    pub uniform: QuadUniform<S>,
    pub transform: QuadTransform<S>,
}

/// The indices of a quad: the triangle of the corners 0, 1, 2 and the
/// triangle 2, 1, 3 that shares the edge from 1 to 2 with it.
pub open spec fn quad_indices() -> Seq<u16> {
    seq![0u16, 1, 2, 2, 1, 3]
}

/// The vertices of the quad spanned by `corners`, all of one colour, at depth
/// `zero`: `(x, y)`, `(x2, y)`, `(x, y2)`, `(x2, y2)`.
pub open spec fn quad_vertices<S>(corners: QuadVertexPositions<S>, color: [S; 4], zero: S) -> Seq<
    (Seq<S>, [S; 4]),
> {
    seq![
        (seq![corners.x, corners.y, zero], color),
        (seq![corners.x2, corners.y, zero], color),
        (seq![corners.x, corners.y2, zero], color),
        (seq![corners.x2, corners.y2, zero], color),
    ]
}

/// The corners of a quad on a surface of `surface_width` by
/// `surface_height`.
///
/// With `w` and `h` the dimensions of the quad divided by those of the
/// surface, the far corner is `((px - w / 2) / (w / 2), (py - h / 2) / (h /
/// 2))` and the near corner lies `w` and `h` beyond it. The near corner goes
/// to `x` and `y`, the far one to `x2` and `y2`. Two is `one + one`.
pub open spec fn vertex_positions<S: Scalar>(
    quad: QuadOptions<S>,
    surface_width: S,
    surface_height: S,
    one: S,
) -> QuadVertexPositions<S> {
    let two = one.add_spec(one);
    let width = quad.dimensions.0.div_spec(surface_width);
    let height = quad.dimensions.1.div_spec(surface_height);
    let x = quad.position@[0].sub_spec(width.div_spec(two)).div_spec(width.div_spec(two));
    let y = quad.position@[1].sub_spec(height.div_spec(two)).div_spec(height.div_spec(two));
    QuadVertexPositions { x: x.add_spec(width), y: y.add_spec(height), x2: x, y2: y }
}

/// Whether `corners` are the corners of `quad` on a surface of
/// `surface_width` by `surface_height` pixels, with the two numbers turned
/// into scalars by `to_scalar`.
pub open spec fn has_vertex_positions<S: Scalar, T: Fn(i64) -> S>(
    quad: QuadOptions<S>,
    surface_width: u32,
    surface_height: u32,
    corners: QuadVertexPositions<S>,
    one: S,
    to_scalar: T,
) -> bool {
    exists|width: S, height: S|
        {
            &&& call_ensures(to_scalar, (surface_width as i64,), width)
            &&& call_ensures(to_scalar, (surface_height as i64,), height)
            &&& corners == #[trigger] vertex_positions(quad, width, height, one)
        }
}

/// Whether `color` is the colour `source` for the scalars `red`, `green`,
/// `blue` of its first three parts and `full` of 255: each part divided by
/// `full`, and alpha as it is.
pub open spec fn color_from<S: Scalar, T: Fn(i64) -> S>(
    source: (u32, u32, u32, S),
    color: [S; 4],
    to_scalar: T,
    red: S,
    green: S,
    blue: S,
    full: S,
) -> bool {
    &&& call_ensures(to_scalar, (source.0 as i64,), red)
    &&& call_ensures(to_scalar, (source.1 as i64,), green)
    &&& call_ensures(to_scalar, (source.2 as i64,), blue)
    &&& call_ensures(to_scalar, (255i64,), full)
    &&& color@ == seq![red.div_spec(full), green.div_spec(full), blue.div_spec(full), source.3]
}

/// Whether `color` is the colour `(red, green, blue, alpha)` as the shaders
/// read it: red, green and blue divided by 255, with the numbers turned into
/// scalars by `to_scalar`, and alpha as it is.
pub open spec fn has_vertex_color<S: Scalar, T: Fn(i64) -> S>(
    source: (u32, u32, u32, S),
    color: [S; 4],
    to_scalar: T,
) -> bool {
    exists|red: S, green: S, blue: S, full: S|
        #[trigger] color_from(source, color, to_scalar, red, green, blue, full)
}

/// The corners of a quad on a surface of `surface_width` by `surface_height`
/// pixels.
pub fn calculate_vertex_positions<S: Scalar, T: Fn(i64) -> S>(
    surface_width: u32,
    surface_height: u32,
    quad: &QuadOptions<S>,
    one: S,
    to_scalar: &T,
) -> (corners: QuadVertexPositions<S>)
    requires
        arithmetic::<S>(),
        forall|n: i64| call_requires(*to_scalar, (n,)),
    ensures
        has_vertex_positions(*quad, surface_width, surface_height, corners, one, *to_scalar),
{
    let two = one.add(one);
    let pos_x = quad.position[0];
    let pos_y = quad.position[1];
    let surface_w = to_scalar(surface_width as i64);
    let surface_h = to_scalar(surface_height as i64);
    let width = quad.dimensions.0.div(surface_w);
    let height = quad.dimensions.1.div(surface_h);

    let x_center = width.div(two);
    let y_center = height.div(two);
    let x_shifted = pos_x.sub(x_center);
    let y_shifted = pos_y.sub(y_center);
    let x = x_shifted.div(width.div(two));
    let y = y_shifted.div(height.div(two));

    let x2 = x.add(width);
    let y2 = y.add(height);

    let corners = QuadVertexPositions { x: x2, y: y2, x2: x, y2: y };
    proof {
        assert(corners == vertex_positions(*quad, surface_w, surface_h, one));
    }
    corners
}

/// A colour as the shaders read it.
pub fn vertex_color<S: Scalar, T: Fn(i64) -> S>(source: (u32, u32, u32, S), to_scalar: &T) -> (color:
    [S; 4])
    requires
        arithmetic::<S>(),
        forall|n: i64| call_requires(*to_scalar, (n,)),
    ensures
        has_vertex_color(source, color, *to_scalar),
{
    let full = to_scalar(255);
    let red = to_scalar(source.0 as i64);
    let green = to_scalar(source.1 as i64);
    let blue = to_scalar(source.2 as i64);
    let color = [red.div(full), green.div(full), blue.div(full), source.3];
    assert(color@ =~= seq![
        red.div_spec(full),
        green.div_spec(full),
        blue.div_spec(full),
        source.3,
    ]);
    assert(color_from(source, color, *to_scalar, red, green, blue, full));
    color
}

impl<S: Scalar> Quad<S> {
    /// What the vertices hold: position and colour of each.
    pub open spec fn vertices_view(self) -> Seq<(Seq<S>, [S; 4])> {
        Seq::new(4, |i: int| (self.vertices@[i].position@, self.vertices@[i].color))
    }

    /// The model matrix of the quad: the translation to its position on the
    /// screen.
    pub open spec fn spec_model(self, zero: S, one: S) -> Seq<Seq<S>> {
        translation_columns(self.options.position@[0], self.options.position@[1], zero, zero, one)
    }

    /// The quad spanned by `corners`, all of the colour `color`.
    ///
    /// The transform is the translation to the first corner, without
    /// rotation or scale. The uniform starts at the translation to the
    /// position in `options`.
    pub fn with_corners(
        options: QuadOptions<S>,
        corners: QuadVertexPositions<S>,
        color: [S; 4],
        zero: S,
        one: S,
    ) -> (quad: Quad<S>)
        ensures
            quad.vertices_view() == quad_vertices(corners, color, zero),
            quad.indices@ == quad_indices(),
            quad.options == options,
            columns(quad.uniform.model) == quad.spec_model(zero, one),
            columns(quad.transform.translation) == translation_columns(
                corners.x,
                corners.y,
                zero,
                zero,
                one,
            ),
            columns(quad.transform.rotation) == identity_columns(zero, one),
            columns(quad.transform.scale) == identity_columns(zero, one),
    {
        let QuadVertexPositions { x, y, x2, y2 } = corners;
        let vertices = [
            QuadVertex { position: [x, y, zero], color },
            QuadVertex { position: [x2, y, zero], color },
            QuadVertex { position: [x, y2, zero], color },
            QuadVertex { position: [x2, y2, zero], color },
        ];
        let rest = QuadTransform::default(zero, one);
        let transform = QuadTransform {
            translation: from_translation([x, y, zero], zero, one),
            rotation: rest.rotation,
            scale: rest.scale,
        };
        let indices: [u16; 6] = [0, 1, 2, 2, 1, 3];
        let mut uniform = QuadUniform::new(zero, one);
        uniform.update_model_from_position(options.position, zero, one);
        let quad = Quad { vertices, indices, options, uniform, transform };
        proof {
            assert(indices@ =~= quad_indices());
            assert(quad.vertices_view()[0].0 =~= seq![x, y, zero]);
            assert(quad.vertices_view()[1].0 =~= seq![x2, y, zero]);
            assert(quad.vertices_view()[2].0 =~= seq![x, y2, zero]);
            assert(quad.vertices_view()[3].0 =~= seq![x2, y2, zero]);
            assert(quad.vertices_view() =~= quad_vertices(corners, color, zero));
        }
        quad
    }

    /// The quad of `options` on a surface of `surface_width` by
    /// `surface_height` pixels: its corners and its colour are computed from
    /// the options, and the quad is made of them as [`Quad::with_corners`]
    /// says.
    pub fn new<T: Fn(i64) -> S>(
        surface_width: u32,
        surface_height: u32,
        options: QuadOptions<S>,
        zero: S,
        one: S,
        to_scalar: &T,
    ) -> (quad: Quad<S>)
        requires
            arithmetic::<S>(),
            forall|n: i64| call_requires(*to_scalar, (n,)),
        ensures
            exists|corners: QuadVertexPositions<S>, color: [S; 4]|
                {
                    &&& has_vertex_positions(
                        options,
                        surface_width,
                        surface_height,
                        corners,
                        one,
                        *to_scalar,
                    )
                    &&& has_vertex_color(options.color, color, *to_scalar)
                    &&& quad.vertices_view() == quad_vertices(corners, color, zero)
                    &&& columns(quad.transform.translation) == translation_columns(
                        corners.x,
                        corners.y,
                        zero,
                        zero,
                        one,
                    )
                },
            quad.indices@ == quad_indices(),
            quad.options == options,
            columns(quad.uniform.model) == quad.spec_model(zero, one),
            columns(quad.transform.rotation) == identity_columns(zero, one),
            columns(quad.transform.scale) == identity_columns(zero, one),
    {
        let quad_color = vertex_color(options.color, to_scalar);
        let corners = calculate_vertex_positions(
            surface_width,
            surface_height,
            &options,
            one,
            to_scalar,
        );
        Quad::with_corners(options, corners, quad_color, zero, one)
    }

    /// The model matrix for a quad at `position`.
    pub fn model_from_position(&self, position: [S; 2], zero: S, one: S) -> (model: [[S; 4]; 4])
        ensures
            columns(model) == translation_columns(position@[0], position@[1], zero, zero, one),
    {
        let model_position = [position[0], position[1], zero];
        from_translation(model_position, zero, one)
    }

    /// The model matrix of the quad.
    pub fn model(&self, zero: S, one: S) -> (model: [[S; 4]; 4])
        ensures
            columns(model) == self.spec_model(zero, one),
    {
        let position = [self.options.position[0], self.options.position[1], zero];
        from_translation(position, zero, one)
    }

    /// The buffer of the vertices: four elements of the vertex layout.
    pub fn vertex_buffer(&self) -> (descriptor: BufferDescriptor)
        ensures
            descriptor.label@ == "Quad Vertex Buffer"@,
            descriptor.size == 4 * QuadVertex::<S>::spec_layout().array_stride,
            descriptor.usage == BufferUsages::vertex(),
    {
        BufferDescriptor { label: "Quad Vertex Buffer", size: 112, usage: BufferUsages::vertex() }
    }

    /// The buffer of the indices: two bytes for each.
    pub fn index_buffer(&self) -> (descriptor: BufferDescriptor)
        ensures
            descriptor.label@ == "Quad Index Buffer"@,
            descriptor.size == IndexFormat::Uint16.spec_size() * self.indices@.len(),
            descriptor.usage == BufferUsages::index(),
    {
        BufferDescriptor { label: "Quad Index Buffer", size: 12, usage: BufferUsages::index() }
    }

    /// The contents of the index buffer: the indices as the machine stores
    /// them.
    pub fn index_bytes(&self) -> (bytes: Vec<u8>)
        ensures
            native_bytes(self.indices@, bytes@),
            bytes@.len() == IndexFormat::Uint16.spec_size() * self.indices@.len(),
    {
        index_bytes(self.indices.as_slice())
    }
}

/// The commands that draw a quad for the instances
/// `instances.start..instances.end`: its vertices in slot 0, its indices as
/// 16-bit numbers, the camera in bind group 0, then all six indices.
pub open spec fn quad_commands(instances: Range<u32>, camera_bind_group: BindGroupId) -> Seq<
    DrawCommand,
> {
    seq![
        DrawCommand::SetVertexBuffer { slot: 0, buffer: BufferId::QuadVertices },
        DrawCommand::SetIndexBuffer { buffer: BufferId::QuadIndices, format: IndexFormat::Uint16 },
        DrawCommand::SetBindGroup { index: 0, group: camera_bind_group },
        DrawCommand::DrawIndexed {
            first_index: 0,
            end_index: 6,
            base_vertex: 0,
            first_instance: instances.start,
            end_instance: instances.end,
        },
    ]
}

/// Recording the draw of a quad.
pub trait DrawQuad<S> {
    /// What has been recorded so far.
    spec fn recorded(&self) -> Seq<DrawCommand>;

    /// Draws the quad once.
    fn draw_quad(&mut self, quad: &Quad<S>, camera_bind_group: BindGroupId)
        ensures
            final(self).recorded() == old(self).recorded() + quad_commands(0..1, camera_bind_group),
    ;

    /// Draws the quad once for each of `instances`.
    fn draw_quad_instanced(
        &mut self,
        quad: &Quad<S>,
        instances: Range<u32>,
        camera_bind_group: BindGroupId,
    )
        ensures
            final(self).recorded() == old(self).recorded() + quad_commands(
                instances,
                camera_bind_group,
            ),
    ;
}

impl<S> DrawQuad<S> for RenderPass {
    open spec fn recorded(&self) -> Seq<DrawCommand> {
        self@
    }

    fn draw_quad(&mut self, quad: &Quad<S>, camera_bind_group: BindGroupId) {
        self.draw_quad_instanced(quad, 0..1, camera_bind_group);
    }

    fn draw_quad_instanced(
        &mut self,
        quad: &Quad<S>,
        instances: Range<u32>,
        camera_bind_group: BindGroupId,
    ) {
        let num_indices: u32 = 6;
        self.set_vertex_buffer(0, BufferId::QuadVertices);
        self.set_index_buffer(BufferId::QuadIndices, IndexFormat::Uint16);
        self.set_bind_group(0, camera_bind_group);
        self.draw_indexed(0..num_indices, 0, instances);
        assert(self@ =~= old(self)@ + quad_commands(instances, camera_bind_group));
    }
}

} // verus!
