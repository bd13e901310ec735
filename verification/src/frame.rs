//! The frame orchestrator: the state of the running scene and what each
//! event does to it.
//!
//! The orchestrator decides; it does not touch the device. Every method
//! changes the state and says what the shell has to carry out: configure the
//! surface, write a buffer, replay a pass.

use vstd::prelude::*;

use crate::binding::{layout_of, pipeline_layout, LayoutId};
use crate::camera::camera::{Camera, CameraUniform, Heading, Projection};
use crate::camera::controller::{key_movement, CameraController};
use crate::camera::ortho_camera::{OrthoCamera, OrthoCameraUniform, OrthoProjection};
use crate::event::{ElementState, Event, MouseButton, VirtualKeyCode, WindowEvent};
use crate::instance::{create_instances, instance_at, Instance, InstanceBuffer};
use crate::light::{nudged, LightUniform};
use crate::math::{Math, Matrix};
use crate::matrix::{columns, depth_remap, depth_remap_columns};
use crate::pass::{
    BindGroupId, BufferId, DrawCommand, Frame, ModelId, PipelineId, RenderPass,
    RenderPassDescriptor,
};
use crate::primitives::quad::{quad_commands, DrawQuad, Quad};
use crate::scalar::{arithmetic, ordered, Scalar};
use crate::uniform::{BufferWrite, UniformKind};

verus! {

/// The size of the window in physical pixels.
#[derive(Clone, Copy, Debug, PartialEq, Eq, Structural)]
pub struct PhysicalSize {
    pub width: u32,
    pub height: u32,
}

/// The size that the surface is configured with.
#[derive(Clone, Copy, Debug, PartialEq, Eq, Structural)]
pub struct SurfaceConfiguration {
    pub width: u32,
    pub height: u32,
}

/// The depth buffer, described by the size it was created with.
#[derive(Clone, Copy, Debug, PartialEq, Eq, Structural)]
pub struct DepthTexture {
    pub width: u32,
    pub height: u32,
}

/// Why no frame could be acquired from the surface.
#[derive(Clone, Copy, Debug, PartialEq, Eq, Structural)]
pub enum SurfaceError {
    Timeout,
    Outdated,
    Lost,
    OutOfMemory,
}

/// What the shell has to do after an event.
#[derive(Clone, Copy, Debug, PartialEq, Eq, Structural)]
pub enum LoopAction {
    /// Go on waiting.
    Nothing,
    /// Configure the surface and make a depth buffer of the same size.
    Reconfigure { config: SurfaceConfiguration },
    /// Update the scene and draw a frame.
    Draw,
    /// Ask for the next redraw.
    RequestRedraw,
    /// Report the error and skip the frame.
    Report { error: SurfaceError },
    /// Leave the event loop.
    Exit,
}

/// What the orchestrator is doing.
#[derive(Clone, Copy, Debug, PartialEq, Eq, Structural)]
pub enum FrameState {
    /// Waiting for the next event.
    Idle,
    /// Taking a new size.
    Resizing,
    /// Updating the scene and drawing a frame.
    Rendering,
}

impl LoopAction {
    /// The state that the action puts the orchestrator in: a new
    /// configuration means resizing, a draw means rendering, and everything
    /// else leaves it idle.
    pub open spec fn spec_state(self) -> FrameState {
        match self {
            LoopAction::Reconfigure { config } => FrameState::Resizing,
            LoopAction::Draw => FrameState::Rendering,
            _ => FrameState::Idle,
        }
    }

    /// The state that the action puts the orchestrator in.
    pub fn state(self) -> (state: FrameState)
        ensures
            state == self.spec_state(),
    {
        match self {
            LoopAction::Reconfigure { config } => FrameState::Resizing,
            LoopAction::Draw => FrameState::Rendering,
            _ => FrameState::Idle,
        }
    }
}

/// The overlay camera with its projection and its uniform.
#[derive(Debug)]
pub struct Camera2D<S> {
    pub camera: OrthoCamera<S>,
    pub uniform: OrthoCameraUniform<S>,
    pub projection: OrthoProjection,
}

/// What a scene starts with.
#[derive(Debug)]
pub struct AppOptions<S> {
    pub camera: Camera<S>,
    pub camera_controller: CameraController<S>,
    /// Vertical field of view and clipping planes of the perspective camera.
    pub fovy: S,
    pub znear: S,
    pub zfar: S,
    /// Offset of the overlay camera.
    pub ortho_position: [S; 3],
    pub light: LightUniform<S>,
    pub quad_model: Quad<S>,
    /// The scalars 0 and 1.
    pub zero: S,
    pub one: S,
}

/// The state of the running scene.
#[derive(Debug)]
pub struct App<S> {
    pub config: SurfaceConfiguration,
    pub size: PhysicalSize,
    pub camera: Camera<S>,
    pub camera_uniform: CameraUniform<S>,
    pub camera_controller: CameraController<S>,
    pub projection: Projection<S>,
    pub ortho_camera: Camera2D<S>,
    pub instances: Vec<Instance>,
    pub instance_buffer: InstanceBuffer,
    pub depth_texture: DepthTexture,
    pub light: LightUniform<S>,
    pub quad_model: Quad<S>,
    pub mouse_pressed: bool,
    pub zero: S,
    pub one: S,
}

/// The format to configure the surface with, out of those that it offers:
/// the first that is sRGB, and the first of all where none is. `srgb` says of
/// each format on offer whether it is sRGB. The shaders write colours for an
/// sRGB target; on any other the scene comes out darker.
///
/// A surface that can be drawn to offers at least one format.
pub fn preferred_format(srgb: &Vec<bool>) -> (index: usize)
    requires
        srgb@.len() > 0,
    ensures
        index < srgb@.len(),
        forall|k: int| 0 <= k < index ==> !(#[trigger] srgb@[k]),
        srgb@[index as int] || (index == 0 && forall|k: int|
            0 <= k < srgb@.len() ==> !(#[trigger] srgb@[k])),
{
    let mut i: usize = 0;
    while i < srgb.len()
        invariant
            0 <= i <= srgb@.len(),
            forall|k: int| 0 <= k < i ==> !(#[trigger] srgb@[k]),
        decreases srgb@.len() - i,
    {
        if srgb[i] {
            return i;
        }
        i = i + 1;
    }
    0
}

/// Whether a surface of this size can be configured: neither side is zero.
pub open spec fn drawable(width: u32, height: u32) -> bool {
    width > 0 && height > 0
}

/// The commands of a frame for `instance_count` instances.
///
/// The instance stream goes into slot 1 once. Then come, in this order, the
/// marker of the light, the instanced model, and the overlay, which must be
/// last to lie over the scene.
pub open spec fn frame_commands(instance_count: u32) -> Seq<DrawCommand> {
    seq![
        DrawCommand::SetVertexBuffer { slot: 1, buffer: BufferId::Instances },
        DrawCommand::SetPipeline { pipeline: PipelineId::Light },
        DrawCommand::DrawLightModel {
            model: ModelId::LightMarker,
            camera: BindGroupId::Camera,
            light: BindGroupId::Light,
        },
        DrawCommand::SetPipeline { pipeline: PipelineId::Model },
        DrawCommand::DrawModelInstanced {
            model: ModelId::Object,
            first_instance: 0,
            end_instance: instance_count,
            camera: BindGroupId::Camera,
            light: BindGroupId::Light,
        },
        DrawCommand::SetPipeline { pipeline: PipelineId::Overlay },
    ] + quad_commands(0..1, BindGroupId::OrthoCamera)
}

/// The pipeline in force when command `i` runs: the one that the last
/// `SetPipeline` before it has set, if there is one.
pub open spec fn pipeline_before(commands: Seq<DrawCommand>, i: int) -> Option<PipelineId>
    decreases i,
{
    if i <= 0 {
        None
    } else {
        match commands[i - 1] {
            DrawCommand::SetPipeline { pipeline } => Some(pipeline),
            _ => pipeline_before(commands, i - 1),
        }
    }
}

/// Whether a command can run under `pipeline`: every bind group that it
/// attaches has the layout that the pipeline expects in that slot, and
/// nothing is drawn before a pipeline is set.
pub open spec fn command_fits(command: DrawCommand, pipeline: Option<PipelineId>) -> bool {
    match command {
        DrawCommand::SetBindGroup { index, group } => pipeline matches Some(p) && index
            < pipeline_layout(p).len() && pipeline_layout(p)[index as int] == layout_of(group),
        DrawCommand::DrawLightModel { model, camera, light } => pipeline matches Some(p)
            && pipeline_layout(p) == seq![layout_of(camera), layout_of(light)],
        DrawCommand::DrawModelInstanced {
            model,
            first_instance,
            end_instance,
            camera,
            light,
        } => pipeline matches Some(p) && pipeline_layout(p) == seq![
            LayoutId::Texture,
            layout_of(camera),
            layout_of(light),
        ],
        DrawCommand::DrawIndexed {
            first_index,
            end_index,
            base_vertex,
            first_instance,
            end_instance,
        } => pipeline is Some,
        _ => true,
    }
}

/// The writes of an update, in order: camera, overlay camera, quad, light.
pub open spec fn update_writes() -> Seq<BufferWrite> {
    seq![
        BufferWrite { target: UniformKind::Camera, offset: 0, size: 80 },
        BufferWrite { target: UniformKind::OrthoCamera, offset: 0, size: 80 },
        BufferWrite { target: UniformKind::Quad, offset: 0, size: 64 },
        BufferWrite { target: UniformKind::Light, offset: 0, size: 32 },
    ]
}

impl<S: Scalar + PartialOrd> App<S> {
    /// Everything that depends on the size of the window has the size that
    /// the surface is configured with, and the instance buffer holds as many
    /// instances as the list.
    pub open spec fn well_formed(self) -> bool {
        &&& self.sized(self.config.width, self.config.height)
        &&& self.instance_buffer.count == self.instances@.len()
    }

    /// Window, surface, both projections, the overlay camera and the depth
    /// buffer all have the size `width` by `height`.
    pub open spec fn sized(self, width: u32, height: u32) -> bool {
        &&& self.size == (PhysicalSize { width, height })
        &&& self.config == (SurfaceConfiguration { width, height })
        &&& self.projection.width == width
        &&& self.projection.height == height
        &&& self.ortho_camera.projection.width == width
        &&& self.ortho_camera.projection.height == height
        &&& self.ortho_camera.camera.dimensions@ == seq![width, height]
        &&& self.depth_texture == (DepthTexture { width, height })
    }

    /// The state after a resize to a size that can be drawn to: everything
    /// that depends on the size takes it, nothing else changes.
    pub open spec fn resized(self, resized: App<S>, width: u32, height: u32) -> bool {
        &&& resized.sized(width, height)
        &&& resized.projection == self.projection.resized(width, height)
        &&& resized.ortho_camera.projection == self.ortho_camera.projection.resized(width, height)
        &&& resized.ortho_camera.camera.position == self.ortho_camera.camera.position
        &&& resized.ortho_camera.uniform == self.ortho_camera.uniform
        &&& resized.camera == self.camera
        &&& resized.camera_uniform == self.camera_uniform
        &&& resized.camera_controller == self.camera_controller
        &&& resized.instances == self.instances
        &&& resized.instance_buffer == self.instance_buffer
        &&& resized.light == self.light
        &&& resized.quad_model == self.quad_model
        &&& resized.mouse_pressed == self.mouse_pressed
        &&& resized.zero == self.zero
        &&& resized.one == self.one
    }

    /// The scene at its start, in a window of `size`: both projections, the
    /// overlay camera and the depth buffer take the size of the window, one
    /// instance stands at the origin, the mouse is not captured, and every
    /// uniform holds what it mirrors.
    ///
    /// The window must have a size, and the options a field of view and
    /// planes, that the perspective projection accepts.
    pub fn new<SinCos, Normalize, LookTo, Perspective, Ortho, Multiply, ToScalar>(
        size: PhysicalSize,
        options: AppOptions<S>,
        math: &Math<SinCos, Normalize, LookTo, Perspective, Ortho, Multiply, ToScalar>,
    ) -> (app: App<S>) where
        SinCos: Fn(S) -> (S, S),
        Normalize: Fn([S; 3]) -> [S; 3],
        LookTo: Fn([S; 3], [S; 3], [S; 3]) -> Matrix<S>,
        Perspective: Fn(S, S, S, S) -> Matrix<S>,
        Ortho: Fn(S, S, S, S, S, S) -> Matrix<S>,
        Multiply: Fn(Matrix<S>, Matrix<S>) -> Matrix<S>,
        ToScalar: Fn(i64) -> S,

        requires
            arithmetic::<S>(),
            math.total(),
            (Projection {
                width: size.width,
                height: size.height,
                fovy: options.fovy,
                znear: options.znear,
                zfar: options.zfar,
            }).accepted_by(math.to_scalar, math.perspective),
        ensures
            app.well_formed(),
            app.mirrored(*math),
            app.size == size,
            app.camera == options.camera,
            app.camera_controller == options.camera_controller,
            app.projection == (Projection {
                width: size.width,
                height: size.height,
                fovy: options.fovy,
                znear: options.znear,
                zfar: options.zfar,
            }),
            app.ortho_camera.camera.position == options.ortho_position,
            app.ortho_camera.projection.znear == -1,
            app.ortho_camera.projection.zfar == 1,
            app.instances@ == seq![instance_at(1, 0, 0)],
            app.light == options.light,
            app.quad_model.vertices == options.quad_model.vertices,
            app.quad_model.indices == options.quad_model.indices,
            app.quad_model.options == options.quad_model.options,
            app.quad_model.transform == options.quad_model.transform,
            !app.mouse_pressed,
            app.zero == options.zero,
            app.one == options.one,
    {
        let config = SurfaceConfiguration { width: size.width, height: size.height };
        let projection = Projection::new(
            config.width,
            config.height,
            options.fovy,
            options.znear,
            options.zfar,
        );
        let dimensions = [config.width, config.height];
        assert(dimensions@ =~= seq![config.width, config.height]);
        let ortho_camera = Camera2D {
            camera: OrthoCamera::new(options.ortho_position, dimensions),
            uniform: OrthoCameraUniform::new(options.zero, options.one),
            projection: OrthoProjection::new(config.width, config.height, -1, 1),
        };
        let instances = create_instances(1);
        proof {
            assert(1 * 1 == 1) by (nonlinear_arith);
            assert(instances@[0int * 1 + 0] == instance_at(1, 0, 0));
            assert(instances@ =~= seq![instance_at(1, 0, 0)]);
        }
        let instance_buffer = InstanceBuffer { count: 1 };
        let mut app = App {
            config,
            size,
            camera: options.camera,
            camera_uniform: CameraUniform::new(options.zero, options.one),
            camera_controller: options.camera_controller,
            projection,
            ortho_camera,
            instances,
            instance_buffer,
            depth_texture: DepthTexture { width: config.width, height: config.height },
            light: options.light,
            quad_model: options.quad_model,
            mouse_pressed: false,
            zero: options.zero,
            one: options.one,
        };
        app.refresh(math);
        app
    }

    /// Replaces the instances of the model.
    ///
    /// The device buffer is never patched: a changed list means a new
    /// buffer, filled from the whole list. Returned is the buffer to create;
    /// the scene draws as many instances as it holds. A list with more
    /// instances than one draw can number is not taken, and nothing changes.
    pub fn set_instances(&mut self, instances: Vec<Instance>) -> (buffer: Option<InstanceBuffer>)
        ensures
            instances@.len() <= u32::MAX ==> {
                &&& buffer == Some(InstanceBuffer { count: instances@.len() as u32 })
                &&& *final(self) == (App {
                    instances,
                    instance_buffer: InstanceBuffer { count: instances@.len() as u32 },
                    ..*old(self)
                })
            },
            instances@.len() > u32::MAX ==> buffer is None && *final(self) == *old(self),
            old(self).sized(old(self).config.width, old(self).config.height) && buffer is Some
                ==> final(self).well_formed(),
    {
        match InstanceBuffer::new(&instances) {
            Some(buffer) => {
                self.instances = instances;
                self.instance_buffer = buffer;
                Some(buffer)
            },
            None => None,
        }
    }

    /// Takes a new size of the window.
    ///
    /// A size with a side of zero changes nothing at all. Any other size is
    /// taken by the surface, both projections, the overlay camera and the
    /// depth buffer at once, and the configuration to apply is returned: the
    /// surface and the depth buffer never differ in size.
    pub fn resize(&mut self, new_size: PhysicalSize) -> (reconfigure: Option<SurfaceConfiguration>)
        ensures
            !drawable(new_size.width, new_size.height) ==> *final(self) == *old(self)
                && reconfigure is None,
            drawable(new_size.width, new_size.height) ==> old(self).resized(
                *final(self),
                new_size.width,
                new_size.height,
            ) && reconfigure == Some(
                SurfaceConfiguration { width: new_size.width, height: new_size.height },
            ),
            old(self).instance_buffer.count == old(self).instances@.len() && drawable(
                new_size.width,
                new_size.height,
            ) ==> final(self).well_formed(),
    {
        if new_size.width > 0 && new_size.height > 0 {
            self.size = new_size;
            self.config.width = new_size.width;
            self.config.height = new_size.height;
            self.projection.resize(new_size.width, new_size.height);
            self.ortho_camera.projection.resize(new_size.width, new_size.height);
            self.ortho_camera.camera.resize(new_size.width, new_size.height);
            self.depth_texture = DepthTexture { width: self.config.width, height: self.config.height };
            Some(self.config)
        } else {
            None
        }
    }

    /// Whether `after` is the state after a window event.
    ///
    /// A key moves the light if it is one of the six light keys, on press
    /// and on release alike, and sets the amount of its movement if it is a
    /// movement key. The wheel overwrites the scroll. The left mouse button
    /// captures the mouse while it is down. Nothing else changes anything.
    pub open spec fn after_input<T: Fn(i64) -> S>(
        self,
        after: App<S>,
        event: WindowEvent<S>,
        to_scalar: T,
    ) -> bool {
        &&& match event {
            WindowEvent::KeyboardInput { virtual_keycode: Some(key), state } => {
                &&& after.light.position@ == nudged(self.light.position@, key, self.one)
                &&& after.light.color == self.light.color
                &&& after.camera_controller == self.camera_controller.after_key(key, state)
                &&& after.mouse_pressed == self.mouse_pressed
            },
            WindowEvent::MouseWheel { delta } => {
                &&& after.light == self.light
                &&& self.camera_controller.scrolled(after.camera_controller, delta, to_scalar)
                &&& after.mouse_pressed == self.mouse_pressed
            },
            WindowEvent::MouseInput { button: MouseButton::Left, state } => {
                &&& after.light == self.light
                &&& after.camera_controller == self.camera_controller
                &&& after.mouse_pressed == (state == ElementState::Pressed)
            },
            _ => {
                &&& after.light == self.light
                &&& after.camera_controller == self.camera_controller
                &&& after.mouse_pressed == self.mouse_pressed
            },
        }
        &&& after.config == self.config
        &&& after.size == self.size
        &&& after.camera == self.camera
        &&& after.camera_uniform == self.camera_uniform
        &&& after.projection == self.projection
        &&& after.ortho_camera == self.ortho_camera
        &&& after.instances == self.instances
        &&& after.instance_buffer == self.instance_buffer
        &&& after.depth_texture == self.depth_texture
        &&& after.quad_model == self.quad_model
        &&& after.zero == self.zero
        &&& after.one == self.one
    }

    /// Whether a window event is used up: a movement key, the wheel and the
    /// left mouse button are, nothing else is.
    pub open spec fn handles(event: WindowEvent<S>) -> bool {
        match event {
            WindowEvent::KeyboardInput { virtual_keycode: Some(key), state } => key_movement(
                key,
            ).is_some(),
            WindowEvent::MouseWheel { delta } => true,
            WindowEvent::MouseInput { button: MouseButton::Left, state } => true,
            _ => false,
        }
    }

    /// Routes a window event: keys to the light and to the camera
    /// controller, the wheel to the controller, the left mouse button to the
    /// capture of the mouse. Returns whether the event is used up.
    pub fn input<T: Fn(i64) -> S>(&mut self, event: &WindowEvent<S>, to_scalar: &T) -> (handled:
        bool)
        requires
            arithmetic::<S>(),
            forall|n: i64| call_requires(*to_scalar, (n,)),
        ensures
            old(self).after_input(*final(self), *event, *to_scalar),
            handled == Self::handles(*event),
            old(self).well_formed() ==> final(self).well_formed(),
    {
        match event {
            WindowEvent::KeyboardInput { virtual_keycode: Some(key), state } => {
                let _light_key = self.light.nudge(*key, self.one);
                self.camera_controller.process_keyboard(*key, *state)
            },
            WindowEvent::MouseWheel { delta } => {
                self.camera_controller.process_scroll(delta, to_scalar);
                true
            },
            WindowEvent::MouseInput { button: MouseButton::Left, state } => {
                self.mouse_pressed = *state == ElementState::Pressed;
                true
            },
            _ => false,
        }
    }

    /// Whether the uniforms of the two cameras hold what they mirror, for
    /// the directions `heading` of the camera and the matrices named.
    ///
    /// The uniform of the camera holds its eye and `projection * view`: the
    /// view of the camera for the direction in which it looks, and its
    /// projection. The uniform of the overlay camera holds its position and
    /// its projection times its view, which is a translation. Both
    /// projections are followed by the depth remap.
    pub open spec fn mirrored_by<SinCos, Normalize, LookTo, Perspective, Ortho, Multiply, ToScalar>(
        self,
        math: Math<SinCos, Normalize, LookTo, Perspective, Ortho, Multiply, ToScalar>,
        heading: Heading<S>,
        remap: Matrix<S>,
        views: (Matrix<S>, Matrix<S>),
        projections: (Matrix<S>, Matrix<S>),
    ) -> bool where
        SinCos: Fn(S) -> (S, S),
        Normalize: Fn([S; 3]) -> [S; 3],
        LookTo: Fn([S; 3], [S; 3], [S; 3]) -> Matrix<S>,
        Perspective: Fn(S, S, S, S) -> Matrix<S>,
        Ortho: Fn(S, S, S, S, S, S) -> Matrix<S>,
        Multiply: Fn(Matrix<S>, Matrix<S>) -> Matrix<S>,
        ToScalar: Fn(i64) -> S,
     {
        &&& self.camera.has_heading(heading, self.zero, math.sin_cos, math.normalize)
        &&& self.camera.has_view(heading.look, views.0, self.zero, self.one, math.look_to_rh)
        &&& columns(remap) == depth_remap_columns(self.zero, self.one)
        &&& self.projection.has_matrix(
            projections.0,
            remap,
            math.to_scalar,
            math.perspective,
            math.multiply,
        )
        &&& self.camera_uniform.mirrors(
            self.camera,
            projections.0,
            views.0,
            self.one,
            math.multiply,
        )
        &&& columns(views.1) == self.ortho_camera.camera.spec_calc_matrix(self.zero, self.one)
        &&& self.ortho_camera.projection.has_matrix(
            projections.1,
            remap,
            math.to_scalar,
            math.ortho,
            math.multiply,
        )
        &&& self.ortho_camera.uniform.mirrors(
            self.ortho_camera.camera,
            projections.1,
            views.1,
            self.one,
            math.multiply,
        )
    }

    /// Whether every uniform holds what it mirrors: the two camera uniforms
    /// are as [`App::mirrored_by`] says for some directions and matrices
    /// that `math` gives, and the model matrix of the quad is the
    /// translation to its position.
    pub open spec fn mirrored<SinCos, Normalize, LookTo, Perspective, Ortho, Multiply, ToScalar>(
        self,
        math: Math<SinCos, Normalize, LookTo, Perspective, Ortho, Multiply, ToScalar>,
    ) -> bool where
        SinCos: Fn(S) -> (S, S),
        Normalize: Fn([S; 3]) -> [S; 3],
        LookTo: Fn([S; 3], [S; 3], [S; 3]) -> Matrix<S>,
        Perspective: Fn(S, S, S, S) -> Matrix<S>,
        Ortho: Fn(S, S, S, S, S, S) -> Matrix<S>,
        Multiply: Fn(Matrix<S>, Matrix<S>) -> Matrix<S>,
        ToScalar: Fn(i64) -> S,
     {
        &&& exists|
            heading: Heading<S>,
            remap: Matrix<S>,
            views: (Matrix<S>, Matrix<S>),
            projections: (Matrix<S>, Matrix<S>),
        | #[trigger]
            self.mirrored_by(math, heading, remap, views, projections)
        &&& columns(self.quad_model.uniform.model) == self.quad_model.spec_model(
            self.zero,
            self.one,
        )
    }

    /// Whether `after` differs from the state in its uniforms at most.
    pub open spec fn same_but_uniforms(self, after: App<S>) -> bool {
        &&& after.quad_model.vertices == self.quad_model.vertices
        &&& after.quad_model.indices == self.quad_model.indices
        &&& after.quad_model.options == self.quad_model.options
        &&& after.quad_model.transform == self.quad_model.transform
        &&& after.ortho_camera.camera == self.ortho_camera.camera
        &&& after.ortho_camera.projection == self.ortho_camera.projection
        &&& after.camera == self.camera
        &&& after.camera_controller == self.camera_controller
        &&& after.config == self.config
        &&& after.size == self.size
        &&& after.projection == self.projection
        &&& after.instances == self.instances
        &&& after.instance_buffer == self.instance_buffer
        &&& after.depth_texture == self.depth_texture
        &&& after.light == self.light
        &&& after.mouse_pressed == self.mouse_pressed
        &&& after.zero == self.zero
        &&& after.one == self.one
    }

    /// Whether `after` is the state after an update of `dt` seconds: the
    /// camera is moved by the controller, for some directions `before` that
    /// `math` gives for the camera before the update; the controller has
    /// forgotten the wheel and the mouse; every uniform holds what it
    /// mirrors after the move; and nothing else has changed.
    pub open spec fn updated<SinCos, Normalize, LookTo, Perspective, Ortho, Multiply, ToScalar>(
        self,
        after: App<S>,
        dt: S,
        safe_pitch: S,
        math: Math<SinCos, Normalize, LookTo, Perspective, Ortho, Multiply, ToScalar>,
    ) -> bool where
        SinCos: Fn(S) -> (S, S),
        Normalize: Fn([S; 3]) -> [S; 3],
        LookTo: Fn([S; 3], [S; 3], [S; 3]) -> Matrix<S>,
        Perspective: Fn(S, S, S, S) -> Matrix<S>,
        Ortho: Fn(S, S, S, S, S, S) -> Matrix<S>,
        Multiply: Fn(Matrix<S>, Matrix<S>) -> Matrix<S>,
        ToScalar: Fn(i64) -> S,
     {
        &&& exists|before: Heading<S>|
            {
                &&& #[trigger] self.camera.has_heading(
                    before,
                    self.zero,
                    math.sin_cos,
                    math.normalize,
                )
                &&& self.camera_controller.steered(
                    self.camera,
                    after.camera,
                    before,
                    dt,
                    self.zero,
                    self.one,
                    safe_pitch,
                )
            }
        &&& after.camera_controller == (CameraController {
            scroll: self.zero,
            rotate_horizontal: self.zero,
            rotate_vertical: self.zero,
            ..self.camera_controller
        })
        &&& after.mirrored(math)
        &&& (App { camera: after.camera, camera_controller: after.camera_controller, ..self })
            .same_but_uniforms(after)
    }

    /// Brings every uniform up to date with what it mirrors. The perspective
    /// projection must accept the viewport as it is now.
    pub fn refresh<SinCos, Normalize, LookTo, Perspective, Ortho, Multiply, ToScalar>(
        &mut self,
        math: &Math<SinCos, Normalize, LookTo, Perspective, Ortho, Multiply, ToScalar>,
    ) where
        SinCos: Fn(S) -> (S, S),
        Normalize: Fn([S; 3]) -> [S; 3],
        LookTo: Fn([S; 3], [S; 3], [S; 3]) -> Matrix<S>,
        Perspective: Fn(S, S, S, S) -> Matrix<S>,
        Ortho: Fn(S, S, S, S, S, S) -> Matrix<S>,
        Multiply: Fn(Matrix<S>, Matrix<S>) -> Matrix<S>,
        ToScalar: Fn(i64) -> S,

        requires
            arithmetic::<S>(),
            math.total(),
            old(self).projection.accepted_by(math.to_scalar, math.perspective),
        ensures
            final(self).mirrored(*math),
            old(self).same_but_uniforms(*final(self)),
    {
        let remap = depth_remap(self.zero, self.one);

        // camera
        let heading = self.camera.heading(self.zero, &math.sin_cos, &math.normalize);
        let view = self.camera.calc_matrix(heading.look, self.zero, self.one, &math.look_to_rh);
        let projection = self.projection.calc_matrix(
            remap,
            &math.to_scalar,
            &math.perspective,
            &math.multiply,
        );
        self.camera_uniform.update_view_projection(
            &self.camera,
            projection,
            view,
            self.one,
            &math.multiply,
        );

        // overlay camera
        let ortho_view = self.ortho_camera.camera.calc_matrix(self.zero, self.one);
        let ortho_projection = self.ortho_camera.projection.calc_matrix(
            remap,
            &math.to_scalar,
            &math.ortho,
            &math.multiply,
        );
        self.ortho_camera.uniform.update_view_projection(
            &self.ortho_camera.camera,
            ortho_projection,
            ortho_view,
            self.one,
            &math.multiply,
        );

        // quad
        self.quad_model.uniform.update_model_from_position(
            self.quad_model.options.position,
            self.zero,
            self.one,
        );
        proof {
            assert(self.mirrored_by(
                *math,
                heading,
                remap,
                (view, ortho_view),
                (projection, ortho_projection),
            ));
        }
    }

    /// Advances the scene by `dt` seconds and brings every uniform up to
    /// date.
    ///
    /// Returned are the writes that carry the values to the device, each of
    /// a whole value from the first byte of its buffer: camera, overlay
    /// camera, quad and, last, the light. The perspective projection must
    /// accept the viewport as it is now.
    pub fn update<SinCos, Normalize, LookTo, Perspective, Ortho, Multiply, ToScalar>(
        &mut self,
        dt: S,
        safe_pitch: S,
        math: &Math<SinCos, Normalize, LookTo, Perspective, Ortho, Multiply, ToScalar>,
    ) -> (writes: Vec<BufferWrite>) where
        SinCos: Fn(S) -> (S, S),
        Normalize: Fn([S; 3]) -> [S; 3],
        LookTo: Fn([S; 3], [S; 3], [S; 3]) -> Matrix<S>,
        Perspective: Fn(S, S, S, S) -> Matrix<S>,
        Ortho: Fn(S, S, S, S, S, S) -> Matrix<S>,
        Multiply: Fn(Matrix<S>, Matrix<S>) -> Matrix<S>,
        ToScalar: Fn(i64) -> S,

        requires
            arithmetic::<S>(),
            ordered::<S>(),
            math.total(),
            old(self).projection.accepted_by(math.to_scalar, math.perspective),
        ensures
            old(self).updated(*final(self), dt, safe_pitch, *math),
            old(self).well_formed() ==> final(self).well_formed(),
            writes@ == update_writes(),
    {
        let before = self.camera.heading(self.zero, &math.sin_cos, &math.normalize);
        self.camera_controller.update_camera(
            &mut self.camera,
            &before,
            dt,
            self.zero,
            self.one,
            safe_pitch,
        );
        self.refresh(math);

        let mut writes: Vec<BufferWrite> = Vec::new();
        writes.push(UniformKind::Camera.write());
        writes.push(UniformKind::OrthoCamera.write());
        writes.push(UniformKind::Quad.write());
        writes.push(UniformKind::Light.write());
        proof {
            assert(writes@ =~= update_writes());
        }
        writes
    }

    /// Records the frame, once a frame of the surface has or has not been
    /// acquired.
    ///
    /// Without a frame nothing is recorded and the error is handed back.
    /// With one, the pass clears colour and depth and draws the light
    /// marker, then the model once for each instance of the list, then the
    /// overlay.
    pub fn render(&self, acquired: Result<(), SurfaceError>) -> (result: Result<
        Frame,
        SurfaceError,
    >)
        requires
            self.instances@.len() <= u32::MAX,
        ensures
            acquired is Err ==> result is Err && result->Err_0 == acquired->Err_0,
            acquired is Ok ==> (result matches Ok(frame) && {
                &&& frame.pass@ == frame_commands(self.instances@.len() as u32)
                &&& frame.descriptor.label@ == "Render Pass"@
                &&& frame.descriptor.clear_color
                &&& frame.descriptor.clear_depth
                &&& frame.descriptor.store
            }),
    {
        match acquired {
            Err(error) => Err(error),
            Ok(_) => {
                let descriptor = RenderPassDescriptor {
                    label: "Render Pass",
                    clear_color: true,
                    clear_depth: true,
                    store: true,
                };
                let mut render_pass = RenderPass::new();
                render_pass.set_vertex_buffer(1, BufferId::Instances);
                render_pass.set_pipeline(PipelineId::Light);
                render_pass.draw_light_model(
                    ModelId::LightMarker,
                    BindGroupId::Camera,
                    BindGroupId::Light,
                );
                render_pass.set_pipeline(PipelineId::Model);
                render_pass.draw_model_instanced(
                    ModelId::Object,
                    0..self.instances.len() as u32,
                    BindGroupId::Camera,
                    BindGroupId::Light,
                );
                render_pass.set_pipeline(PipelineId::Overlay);
                render_pass.draw_quad(&self.quad_model, BindGroupId::OrthoCamera);
                assert(render_pass@ =~= frame_commands(self.instances@.len() as u32));
                Ok(Frame { descriptor, pass: render_pass })
            },
        }
    }

    /// What the shell has to do once the frame has been drawn, or has not: a
    /// lost surface is configured again with the size the window has, when
    /// that size can be drawn to; without memory the loop ends; any other
    /// error is reported and the frame is skipped.
    pub open spec fn render_action(self, result: Result<(), SurfaceError>) -> LoopAction {
        match result {
            Ok(_) => LoopAction::Nothing,
            Err(SurfaceError::Lost) => if drawable(self.size.width, self.size.height) {
                LoopAction::Reconfigure {
                    config: SurfaceConfiguration {
                        width: self.size.width,
                        height: self.size.height,
                    },
                }
            } else {
                LoopAction::Nothing
            },
            Err(SurfaceError::OutOfMemory) => LoopAction::Exit,
            Err(error) => LoopAction::Report { error },
        }
    }

    /// Takes the outcome of drawing a frame.
    pub fn after_render(&mut self, result: Result<(), SurfaceError>) -> (action: LoopAction)
        ensures
            action == old(self).render_action(result),
            action is Reconfigure ==> old(self).resized(
                *final(self),
                old(self).size.width,
                old(self).size.height,
            ),
            !(action is Reconfigure) ==> *final(self) == *old(self),
            old(self).well_formed() ==> final(self).well_formed(),
    {
        match result {
            Ok(_) => LoopAction::Nothing,
            Err(SurfaceError::Lost) => {
                let size = self.size;
                match self.resize(size) {
                    Some(config) => LoopAction::Reconfigure { config },
                    None => LoopAction::Nothing,
                }
            },
            Err(SurfaceError::OutOfMemory) => LoopAction::Exit,
            Err(error) => LoopAction::Report { error },
        }
    }

    /// The size that a window event asks for, if it is a resize.
    pub open spec fn resize_request(event: WindowEvent<S>) -> Option<PhysicalSize> {
        match event {
            WindowEvent::Resized { width, height } => Some(PhysicalSize { width, height }),
            WindowEvent::ScaleFactorChanged { width, height } => Some(
                PhysicalSize { width, height },
            ),
            _ => None,
        }
    }

    /// Whether a window event asks to leave: the window is closed, or escape
    /// goes down.
    pub open spec fn exit_request(event: WindowEvent<S>) -> bool {
        match event {
            WindowEvent::CloseRequested => true,
            WindowEvent::KeyboardInput { virtual_keycode: Some(key), state } => key
                == VirtualKeyCode::Escape && state == ElementState::Pressed,
            _ => false,
        }
    }

    /// What the shell has to do after an event of the loop.
    ///
    /// Events for other windows are ignored. An event of the own window goes
    /// through [`App::input`] first; one that is not used up there may end
    /// the loop or resize the scene. A redraw request draws; when the queue
    /// of events is empty the next redraw is asked for.
    pub open spec fn event_action(self, event: Event<S>) -> LoopAction {
        match event {
            Event::Window { own_window: true, event } => {
                if Self::handles(event) {
                    LoopAction::Nothing
                } else if Self::exit_request(event) {
                    LoopAction::Exit
                } else {
                    match Self::resize_request(event) {
                        Some(size) => if drawable(size.width, size.height) {
                            LoopAction::Reconfigure {
                                config: SurfaceConfiguration {
                                    width: size.width,
                                    height: size.height,
                                },
                            }
                        } else {
                            LoopAction::Nothing
                        },
                        None => LoopAction::Nothing,
                    }
                }
            },
            Event::RedrawRequested { own_window: true } => LoopAction::Draw,
            Event::MainEventsCleared => LoopAction::RequestRedraw,
            _ => LoopAction::Nothing,
        }
    }

    /// Whether `after` is the state after an event of the loop that is no
    /// resize: the motion of the mouse reaches the controller only while the
    /// mouse is captured, an event of the own window does what
    /// [`App::input`] does with it, and nothing else changes anything.
    pub open spec fn after_event<T: Fn(i64) -> S>(
        self,
        after: App<S>,
        event: Event<S>,
        to_scalar: T,
    ) -> bool {
        match event {
            Event::MouseMotion { dx, dy } => if self.mouse_pressed {
                after == (App {
                    camera_controller: CameraController {
                        rotate_horizontal: dx,
                        rotate_vertical: dy,
                        ..self.camera_controller
                    },
                    ..self
                })
            } else {
                after == self
            },
            Event::Window { own_window: true, event } => self.after_input(
                after,
                event,
                to_scalar,
            ),
            _ => after == self,
        }
    }

    /// Takes an event of the loop and says what the shell has to do.
    pub fn handle_event<T: Fn(i64) -> S>(&mut self, event: &Event<S>, to_scalar: &T) -> (action:
        LoopAction)
        requires
            arithmetic::<S>(),
            forall|n: i64| call_requires(*to_scalar, (n,)),
        ensures
            action == old(self).event_action(*event),
            action is Reconfigure ==> (action matches LoopAction::Reconfigure { config }
                && old(self).resized(*final(self), config.width, config.height)),
            !(action is Reconfigure) ==> old(self).after_event(*final(self), *event, *to_scalar),
            old(self).well_formed() ==> final(self).well_formed(),
    {
        match event {
            Event::MouseMotion { dx, dy } => {
                if self.mouse_pressed {
                    self.camera_controller.process_mouse(*dx, *dy);
                }
                LoopAction::Nothing
            },
            Event::Window { own_window: true, event } => {
                if self.input(event, to_scalar) {
                    return LoopAction::Nothing;
                }
                match event {
                    WindowEvent::CloseRequested => LoopAction::Exit,
                    WindowEvent::KeyboardInput {
                        virtual_keycode: Some(VirtualKeyCode::Escape),
                        state: ElementState::Pressed,
                    } => LoopAction::Exit,
                    WindowEvent::Resized { width, height } => {
                        match self.resize(PhysicalSize { width: *width, height: *height }) {
                            Some(config) => LoopAction::Reconfigure { config },
                            None => LoopAction::Nothing,
                        }
                    },
                    WindowEvent::ScaleFactorChanged { width, height } => {
                        match self.resize(PhysicalSize { width: *width, height: *height }) {
                            Some(config) => LoopAction::Reconfigure { config },
                            None => LoopAction::Nothing,
                        }
                    },
                    _ => LoopAction::Nothing,
                }
            },
            Event::RedrawRequested { own_window: true } => LoopAction::Draw,
            Event::MainEventsCleared => LoopAction::RequestRedraw,
            _ => LoopAction::Nothing,
        }
    }
}

/// The order of a frame is fixed: the light marker is drawn first, the model
/// second, and every command from the switch to the overlay pipeline on
/// belongs to the overlay, whose draw is the last command of the pass.
pub proof fn lemma_frame_order(instance_count: u32)
    ensures
        ({
            let commands = frame_commands(instance_count);
            &&& commands.len() == 10
            &&& commands[2] is DrawLightModel
            &&& commands[4] is DrawModelInstanced
            &&& commands[9] is DrawIndexed
            &&& forall|i: int| 0 <= i < 10 && commands[i] is DrawLightModel ==> i == 2
            &&& forall|i: int| 0 <= i < 10 && commands[i] is DrawModelInstanced ==> i == 4
            &&& forall|i: int| 0 <= i < 10 && commands[i] is DrawIndexed ==> i == 9
            &&& forall|i: int|
                6 <= i <= 10 ==> pipeline_before(commands, i) == Some(PipelineId::Overlay)
        }),
{
    let commands = frame_commands(instance_count);
    reveal_with_fuel(pipeline_before, 11);
    assert(commands.len() == 10);
    assert forall|i: int| 6 <= i <= 10 implies pipeline_before(commands, i) == Some(
        PipelineId::Overlay,
    ) by {
        assert(commands[5] == DrawCommand::SetPipeline { pipeline: PipelineId::Overlay });
        assert(pipeline_before(commands, 6) == Some(PipelineId::Overlay));
        if i >= 7 {
            assert(pipeline_before(commands, 7) == pipeline_before(commands, 6));
        }
        if i >= 8 {
            assert(pipeline_before(commands, 8) == pipeline_before(commands, 7));
        }
        if i >= 9 {
            assert(pipeline_before(commands, 9) == pipeline_before(commands, 8));
        }
        if i >= 10 {
            assert(pipeline_before(commands, 10) == pipeline_before(commands, 9));
        }
    }
}

/// Every command of a frame runs under a pipeline that expects what the
/// command binds: the bind groups of the light marker, of the model and of
/// the overlay each stand in the slot that the layout of their pipeline
/// gives them.
pub proof fn lemma_frame_bindings_fit(instance_count: u32)
    ensures
        forall|i: int|
            0 <= i < frame_commands(instance_count).len() ==> command_fits(
                #[trigger] frame_commands(instance_count)[i],
                pipeline_before(frame_commands(instance_count), i),
            ),
{
    let commands = frame_commands(instance_count);
    lemma_frame_order(instance_count);
    reveal_with_fuel(pipeline_before, 11);
    assert(pipeline_before(commands, 2) == Some(PipelineId::Light));
    assert(pipeline_before(commands, 4) == Some(PipelineId::Model));
    assert(pipeline_layout(PipelineId::Light) =~= seq![
        layout_of(BindGroupId::Camera),
        layout_of(BindGroupId::Light),
    ]);
    assert(pipeline_layout(PipelineId::Model) =~= seq![
        LayoutId::Texture,
        layout_of(BindGroupId::Camera),
        layout_of(BindGroupId::Light),
    ]);
    assert forall|i: int| 0 <= i < commands.len() implies command_fits(
        #[trigger] commands[i],
        pipeline_before(commands, i),
    ) by {
        if i == 8 {
            assert(pipeline_before(commands, 8) == Some(PipelineId::Overlay));
        }
        if i == 9 {
            assert(pipeline_before(commands, 9) == Some(PipelineId::Overlay));
        }
    }
}

/// Every uniform that an update writes is written whole: each write starts
/// at the first byte and is as long as the buffer of its target.
pub proof fn lemma_update_writes_whole(i: int)
    requires
        0 <= i < update_writes().len(),
    ensures
        update_writes()[i].offset == 0,
        update_writes()[i].size == update_writes()[i].target.spec_size(),
{
}

} // verus!
