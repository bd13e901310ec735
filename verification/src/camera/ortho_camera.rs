//! The orthographic camera of the screen-space overlay.

use vstd::prelude::*;

use crate::math::Matrix;
use crate::matrix::{
    columns, from_translation, identity, identity_columns, is_translation, to_homogeneous,
    translation_columns,
};
use crate::scalar::Scalar;

verus! {

/// The near plane of the overlay. It differs from that of the perspective
/// camera and does not depend on the planes stored in the projection.
pub const ORTHO_ZNEAR: i32 = -10;

/// The far plane of the overlay.
pub const ORTHO_ZFAR: i32 = 100;

/// The box that an orthographic projection maps onto clip space.
#[derive(Clone, Copy, Debug, PartialEq, Eq, Structural)]
pub struct OrthoBounds {
    pub left: u32,
    pub right: u32,
    pub bottom: u32,
    pub top: u32,
    pub near: i32,
    pub far: i32,
}

/// The orthographic projection: the size of the viewport in pixels and a
/// pair of planes.
#[derive(Clone, Copy, Debug, PartialEq, Eq, Structural)]
pub struct OrthoProjection {
    pub width: u32,
    pub height: u32,
    pub znear: i32,
    pub zfar: i32,
}

impl Default for OrthoProjection {
    /// An empty viewport between the planes -1 and 1.
    fn default() -> (projection: OrthoProjection)
        ensures
            projection == (OrthoProjection { width: 0, height: 0, znear: -1i32, zfar: 1 }),
    {
        OrthoProjection { width: 0, height: 0, znear: -1, zfar: 1 }
    }
}

impl OrthoProjection {
    /// The projection after a resize to `width` by `height`: only the size
    /// changes.
    pub open spec fn resized(self, width: u32, height: u32) -> OrthoProjection {
        OrthoProjection { width, height, ..self }
    }

    /// The box that the projection shows: x from 0 at the left to the width
    /// at the right, y from the height at the bottom to 0 at the top, so that
    /// y grows downwards as on a screen, and z between the fixed planes.
    pub open spec fn spec_bounds(self) -> OrthoBounds {
        OrthoBounds {
            left: 0,
            right: self.width,
            bottom: self.height,
            top: 0,
            near: ORTHO_ZNEAR,
            far: ORTHO_ZFAR,
        }
    }

    pub fn new(width: u32, height: u32, znear: i32, zfar: i32) -> (projection: OrthoProjection)
        ensures
            projection == (OrthoProjection { width, height, znear, zfar }),
    {
        OrthoProjection { width, height, znear, zfar }
    }

    /// Takes the size of a viewport of `width` by `height`.
    pub fn resize(&mut self, width: u32, height: u32)
        ensures
            *final(self) == old(self).resized(width, height),
            final(self).spec_bounds() == (OrthoBounds {
                left: 0,
                right: width,
                bottom: height,
                top: 0,
                near: ORTHO_ZNEAR,
                far: ORTHO_ZFAR,
            }),
    {
        self.width = width;
        self.height = height;
    }

    /// Whether `matrix` is the projection matrix for the six scalars of the
    /// box that the projection shows: `projection` is the orthographic
    /// projection of the box, and `matrix` is `remap * projection`.
    pub open spec fn matrix_from<S, T, O, M>(
        self,
        matrix: Matrix<S>,
        remap: Matrix<S>,
        to_scalar: T,
        ortho: O,
        multiply: M,
        sides: (S, S, S, S, S, S),
        projection: Matrix<S>,
    ) -> bool where
        T: Fn(i64) -> S,
        O: Fn(S, S, S, S, S, S) -> Matrix<S>,
        M: Fn(Matrix<S>, Matrix<S>) -> Matrix<S>,
     {
        let bounds = self.spec_bounds();
        &&& call_ensures(to_scalar, (bounds.left as i64,), sides.0)
        &&& call_ensures(to_scalar, (bounds.right as i64,), sides.1)
        &&& call_ensures(to_scalar, (bounds.bottom as i64,), sides.2)
        &&& call_ensures(to_scalar, (bounds.top as i64,), sides.3)
        &&& call_ensures(to_scalar, (bounds.near as i64,), sides.4)
        &&& call_ensures(to_scalar, (bounds.far as i64,), sides.5)
        &&& call_ensures(ortho, sides, projection)
        &&& call_ensures(multiply, (remap, projection), matrix)
    }

    /// Whether `matrix` is the projection matrix, as `to_scalar`, `ortho`
    /// and `multiply` give it: the orthographic projection of the box that
    /// the projection shows, with `remap` applied after it.
    pub open spec fn has_matrix<S, T, O, M>(
        self,
        matrix: Matrix<S>,
        remap: Matrix<S>,
        to_scalar: T,
        ortho: O,
        multiply: M,
    ) -> bool where
        T: Fn(i64) -> S,
        O: Fn(S, S, S, S, S, S) -> Matrix<S>,
        M: Fn(Matrix<S>, Matrix<S>) -> Matrix<S>,
     {
        exists|sides: (S, S, S, S, S, S), projection: Matrix<S>|
            #[trigger] self.matrix_from(
                matrix,
                remap,
                to_scalar,
                ortho,
                multiply,
                sides,
                projection,
            )
    }

    /// The projection matrix, with depth remapped by `remap`.
    pub fn calc_matrix<S, T, O, M>(
        &self,
        remap: Matrix<S>,
        to_scalar: &T,
        ortho: &O,
        multiply: &M,
    ) -> (matrix: Matrix<S>) where
        T: Fn(i64) -> S,
        O: Fn(S, S, S, S, S, S) -> Matrix<S>,
        M: Fn(Matrix<S>, Matrix<S>) -> Matrix<S>,

        requires
            forall|n: i64| call_requires(*to_scalar, (n,)),
            forall|left: S, right: S, bottom: S, top: S, near: S, far: S|
                call_requires(*ortho, (left, right, bottom, top, near, far)),
            forall|a: Matrix<S>, b: Matrix<S>| call_requires(*multiply, (a, b)),
        ensures
            self.has_matrix(matrix, remap, *to_scalar, *ortho, *multiply),
    {
        let bounds = self.bounds();
        let left = to_scalar(bounds.left as i64);
        let right = to_scalar(bounds.right as i64);
        let bottom = to_scalar(bounds.bottom as i64);
        let top = to_scalar(bounds.top as i64);
        let near = to_scalar(bounds.near as i64);
        let far = to_scalar(bounds.far as i64);
        let projection = ortho(left, right, bottom, top, near, far);
        let matrix = multiply(remap, projection);
        proof {
            assert(self.matrix_from(
                matrix,
                remap,
                *to_scalar,
                *ortho,
                *multiply,
                (left, right, bottom, top, near, far),
                projection,
            ));
        }
        matrix
    }

    /// The box that the projection matrix is computed from.
    pub fn bounds(&self) -> (bounds: OrthoBounds)
        ensures
            bounds == self.spec_bounds(),
    {
        OrthoBounds {
            left: 0,
            right: self.width,
            bottom: self.height,
            top: 0,
            near: ORTHO_ZNEAR,
            far: ORTHO_ZFAR,
        }
    }
}

/// The camera of the overlay: an offset and the size of the viewport.
#[derive(Clone, Copy, Debug)]
pub struct OrthoCamera<S> {
    pub position: [S; 3],
    pub dimensions: [u32; 2],
}

impl<S: Scalar> OrthoCamera<S> {
    /// The camera after a resize to `width` by `height`: only the size
    /// changes.
    pub open spec fn resized(self, width: u32, height: u32) -> OrthoCamera<S> {
        OrthoCamera { position: self.position, dimensions: [width, height] }
    }

    /// The view matrix: the translation by the position of the camera, with
    /// no rotation.
    pub open spec fn spec_calc_matrix(self, zero: S, one: S) -> Seq<Seq<S>> {
        translation_columns(self.position@[0], self.position@[1], self.position@[2], zero, one)
    }

    pub fn new(position: [S; 3], dimensions: [u32; 2]) -> (camera: OrthoCamera<S>)
        ensures
            camera.position == position,
            camera.dimensions == dimensions,
    {
        OrthoCamera { position, dimensions }
    }

    /// Takes the size of a viewport of `width` by `height`.
    pub fn resize(&mut self, width: u32, height: u32)
        ensures
            final(self).position == old(self).position,
            final(self).dimensions@ == seq![width, height],
    {
        self.dimensions = [width, height];
        assert(self.dimensions@ =~= seq![width, height]);
    }

    /// The view matrix.
    pub fn calc_matrix(&self, zero: S, one: S) -> (view: [[S; 4]; 4])
        ensures
            columns(view) == self.spec_calc_matrix(zero, one),
            is_translation(columns(view), zero, one),
    {
        from_translation(self.position, zero, one)
    }
}

/// The overlay camera as the shaders read it.
#[derive(Clone, Copy, Debug)]
pub struct OrthoCameraUniform<S> {
    pub view_position: [S; 4],
    pub view_projection: [[S; 4]; 4],
}

impl<S: Scalar> OrthoCameraUniform<S> {
    /// The uniform before any camera has been written to it.
    pub fn new(zero: S, one: S) -> (uniform: OrthoCameraUniform<S>)
        ensures
            uniform.view_position@ == seq![zero, zero, zero, zero],
            columns(uniform.view_projection) == identity_columns(zero, one),
    {
        let view_position = [zero, zero, zero, zero];
        assert(view_position@ =~= seq![zero, zero, zero, zero]);
        OrthoCameraUniform { view_position, view_projection: identity(zero, one) }
    }

    /// Whether the uniform mirrors `camera`: the position of the camera
    /// with `one` appended, and what `multiply` makes of `projection` and
    /// `view`, the projection on the left.
    pub open spec fn mirrors<M: Fn(Matrix<S>, Matrix<S>) -> Matrix<S>>(
        self,
        camera: OrthoCamera<S>,
        projection: Matrix<S>,
        view: Matrix<S>,
        one: S,
        multiply: M,
    ) -> bool {
        &&& self.view_position@ == seq![
            camera.position@[0],
            camera.position@[1],
            camera.position@[2],
            one,
        ]
        &&& call_ensures(multiply, (projection, view), self.view_projection)
    }

    /// Takes the position of `camera` and the product of `projection` and
    /// `view`, in this order.
    pub fn update_view_projection<M: Fn(Matrix<S>, Matrix<S>) -> Matrix<S>>(
        &mut self,
        camera: &OrthoCamera<S>,
        projection: Matrix<S>,
        view: Matrix<S>,
        one: S,
        multiply: &M,
    )
        requires
            forall|a: Matrix<S>, b: Matrix<S>| call_requires(*multiply, (a, b)),
        ensures
            final(self).mirrors(*camera, projection, view, one, *multiply),
    {
        self.view_position = to_homogeneous(camera.position, one);
        self.view_projection = multiply(projection, view);
    }
}

/// Resizing the overlay changes what the projection shows and nothing about
/// the view: after a resize to `width` by `height` the projection shows the
/// box from 0 to `width` and from `height` to 0, and the view matrix is the
/// same translation as before.
pub proof fn lemma_ortho_resize<S: Scalar>(
    camera: OrthoCamera<S>,
    resized_camera: OrthoCamera<S>,
    projection: OrthoProjection,
    width: u32,
    height: u32,
    zero: S,
    one: S,
)
    requires
        resized_camera.position == camera.position,
        resized_camera.dimensions@ == seq![width, height],
    ensures
        projection.resized(width, height).spec_bounds().right == width,
        projection.resized(width, height).spec_bounds().bottom == height,
        projection.resized(width, height).spec_bounds().left == 0,
        projection.resized(width, height).spec_bounds().top == 0,
        resized_camera.spec_calc_matrix(zero, one) == camera.spec_calc_matrix(zero, one),
        is_translation(resized_camera.spec_calc_matrix(zero, one), zero, one),
{
}

} // verus!
