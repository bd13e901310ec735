//! The perspective camera of the scene.

use vstd::prelude::*;
use vstd::std_specs::ops::{DivSpec, MulSpec, NegSpec};

use crate::math::Matrix;
use crate::matrix::{columns, identity, identity_columns, to_homogeneous};
use crate::scalar::{arithmetic, Scalar};

verus! {

/// Where the camera stands and where it looks: yaw about the vertical axis
/// and pitch above the horizon, both in radians.
#[derive(Clone, Copy, Debug)]
pub struct Camera<S> {
    pub position: [S; 3],
    pub yaw: S,
    pub pitch: S,
}

/// The directions of a camera, each of unit length as far as the function
/// that normalised them makes them so.
#[derive(Clone, Copy, Debug)]
pub struct Heading<S> {
    /// Straight ahead on the ground: the yaw alone.
    pub forward: [S; 3],
    /// To the right on the ground.
    pub right: [S; 3],
    /// Where the camera looks: yaw and pitch.
    pub look: [S; 3],
}

impl<S: Scalar> Camera<S> {
    /// Whether `heading` holds the directions of the camera for the sine and
    /// cosine `yaw` of its yaw and `pitch` of its pitch: the vectors
    /// `forward`, `right` and `look` are `(cos yaw, 0, sin yaw)`,
    /// `(-sin yaw, 0, cos yaw)` and `(cos pitch * cos yaw, sin pitch, cos
    /// pitch * sin yaw)`, and the directions are what `normalize` makes of
    /// them.
    pub open spec fn heading_from<C: Fn(S) -> (S, S), N: Fn([S; 3]) -> [S; 3]>(
        self,
        heading: Heading<S>,
        zero: S,
        sin_cos: C,
        normalize: N,
        yaw: (S, S),
        pitch: (S, S),
        forward: [S; 3],
        right: [S; 3],
        look: [S; 3],
    ) -> bool {
        &&& call_ensures(sin_cos, (self.yaw,), yaw)
        &&& call_ensures(sin_cos, (self.pitch,), pitch)
        &&& forward@ == seq![yaw.1, zero, yaw.0]
        &&& right@ == seq![yaw.0.neg_spec(), zero, yaw.1]
        &&& look@ == seq![pitch.1.mul_spec(yaw.1), pitch.0, pitch.1.mul_spec(yaw.0)]
        &&& call_ensures(normalize, (forward,), heading.forward)
        &&& call_ensures(normalize, (right,), heading.right)
        &&& call_ensures(normalize, (look,), heading.look)
    }

    /// Whether `heading` holds the directions of the camera, as `sin_cos`
    /// and `normalize` give them: [`Camera::heading_from`] for some sine and
    /// cosine that `sin_cos` returns for the yaw and for the pitch.
    pub open spec fn has_heading<C: Fn(S) -> (S, S), N: Fn([S; 3]) -> [S; 3]>(
        self,
        heading: Heading<S>,
        zero: S,
        sin_cos: C,
        normalize: N,
    ) -> bool {
        exists|yaw: (S, S), pitch: (S, S), forward: [S; 3], right: [S; 3], look: [S; 3]|
            #[trigger] self.heading_from(
                heading,
                zero,
                sin_cos,
                normalize,
                yaw,
                pitch,
                forward,
                right,
                look,
            )
    }

    /// Whether `view` is the view matrix of the camera for the direction
    /// `look`, as `look_to_rh` gives it: the eye at the position of the
    /// camera, the world's y axis for up.
    pub open spec fn has_view<L: Fn([S; 3], [S; 3], [S; 3]) -> Matrix<S>>(
        self,
        look: [S; 3],
        view: Matrix<S>,
        zero: S,
        one: S,
        look_to_rh: L,
    ) -> bool {
        exists|up: [S; 3]|
            up@ == seq![zero, one, zero] && #[trigger] call_ensures(
                look_to_rh,
                (self.position, look, up),
                view,
            )
    }

    pub fn new(position: [S; 3], yaw: S, pitch: S) -> (camera: Camera<S>)
        ensures
            camera.position == position,
            camera.yaw == yaw,
            camera.pitch == pitch,
    {
        Camera { position, yaw, pitch }
    }

    /// The directions of the camera.
    pub fn heading<C: Fn(S) -> (S, S), N: Fn([S; 3]) -> [S; 3]>(
        &self,
        zero: S,
        sin_cos: &C,
        normalize: &N,
    ) -> (heading: Heading<S>)
        requires
            arithmetic::<S>(),
            forall|angle: S| call_requires(*sin_cos, (angle,)),
            forall|v: [S; 3]| call_requires(*normalize, (v,)),
        ensures
            self.has_heading(heading, zero, *sin_cos, *normalize),
    {
        let (yaw_sin, yaw_cos) = sin_cos(self.yaw);
        let (pitch_sin, pitch_cos) = sin_cos(self.pitch);
        let forward = [yaw_cos, zero, yaw_sin];
        let right = [yaw_sin.neg(), zero, yaw_cos];
        let look = [pitch_cos.mul(yaw_cos), pitch_sin, pitch_cos.mul(yaw_sin)];
        proof {
            assert(forward@ =~= seq![yaw_cos, zero, yaw_sin]);
            assert(right@ =~= seq![yaw_sin.neg_spec(), zero, yaw_cos]);
            assert(look@ =~= seq![
                pitch_cos.mul_spec(yaw_cos),
                pitch_sin,
                pitch_cos.mul_spec(yaw_sin),
            ]);
        }
        let heading = Heading {
            forward: normalize(forward),
            right: normalize(right),
            look: normalize(look),
        };
        proof {
            assert(self.heading_from(
                heading,
                zero,
                *sin_cos,
                *normalize,
                (yaw_sin, yaw_cos),
                (pitch_sin, pitch_cos),
                forward,
                right,
                look,
            ));
        }
        heading
    }

    /// The view matrix of the camera for the direction `look` in which it
    /// looks.
    pub fn calc_matrix<L: Fn([S; 3], [S; 3], [S; 3]) -> Matrix<S>>(
        &self,
        look: [S; 3],
        zero: S,
        one: S,
        look_to_rh: &L,
    ) -> (view: Matrix<S>)
        requires
            forall|eye: [S; 3], direction: [S; 3], up: [S; 3]|
                call_requires(*look_to_rh, (eye, direction, up)),
        ensures
            self.has_view(look, view, zero, one, *look_to_rh),
    {
        let up = [zero, one, zero];
        assert(up@ =~= seq![zero, one, zero]);
        look_to_rh(self.position, look, up)
    }
}

/// The perspective projection: the size of the viewport, whose ratio is the
/// aspect ratio, the vertical field of view in radians and the two clipping
/// planes.
#[derive(Clone, Copy, Debug)]
pub struct Projection<S> {
    pub width: u32,
    pub height: u32,
    pub fovy: S,
    pub znear: S,
    pub zfar: S,
}

impl<S: Scalar> Projection<S> {
    /// The projection after a resize to `width` by `height`: only the aspect
    /// ratio changes.
    pub open spec fn resized(self, width: u32, height: u32) -> Projection<S> {
        Projection { width, height, ..self }
    }

    /// Whether `perspective` accepts what the projection hands to it: the
    /// field of view, the two planes, and the aspect ratio `width / height`
    /// for whatever scalars `to_scalar` makes of the size of the viewport.
    ///
    /// A viewport without width has an aspect ratio of zero, and one without
    /// height has none at all; a perspective projection of either does not
    /// exist.
    pub open spec fn accepted_by<T, P>(self, to_scalar: T, perspective: P) -> bool where
        T: Fn(i64) -> S,
        P: Fn(S, S, S, S) -> Matrix<S>,
     {
        forall|width: S, height: S|
            call_ensures(to_scalar, (self.width as i64,), width) && call_ensures(
                to_scalar,
                (self.height as i64,),
                height,
            ) ==> call_requires(
                perspective,
                (self.fovy, #[trigger] width.div_spec(height), self.znear, self.zfar),
            )
    }

    /// Whether `matrix` is the projection matrix for the scalars `width` and
    /// `height` of the size of the viewport: `projection` is the perspective
    /// projection for the field of view, the aspect ratio `width / height`
    /// and the two planes, and `matrix` is `remap * projection`.
    pub open spec fn matrix_from<T, P, M>(
        self,
        matrix: Matrix<S>,
        remap: Matrix<S>,
        to_scalar: T,
        perspective: P,
        multiply: M,
        width: S,
        height: S,
        projection: Matrix<S>,
    ) -> bool where
        T: Fn(i64) -> S,
        P: Fn(S, S, S, S) -> Matrix<S>,
        M: Fn(Matrix<S>, Matrix<S>) -> Matrix<S>,
     {
        &&& call_ensures(to_scalar, (self.width as i64,), width)
        &&& call_ensures(to_scalar, (self.height as i64,), height)
        &&& call_ensures(
            perspective,
            (self.fovy, width.div_spec(height), self.znear, self.zfar),
            projection,
        )
        &&& call_ensures(multiply, (remap, projection), matrix)
    }

    /// Whether `matrix` is the projection matrix, as `to_scalar`,
    /// `perspective` and `multiply` give it: the perspective projection
    /// with `remap` applied after it.
    pub open spec fn has_matrix<T, P, M>(
        self,
        matrix: Matrix<S>,
        remap: Matrix<S>,
        to_scalar: T,
        perspective: P,
        multiply: M,
    ) -> bool where
        T: Fn(i64) -> S,
        P: Fn(S, S, S, S) -> Matrix<S>,
        M: Fn(Matrix<S>, Matrix<S>) -> Matrix<S>,
     {
        exists|width: S, height: S, projection: Matrix<S>|
            #[trigger] self.matrix_from(
                matrix,
                remap,
                to_scalar,
                perspective,
                multiply,
                width,
                height,
                projection,
            )
    }

    pub fn new(width: u32, height: u32, fovy: S, znear: S, zfar: S) -> (projection: Projection<S>)
        ensures
            projection == (Projection { width, height, fovy, znear, zfar }),
    {
        Projection { width, height, fovy, znear, zfar }
    }

    /// Takes the aspect ratio of a viewport of `width` by `height`.
    pub fn resize(&mut self, width: u32, height: u32)
        ensures
            *final(self) == old(self).resized(width, height),
    {
        self.width = width;
        self.height = height;
    }

    /// The projection matrix, with depth remapped by `remap`.
    pub fn calc_matrix<T, P, M>(
        &self,
        remap: Matrix<S>,
        to_scalar: &T,
        perspective: &P,
        multiply: &M,
    ) -> (matrix: Matrix<S>) where
        T: Fn(i64) -> S,
        P: Fn(S, S, S, S) -> Matrix<S>,
        M: Fn(Matrix<S>, Matrix<S>) -> Matrix<S>,

        requires
            arithmetic::<S>(),
            forall|n: i64| call_requires(*to_scalar, (n,)),
            self.accepted_by(*to_scalar, *perspective),
            forall|a: Matrix<S>, b: Matrix<S>| call_requires(*multiply, (a, b)),
        ensures
            self.has_matrix(matrix, remap, *to_scalar, *perspective, *multiply),
    {
        let width = to_scalar(self.width as i64);
        let height = to_scalar(self.height as i64);
        let aspect = width.div(height);
        let projection = perspective(self.fovy, aspect, self.znear, self.zfar);
        let matrix = multiply(remap, projection);
        proof {
            assert(self.matrix_from(
                matrix,
                remap,
                *to_scalar,
                *perspective,
                *multiply,
                width,
                height,
                projection,
            ));
        }
        matrix
    }
}

/// The camera as the shaders read it: the eye as a homogeneous point and the
/// product of projection and view.
#[derive(Clone, Copy, Debug)]
pub struct CameraUniform<S> {
    pub view_position: [S; 4],
    pub view_projection: [[S; 4]; 4],
}

impl<S: Scalar> CameraUniform<S> {
    /// Whether the uniform mirrors `camera`: the eye is the position of the
    /// camera with `one` appended, and the matrix is what `multiply` makes
    /// of `projection` and `view`, the projection on the left. The order is
    /// part of the contract: the view is applied first.
    pub open spec fn mirrors<M: Fn(Matrix<S>, Matrix<S>) -> Matrix<S>>(
        self,
        camera: Camera<S>,
        projection: Matrix<S>,
        view: Matrix<S>,
        one: S,
        multiply: M,
    ) -> bool {
        &&& self.view_position@ == seq![
            camera.position@[0],
            camera.position@[1],
            camera.position@[2],
            one,
        ]
        &&& call_ensures(multiply, (projection, view), self.view_projection)
    }

    /// The uniform before any camera has been written to it: the eye at
    /// zero, the matrix the identity.
    pub fn new(zero: S, one: S) -> (uniform: CameraUniform<S>)
        ensures
            uniform.view_position@ == seq![zero, zero, zero, zero],
            columns(uniform.view_projection) == identity_columns(zero, one),
    {
        let view_position = [zero, zero, zero, zero];
        assert(view_position@ =~= seq![zero, zero, zero, zero]);
        CameraUniform { view_position, view_projection: identity(zero, one) }
    }

    /// Takes the eye of `camera` and the product of `projection` and `view`,
    /// in this order.
    pub fn update_view_projection<M: Fn(Matrix<S>, Matrix<S>) -> Matrix<S>>(
        &mut self,
        camera: &Camera<S>,
        projection: Matrix<S>,
        view: Matrix<S>,
        one: S,
        multiply: &M,
    )
        requires
            forall|a: Matrix<S>, b: Matrix<S>| call_requires(*multiply, (a, b)),
        ensures
            final(self).mirrors(*camera, projection, view, one, *multiply),
    {
        self.view_position = to_homogeneous(camera.position, one);
        self.view_projection = multiply(projection, view);
    }
}

} // verus!
