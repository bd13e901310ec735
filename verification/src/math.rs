//! The functions that the crate asks of its caller.
//!
//! Angles, lengths and projections are the business of a mathematics
//! library. The crate calls such a library through the functions gathered
//! here and is proved for whatever they return: its contracts say what is
//! handed to each of them and what is done with the result.

use vstd::prelude::*;

verus! {

/// A matrix of four columns of four scalars.
pub type Matrix<S> = [[S; 4]; 4];

/// The functions of a mathematics library that the scene needs.
pub struct Math<SinCos, Normalize, LookTo, Perspective, Ortho, Multiply, ToScalar> {
    /// Sine and cosine of an angle in radians, in this order.
    pub sin_cos: SinCos,
    /// A vector scaled to unit length.
    pub normalize: Normalize,
    /// The right-handed view matrix of an eye at a position that looks in a
    /// direction, with a direction for up: `look_to_rh(eye, direction, up)`.
    pub look_to_rh: LookTo,
    /// The perspective projection:
    /// `perspective(fovy, aspect, znear, zfar)`. It need not accept every
    /// argument: a field of view that is no angle of a frustum, an aspect
    /// ratio of zero or planes that are not in front of the eye may be
    /// refused.
    pub perspective: Perspective,
    /// The orthographic projection:
    /// `ortho(left, right, bottom, top, near, far)`.
    pub ortho: Ortho,
    /// The product of two matrices: `multiply(a, b)` is `a * b`.
    pub multiply: Multiply,
    /// A whole number as a scalar.
    pub to_scalar: ToScalar,
}

impl<S, SinCos, Normalize, LookTo, Perspective, Ortho, Multiply, ToScalar> Math<
    SinCos,
    Normalize,
    LookTo,
    Perspective,
    Ortho,
    Multiply,
    ToScalar,
> where
    SinCos: Fn(S) -> (S, S),
    Normalize: Fn([S; 3]) -> [S; 3],
    LookTo: Fn([S; 3], [S; 3], [S; 3]) -> [[S; 4]; 4],
    Perspective: Fn(S, S, S, S) -> [[S; 4]; 4],
    Ortho: Fn(S, S, S, S, S, S) -> [[S; 4]; 4],
    Multiply: Fn([[S; 4]; 4], [[S; 4]; 4]) -> [[S; 4]; 4],
    ToScalar: Fn(i64) -> S,
 {
    /// Every function but the perspective projection can be called on every
    /// argument.
    pub open spec fn total(self) -> bool {
        &&& forall|angle: S| call_requires(self.sin_cos, (angle,))
        &&& forall|v: [S; 3]| call_requires(self.normalize, (v,))
        &&& forall|eye: [S; 3], direction: [S; 3], up: [S; 3]|
            call_requires(self.look_to_rh, (eye, direction, up))
        &&& forall|left: S, right: S, bottom: S, top: S, near: S, far: S|
            call_requires(self.ortho, (left, right, bottom, top, near, far))
        &&& forall|a: [[S; 4]; 4], b: [[S; 4]; 4]| call_requires(self.multiply, (a, b))
        &&& forall|n: i64| call_requires(self.to_scalar, (n,))
    }
}

} // verus!
