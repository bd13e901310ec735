//! The cameras of the scene and the controller that moves the first of them.

pub mod camera;
pub mod controller;
pub mod ortho_camera;

use vstd::prelude::*;
use vstd::std_specs::ops::{AddSpec, DivSpec, NegSpec};

use crate::math::Matrix;
use crate::matrix::columns;
use crate::scalar::{arithmetic, Scalar};

verus! {

/// The matrix that takes pixels of a viewport of `width` by `height`, with
/// the origin in the upper left corner and y pointing down, to clip space,
/// where x and y run from -1 to 1 and y points up: x is scaled by
/// `2 / width`, y by `-2 / height`, and the origin moves to `(-1, 1)`. Two
/// is `one + one`.
pub open spec fn ortho_columns<S: Scalar>(width: S, height: S, zero: S, one: S) -> Seq<Seq<S>> {
    let two = one.add_spec(one);
    seq![
        seq![two.div_spec(width), zero, zero, zero],
        seq![zero, two.neg_spec().div_spec(height), zero, zero],
        seq![zero, zero, one, zero],
        seq![one.neg_spec(), one, zero, one],
    ]
}

/// The matrix from the pixels of a viewport to clip space.
pub fn get_ortho_matrix<S: Scalar>(width: S, height: S, zero: S, one: S) -> (matrix: Matrix<S>)
    requires
        arithmetic::<S>(),
    ensures
        columns(matrix) == ortho_columns(width, height, zero, one),
{
    let two = one.add(one);
    let x_scale = two.div(width);
    let y_scale = two.neg().div(height);
    let matrix = [
        [x_scale, zero, zero, zero],
        [zero, y_scale, zero, zero],
        [zero, zero, one, zero],
        [one.neg(), one, zero, one],
    ];
    proof {
        assert(columns(matrix)[0] =~= seq![x_scale, zero, zero, zero]);
        assert(columns(matrix)[1] =~= seq![zero, y_scale, zero, zero]);
        assert(columns(matrix)[2] =~= seq![zero, zero, one, zero]);
        assert(columns(matrix)[3] =~= seq![one.neg_spec(), one, zero, one]);
        assert(columns(matrix) =~= ortho_columns(width, height, zero, one));
    }
    matrix
}

/// The orthographic projection of a viewport of `width` by `height` with y
/// pointing down, between the planes 1 and -1, as `ortho` gives it.
pub fn get_ortho_projection_matrix<S: Scalar, O>(
    width: S,
    height: S,
    zero: S,
    one: S,
    ortho: &O,
) -> (matrix: Matrix<S>) where O: Fn(S, S, S, S, S, S) -> Matrix<S>
    requires
        arithmetic::<S>(),
        forall|left: S, right: S, bottom: S, top: S, near: S, far: S|
            call_requires(*ortho, (left, right, bottom, top, near, far)),
    ensures
        call_ensures(*ortho, (zero, width, height, zero, one, one.neg_spec()), matrix),
{
    ortho(zero, width, height, zero, one, one.neg())
}

} // verus!
