//! Four-by-four matrices as the shaders read them: four columns of four
//! scalars each.
//!
//! The matrices that can be written down entry by entry are built here: the
//! identity, a translation, and the remapping of depth. Products of matrices
//! are left to the mathematics library (see [`crate::math`]).

use vstd::prelude::*;
use vstd::std_specs::ops::{AddSpec, DivSpec};

use crate::scalar::{arithmetic, Scalar};

verus! {

/// The columns of `m`, each as a sequence.
pub open spec fn columns<S>(m: [[S; 4]; 4]) -> Seq<Seq<S>> {
    Seq::new(4, |c: int| m@[c]@)
}

/// The identity: `one` on the diagonal, `zero` elsewhere.
pub open spec fn identity_columns<S>(zero: S, one: S) -> Seq<Seq<S>> {
    seq![
        seq![one, zero, zero, zero],
        seq![zero, one, zero, zero],
        seq![zero, zero, one, zero],
        seq![zero, zero, zero, one],
    ]
}

/// The translation by `(x, y, z)`: the identity with the offset in the last
/// column.
pub open spec fn translation_columns<S>(x: S, y: S, z: S, zero: S, one: S) -> Seq<Seq<S>> {
    seq![
        seq![one, zero, zero, zero],
        seq![zero, one, zero, zero],
        seq![zero, zero, one, zero],
        seq![x, y, z, one],
    ]
}

/// Whether `m` moves points and does nothing else: its first three columns
/// are those of the identity and its last entry is `one`.
pub open spec fn is_translation<S>(m: Seq<Seq<S>>, zero: S, one: S) -> bool {
    m == translation_columns(m[3][0], m[3][1], m[3][2], zero, one)
}

/// The identity matrix over the scalars `zero` and `one`.
pub fn identity<S: Copy>(zero: S, one: S) -> (m: [[S; 4]; 4])
    ensures
        columns(m) == identity_columns(zero, one),
{
    let m = [
        [one, zero, zero, zero],
        [zero, one, zero, zero],
        [zero, zero, one, zero],
        [zero, zero, zero, one],
    ];
    proof {
        assert(columns(m)[0] =~= seq![one, zero, zero, zero]);
        assert(columns(m)[1] =~= seq![zero, one, zero, zero]);
        assert(columns(m)[2] =~= seq![zero, zero, one, zero]);
        assert(columns(m)[3] =~= seq![zero, zero, zero, one]);
        assert(columns(m) =~= identity_columns(zero, one));
    }
    m
}

/// The matrix that translates by `v`.
pub fn from_translation<S: Copy>(v: [S; 3], zero: S, one: S) -> (m: [[S; 4]; 4])
    ensures
        columns(m) == translation_columns(v@[0], v@[1], v@[2], zero, one),
        is_translation(columns(m), zero, one),
{
    let m = [
        [one, zero, zero, zero],
        [zero, one, zero, zero],
        [zero, zero, one, zero],
        [v[0], v[1], v[2], one],
    ];
    proof {
        assert(columns(m)[0] =~= seq![one, zero, zero, zero]);
        assert(columns(m)[1] =~= seq![zero, one, zero, zero]);
        assert(columns(m)[2] =~= seq![zero, zero, one, zero]);
        assert(columns(m)[3] =~= seq![v@[0], v@[1], v@[2], one]);
        assert(columns(m) =~= translation_columns(v@[0], v@[1], v@[2], zero, one));
    }
    m
}

/// The point `p` with the homogeneous coordinate `one` appended.
pub fn to_homogeneous<S: Copy>(p: [S; 3], one: S) -> (h: [S; 4])
    ensures
        h@ == seq![p@[0], p@[1], p@[2], one],
{
    let h = [p[0], p[1], p[2], one];
    assert(h@ =~= seq![p@[0], p@[1], p@[2], one]);
    h
}

/// One half in `S`: `one / (one + one)`.
pub open spec fn half<S: Scalar>(one: S) -> S {
    one.div_spec(one.add_spec(one))
}

/// The matrix that takes clip depth from the range -1 to 1 into the range 0
/// to 1 and leaves everything else alone: `z' = z / 2 + w / 2`.
pub open spec fn depth_remap_columns<S: Scalar>(zero: S, one: S) -> Seq<Seq<S>> {
    seq![
        seq![one, zero, zero, zero],
        seq![zero, one, zero, zero],
        seq![zero, zero, half(one), zero],
        seq![zero, zero, half(one), one],
    ]
}

/// The depth-remap matrix.
pub fn depth_remap<S: Scalar>(zero: S, one: S) -> (m: [[S; 4]; 4])
    requires
        arithmetic::<S>(),
    ensures
        columns(m) == depth_remap_columns(zero, one),
{
    let half = one.div(one.add(one));
    let m = [
        [one, zero, zero, zero],
        [zero, one, zero, zero],
        [zero, zero, half, zero],
        [zero, zero, half, one],
    ];
    proof {
        assert(columns(m)[0] =~= seq![one, zero, zero, zero]);
        assert(columns(m)[1] =~= seq![zero, one, zero, zero]);
        assert(columns(m)[2] =~= seq![zero, zero, half, zero]);
        assert(columns(m)[3] =~= seq![zero, zero, half, one]);
        assert(columns(m) =~= depth_remap_columns(zero, one));
    }
    m
}

} // verus!
