//! The numbers of the scene.
//!
//! The crate is written over any scalar type that has the four operations
//! and negation. Contracts name the result of an operation by the
//! specification that the type gives it, so they state which operations are
//! applied to which operands, in which order; what an operation yields is
//! for the type to say. Where rounding makes the order of operations matter,
//! the contracts keep it.

use std::cmp::Ordering;
use std::ops::{Add, Div, Mul, Neg, Sub};
use vstd::prelude::*;
use vstd::std_specs::cmp::PartialOrdSpec;
use vstd::std_specs::ops::{AddSpec, DivSpec, MulSpec, NegSpec, SubSpec};

verus! {

/// A type of numbers with the four operations and negation.
pub trait Scalar: Copy + Add<Output = Self> + Sub<Output = Self> + Mul<Output = Self> + Div<
    Output = Self,
> + Neg<Output = Self> {

}

impl<T> Scalar for T where
    T: Copy + Add<Output = T> + Sub<Output = T> + Mul<Output = T> + Div<Output = T> + Neg<
        Output = T,
    >,
 {

}

/// The arithmetic of `S` is total and is what its specification says: no
/// operation fails on any operand, and each yields the value that the
/// specification of the type names.
pub open spec fn arithmetic<S: Scalar>() -> bool {
    &&& S::obeys_add_spec()
    &&& S::obeys_sub_spec()
    &&& S::obeys_mul_spec()
    &&& S::obeys_div_spec()
    &&& S::obeys_neg_spec()
    &&& forall|a: S, b: S| #[trigger] a.add_req(b)
    &&& forall|a: S, b: S| #[trigger] a.sub_req(b)
    &&& forall|a: S, b: S| #[trigger] a.mul_req(b)
    &&& forall|a: S, b: S| #[trigger] a.div_req(b)
    &&& forall|a: S| #[trigger] a.neg_req()
}

/// The sum of two vectors, component by component.
pub open spec fn vector_sum<S: Scalar>(a: Seq<S>, b: Seq<S>) -> Seq<S> {
    Seq::new(a.len(), |i: int| a[i].add_spec(b[i]))
}

/// The difference of two vectors, component by component.
pub open spec fn vector_difference<S: Scalar>(a: Seq<S>, b: Seq<S>) -> Seq<S> {
    Seq::new(a.len(), |i: int| a[i].sub_spec(b[i]))
}

/// The vector `v` with every component multiplied by `factor`, the
/// component on the left.
pub open spec fn vector_scaled<S: Scalar>(v: Seq<S>, factor: S) -> Seq<S> {
    Seq::new(v.len(), |i: int| v[i].mul_spec(factor))
}

/// The sum of two vectors of three components.
pub fn add3<S: Scalar>(a: [S; 3], b: [S; 3]) -> (sum: [S; 3])
    requires
        arithmetic::<S>(),
    ensures
        sum@ == vector_sum(a@, b@),
{
    let sum = [a[0].add(b[0]), a[1].add(b[1]), a[2].add(b[2])];
    assert(sum@ =~= vector_sum(a@, b@));
    sum
}

/// The difference of two vectors of three components.
pub fn sub3<S: Scalar>(a: [S; 3], b: [S; 3]) -> (difference: [S; 3])
    requires
        arithmetic::<S>(),
    ensures
        difference@ == vector_difference(a@, b@),
{
    let difference = [a[0].sub(b[0]), a[1].sub(b[1]), a[2].sub(b[2])];
    assert(difference@ =~= vector_difference(a@, b@));
    difference
}

/// The difference of two vectors of two components.
pub fn sub2<S: Scalar>(a: [S; 2], b: [S; 2]) -> (difference: [S; 2])
    requires
        arithmetic::<S>(),
    ensures
        difference@ == vector_difference(a@, b@),
{
    let difference = [a[0].sub(b[0]), a[1].sub(b[1])];
    assert(difference@ =~= vector_difference(a@, b@));
    difference
}

/// A vector of three components with each multiplied by `factor`.
pub fn scale3<S: Scalar>(v: [S; 3], factor: S) -> (scaled: [S; 3])
    requires
        arithmetic::<S>(),
    ensures
        scaled@ == vector_scaled(v@, factor),
{
    let scaled = [v[0].mul(factor), v[1].mul(factor), v[2].mul(factor)];
    assert(scaled@ =~= vector_scaled(v@, factor));
    scaled
}

/// Whether `a` is below `b` in the order of `S`.
pub open spec fn less<S: PartialOrd>(a: S, b: S) -> bool {
    a.partial_cmp_spec(&b) == Some(Ordering::Less)
}

/// Whether `a` is above `b` in the order of `S`.
pub open spec fn greater<S: PartialOrd>(a: S, b: S) -> bool {
    a.partial_cmp_spec(&b) == Some(Ordering::Greater)
}

/// The comparisons of `S` are what its specification says.
pub open spec fn ordered<S: PartialOrd>() -> bool {
    S::obeys_partial_cmp_spec()
}

/// `x` held between `low` and `high`: `low` where `x` is below it, `high`
/// where `x` is above it, and `x` itself otherwise.
pub open spec fn clamped<S: PartialOrd>(x: S, low: S, high: S) -> S {
    if less(x, low) {
        low
    } else if greater(x, high) {
        high
    } else {
        x
    }
}

/// Holds `x` between `low` and `high`.
pub fn clamp<S: Copy + PartialOrd>(x: S, low: S, high: S) -> (held: S)
    requires
        ordered::<S>(),
    ensures
        held == clamped(x, low, high),
{
    if x.lt(&low) {
        low
    } else if x.gt(&high) {
        high
    } else {
        x
    }
}

/// What is held between two bounds never lies outside them: for bounds that
/// are in order, and of which neither lies below or above itself, the held
/// value is not below the lower and not above the upper one, whatever was
/// put in.
pub proof fn lemma_clamped_within<S: PartialOrd>(x: S, low: S, high: S)
    requires
        !less(low, low),
        !greater(high, high),
        !greater(low, high),
        !less(high, low),
    ensures
        !less(clamped(x, low, high), low),
        !greater(clamped(x, low, high), high),
{
}

} // verus!
