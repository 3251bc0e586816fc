//! The arithmetic unit: what the engine asks of the hardware.
//!
//! Rounding arithmetic and the base-noise kernels are not computed by this library. The
//! caller hands in a unit, a function from an [`Operation`] to its result, and every
//! contract of the engine is stated over [`result_of`], the answer that the unit gives.

use vstd::prelude::*;
use crate::scalar::Scalar;

verus! {

/// The base-noise kernels, one for each noise and rank that has one.
#[derive(Clone, Copy, Debug, PartialEq, Eq, Structural)]
pub enum Kernel {
    Simplex1d,
    Simplex2d,
    Simplex3d,
    Perlin2d,
    Perlin3d,
}

/// A point of the grid. Coordinates beyond the rank that is evaluated are zero.
#[derive(Clone, Copy, Debug, PartialEq, Eq, Structural)]
pub struct Point {
    pub x: Scalar,
    pub y: Scalar,
    pub z: Scalar,
}

/// The frequencies of a noise, one for each axis.
#[derive(Clone, Copy, Debug, PartialEq, Eq, Structural)]
pub struct Frequency {
    /// First dimension
    pub x: Scalar,
    /// Third dimension
    pub y: Scalar,
    /// Second dimension
    pub z: Scalar,
}

/// One request to the unit.
#[derive(Clone, Copy, Debug, PartialEq, Eq, Structural)]
pub enum Operation {
    /// The rounded sum of the two values.
    Add(Scalar, Scalar),
    /// The rounded difference, first minus second.
    Sub(Scalar, Scalar),
    /// The rounded product of the two values.
    Mul(Scalar, Scalar),
    /// The rounded quotient, first by second.
    Div(Scalar, Scalar),
    /// First times second plus third, rounded once.
    MulAdd(Scalar, Scalar, Scalar),
    /// The value nearest to the count.
    FromCount(usize),
    /// Base noise at a point: the kernel, the seed of the leaf, the value drawn from
    /// the seeded generator for this sample, the frequencies and the point.
    Sample { kernel: Kernel, seed: i32, hash: i32, frequency: Frequency, point: Point },
}

/// The answer of the unit to `op`.
pub open spec fn result_of<F: Fn(Operation) -> Scalar>(unit: &F, op: Operation) -> Scalar {
    choose|r: Scalar| unit.ensures((op,), r)
}

/// A unit that the engine can rely on: it accepts every operation, and the same
/// operation always has the same answer.
pub open spec fn dependable<F: Fn(Operation) -> Scalar>(unit: &F) -> bool {
    &&& forall|op: Operation| #[trigger] unit.requires((op,))
    &&& forall|op: Operation, r: Scalar| #[trigger]
        unit.ensures((op,), r) ==> r == result_of(unit, op)
}

/// Hands `op` to the unit.
pub fn perform<F: Fn(Operation) -> Scalar>(unit: &F, op: Operation) -> (r: Scalar)
    requires
        dependable(unit),
    ensures
        r == result_of(unit, op),
{
    unit(op)
}

/// The sum that the unit gives.
pub open spec fn sum_of<F: Fn(Operation) -> Scalar>(unit: &F, a: Scalar, b: Scalar) -> Scalar {
    result_of(unit, Operation::Add(a, b))
}

/// The difference that the unit gives.
pub open spec fn difference_of<F: Fn(Operation) -> Scalar>(
    unit: &F,
    a: Scalar,
    b: Scalar,
) -> Scalar {
    result_of(unit, Operation::Sub(a, b))
}

/// The product that the unit gives.
pub open spec fn product_of<F: Fn(Operation) -> Scalar>(
    unit: &F,
    a: Scalar,
    b: Scalar,
) -> Scalar {
    result_of(unit, Operation::Mul(a, b))
}

/// The quotient that the unit gives.
pub open spec fn quotient_of<F: Fn(Operation) -> Scalar>(
    unit: &F,
    a: Scalar,
    b: Scalar,
) -> Scalar {
    result_of(unit, Operation::Div(a, b))
}

/// The fused `a * b + c` that the unit gives.
pub open spec fn fused_of<F: Fn(Operation) -> Scalar>(
    unit: &F,
    a: Scalar,
    b: Scalar,
    c: Scalar,
) -> Scalar {
    result_of(unit, Operation::MulAdd(a, b, c))
}

/// The value that the unit gives for a count.
pub open spec fn count_of<F: Fn(Operation) -> Scalar>(unit: &F, n: usize) -> Scalar {
    result_of(unit, Operation::FromCount(n))
}

impl Frequency {
    pub fn new_1d(x: Scalar) -> (r: Self)
        ensures
            r == (Frequency { x, y: crate::scalar::ZERO(), z: crate::scalar::ZERO() }),
    {
        Self { x, y: Scalar::zero(), z: Scalar::zero() }
    }

    pub fn new_2d(x: Scalar, z: Scalar) -> (r: Self)
        ensures
            r == (Frequency { x, y: crate::scalar::ZERO(), z }),
    {
        Self { x, y: Scalar::zero(), z }
    }

    pub fn new_3d(x: Scalar, y: Scalar, z: Scalar) -> (r: Self)
        ensures
            r == (Frequency { x, y, z }),
    {
        Self { x, y, z }
    }
}

impl From<Scalar> for Frequency {
    /// The same frequency on every axis.
    fn from(value: Scalar) -> (r: Self) {
        Self { x: value, y: value, z: value }
    }
}

impl vstd::std_specs::convert::FromSpecImpl<Scalar> for Frequency {
    open spec fn obeys_from_spec() -> bool {
        true
    }

    open spec fn from_spec(value: Scalar) -> Self {
        Frequency { x: value, y: value, z: value }
    }
}

} // verus!
