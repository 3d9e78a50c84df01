//! Numbers, vectors and transforms as the formulas that yield them.
//!
//! The core never computes with host numbers. It records which quantity is
//! combined with which, in which order, and hands the finished formula on
//! with the command that needs it. Whoever talks to the host evaluates the
//! formula in single precision, one rounding per node.

use vstd::prelude::*;

verus! {

/// A 4x4 matrix of single-precision numbers as the host supplies it, each
/// number kept by its 32-bit pattern, in the host's order of cells.
#[derive(Clone, Copy, Debug, PartialEq, Eq, Hash)]
pub struct Matrix {
    pub cells: [u32; 16],
}

/// A point or direction in 3-space as the host supplies it, each coordinate
/// kept by its 32-bit pattern.
#[derive(Clone, Copy, Debug, PartialEq, Eq, Structural, Hash)]
pub struct Point {
    pub x: u32,
    pub y: u32,
    pub z: u32,
}

/// A homogeneous column of small whole numbers, used to read an axis or the
/// origin out of a transform.
#[derive(Clone, Copy, Debug, PartialEq, Eq, Structural, Hash)]
pub struct Column {
    pub x: i8,
    pub y: i8,
    pub z: i8,
    pub w: i8,
}

/// One of the three coordinates of a vector.
#[derive(Clone, Copy, Debug, PartialEq, Eq, Structural, Hash)]
pub enum Axis {
    X,
    Y,
    Z,
}

/// A number.
#[derive(Debug, PartialEq, Eq)]
pub enum Scalar {
    /// A number the host supplied, by its 32-bit pattern.
    Bits(u32),
    /// A whole number, rounded to single precision when evaluated.
    Whole(u128),
    Sum(Box<Scalar>, Box<Scalar>),
    Product(Box<Scalar>, Box<Scalar>),
    Quotient(Box<Scalar>, Box<Scalar>),
    /// One coordinate of a vector.
    Component(Box<Vector>, Axis),
}

/// A vector in 3-space.
#[derive(Debug, PartialEq, Eq)]
pub enum Vector {
    /// A vector the host supplied.
    Host(Point),
    /// The vector with the three given coordinates.
    Triple(Box<Scalar>, Box<Scalar>, Box<Scalar>),
    /// The first three coordinates of a transform applied to a column.
    Projected(Box<Transform>, Column),
    Sum(Box<Vector>, Box<Vector>),
    /// A vector with every coordinate multiplied by the same number.
    Scaled(Box<Vector>, Box<Scalar>),
}

/// A 4x4 transform.
#[derive(Debug, PartialEq, Eq)]
pub enum Transform {
    Identity,
    /// The matrix of sixteen zeros.
    Zero,
    /// A matrix the host supplied.
    Host(Matrix),
    /// The cell-by-cell sum of two matrices.
    Sum(Box<Transform>, Box<Transform>),
    /// A matrix with every cell divided by the same number.
    Quotient(Box<Transform>, Box<Scalar>),
    /// The matrix product, left factor first.
    Product(Box<Transform>, Box<Transform>),
    Inverse(Box<Transform>),
    Translation(Box<Vector>),
    /// Uniform scaling by a factor.
    Scaling(Box<Scalar>),
    /// Rotation about the z axis by an angle in radians.
    Roll(Box<Scalar>),
    /// Rotation about the y axis by an angle in radians.
    Yaw(Box<Scalar>),
    /// Rotation about the x axis by an angle in radians.
    Pitch(Box<Scalar>),
}

impl Clone for Scalar {
    fn clone(&self) -> (copy: Self)
        ensures
            copy == *self,
        decreases *self,
    {
        match self {
            Scalar::Bits(bits) => Scalar::Bits(*bits),
            Scalar::Whole(n) => Scalar::Whole(*n),
            Scalar::Sum(a, b) => Scalar::Sum(Box::new((&**a).clone()), Box::new((&**b).clone())),
            Scalar::Product(a, b) => Scalar::Product(
                Box::new((&**a).clone()),
                Box::new((&**b).clone()),
            ),
            Scalar::Quotient(a, b) => Scalar::Quotient(
                Box::new((&**a).clone()),
                Box::new((&**b).clone()),
            ),
            Scalar::Component(v, axis) => Scalar::Component(Box::new((&**v).clone()), *axis),
        }
    }
}

impl Clone for Vector {
    fn clone(&self) -> (copy: Self)
        ensures
            copy == *self,
        decreases *self,
    {
        match self {
            Vector::Host(p) => Vector::Host(*p),
            Vector::Triple(x, y, z) => Vector::Triple(
                Box::new((&**x).clone()),
                Box::new((&**y).clone()),
                Box::new((&**z).clone()),
            ),
            Vector::Projected(t, column) => Vector::Projected(Box::new((&**t).clone()), *column),
            Vector::Sum(a, b) => Vector::Sum(Box::new((&**a).clone()), Box::new((&**b).clone())),
            Vector::Scaled(v, s) => Vector::Scaled(
                Box::new((&**v).clone()),
                Box::new((&**s).clone()),
            ),
        }
    }
}

impl Clone for Transform {
    fn clone(&self) -> (copy: Self)
        ensures
            copy == *self,
        decreases *self,
    {
        match self {
            Transform::Identity => Transform::Identity,
            Transform::Zero => Transform::Zero,
            Transform::Host(m) => Transform::Host(*m),
            Transform::Sum(a, b) => Transform::Sum(
                Box::new((&**a).clone()),
                Box::new((&**b).clone()),
            ),
            Transform::Quotient(t, s) => Transform::Quotient(
                Box::new((&**t).clone()),
                Box::new((&**s).clone()),
            ),
            Transform::Product(a, b) => Transform::Product(
                Box::new((&**a).clone()),
                Box::new((&**b).clone()),
            ),
            Transform::Inverse(t) => Transform::Inverse(Box::new((&**t).clone())),
            Transform::Translation(v) => Transform::Translation(Box::new((&**v).clone())),
            Transform::Scaling(s) => Transform::Scaling(Box::new((&**s).clone())),
            Transform::Roll(s) => Transform::Roll(Box::new((&**s).clone())),
            Transform::Yaw(s) => Transform::Yaw(Box::new((&**s).clone())),
            Transform::Pitch(s) => Transform::Pitch(Box::new((&**s).clone())),
        }
    }
}

} // verus!
