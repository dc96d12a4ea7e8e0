//! Points and displacement vectors of the plane.

use crate::scalar::{difference, product, sum, Scalar};
use vstd::prelude::*;

verus! {

/// A vertex.
#[derive(Clone, Copy, Debug, PartialEq, Eq, Structural)]
pub struct Point {
    pub x: Scalar,
    pub y: Scalar,
}

/// A displacement.
#[derive(Clone, Copy, Debug, PartialEq, Eq, Structural)]
pub struct Vector {
    pub x: Scalar,
    pub y: Scalar,
}

impl Point {
    pub fn new(x: Scalar, y: Scalar) -> (p: Point)
        ensures
            p == (Point { x, y }),
    {
        Point { x, y }
    }

    /// The displacement `other - self`.
    pub open spec fn spec_to(self, other: Point) -> Vector {
        Vector { x: other.x.minus(self.x), y: other.y.minus(self.y) }
    }

    /// The displacement that leads from `self` to `other`.
    pub fn to(self, other: Point) -> (v: Vector)
        ensures
            v == self.spec_to(other),
    {
        Vector { x: difference(other.x, self.x), y: difference(other.y, self.y) }
    }

    /// The point `self + t * v`.
    pub open spec fn spec_along(self, v: Vector, t: Scalar) -> Point {
        Point { x: self.x.plus(t.times(v.x)), y: self.y.plus(t.times(v.y)) }
    }

    /// The point reached from `self` after the fraction `t` of `v`.
    pub fn along(self, v: Vector, t: Scalar) -> (p: Point)
        ensures
            p == self.spec_along(v, t),
    {
        Point { x: sum(self.x, product(t, v.x)), y: sum(self.y, product(t, v.y)) }
    }
}

impl Vector {
    pub fn new(x: Scalar, y: Scalar) -> (v: Vector)
        ensures
            v == (Vector { x, y }),
    {
        Vector { x, y }
    }

    /// `self.x * other.x + self.y * other.y`.
    pub open spec fn spec_dot(self, other: Vector) -> Scalar {
        self.x.times(other.x).plus(self.y.times(other.y))
    }

    /// Dot product.
    pub fn dot(self, other: Vector) -> (d: Scalar)
        ensures
            d == self.spec_dot(other),
    {
        sum(product(self.x, other.x), product(self.y, other.y))
    }

    /// `self.x * other.y - self.y * other.x`.
    pub open spec fn spec_cross(self, other: Vector) -> Scalar {
        self.x.times(other.y).minus(self.y.times(other.x))
    }

    /// Scalar cross product.
    pub fn cross(self, other: Vector) -> (c: Scalar)
        ensures
            c == self.spec_cross(other),
    {
        difference(product(self.x, other.y), product(self.y, other.x))
    }

    /// The vector `(-y, x)`: `self` turned a quarter to the left.
    pub open spec fn spec_normal(self) -> Vector {
        Vector { x: self.y.negated(), y: self.x }
    }

    /// The left normal, which points into the half-plane that an edge of
    /// direction `self` keeps.
    pub fn normal(self) -> (n: Vector)
        ensures
            n == self.spec_normal(),
    {
        Vector { x: self.y.neg(), y: self.x }
    }

    /// Whether both components are zeros, of either sign.
    pub open spec fn spec_is_zero(self) -> bool {
        self.x.zero_valued() && self.y.zero_valued()
    }

    /// Whether this is the zero vector.
    pub fn is_zero(self) -> (z: bool)
        ensures
            z == self.spec_is_zero(),
    {
        self.x.is_zero() && self.y.is_zero()
    }
}

} // verus!
