//! Minimal geometric algebra primitives in three dimensions.
//!
//! The components of every entity are IEEE 754 binary64 numbers, carried as
//! their `u64` bit patterns so that the algebra itself can be verified. Each
//! operation's contract pins its result exactly, as a composition of the
//! named binary64 primitives of [`float_bits`].
//!
//! The library's primitives do not include an arccosine, so the angle
//! between two vectors is not computed by the library itself:
//! [`Vector::angle_cos`] delivers the cosine of the angle, and
//! [`Bivector::mag_given_angle`] completes the bivector magnitude once a
//! caller has turned that cosine into the angle.

use vstd::prelude::*;

pub mod float_bits;

use crate::float_bits::{add_bits, sub_bits, mul_bits, div_bits, sqrt_bits, sin_bits};
use crate::float_bits::{soft_add, soft_sub, soft_mul, soft_div, soft_sqrt, soft_sin};

verus! {

/// A 3-dimensional vector. Each component is the bit pattern of an IEEE 754
/// binary64 number.
#[derive(Clone, Copy, PartialEq, Eq, Structural, Debug)]
pub struct Vector {
    pub x: u64,
    pub y: u64,
    pub z: u64,
}

/// A single real value, the result of an inner product.
#[derive(Clone, Copy, PartialEq, Eq, Structural, Debug)]
pub struct Scalar {
    pub value: u64,
}

/// An oriented plane element: the ordered pair of its two spanning vectors.
/// The order matters and is never swapped by any operation.
#[derive(Clone, Copy, PartialEq, Eq, Structural, Debug)]
pub struct Bivector {
    pub x: Vector,
    pub y: Vector,
}

/// An oriented volume element: an ordered triple of vectors. No operation
/// produces or consumes one; it is a data shape only.
#[derive(Clone, Copy, PartialEq, Eq, Structural, Debug)]
pub struct Trivector {
    pub x: Vector,
    pub y: Vector,
    pub z: Vector,
}

/// The dot product `x1*x2 + y1*y2 + z1*z2`, summed left to right.
pub open spec fn inner_bits(a: Vector, b: Vector) -> u64 {
    add_bits(add_bits(mul_bits(a.x, b.x), mul_bits(a.y, b.y)), mul_bits(a.z, b.z))
}

/// The Euclidean norm `sqrt(x*x + y*y + z*z)`.
pub open spec fn norm_bits(v: Vector) -> u64 {
    sqrt_bits(inner_bits(v, v))
}

/// The right-handed cross product
/// `(y1*z2 - z1*y2, z1*x2 - x1*z2, x1*y2 - y1*x2)`.
pub open spec fn cross_bits(a: Vector, b: Vector) -> Vector {
    Vector {
        x: sub_bits(mul_bits(a.y, b.z), mul_bits(a.z, b.y)),
        y: sub_bits(mul_bits(a.z, b.x), mul_bits(a.x, b.z)),
        z: sub_bits(mul_bits(a.x, b.y), mul_bits(a.y, b.x)),
    }
}

/// The wedge of two vectors: the ordered pair itself, first `a`, then `b`.
/// No numeric work is done; the pairing only records orientation.
pub open spec fn wedge_of(a: Vector, b: Vector) -> Bivector {
    Bivector { x: a, y: b }
}

/// The cosine of the angle between `a` and `b`:
/// `innerp(a, b) / (mag(a) * mag(b))`. A quotient `0/0` (either vector of
/// norm zero) yields NaN, which propagates silently.
pub open spec fn cos_angle_bits(a: Vector, b: Vector) -> u64 {
    div_bits(inner_bits(a, b), mul_bits(norm_bits(a), norm_bits(b)))
}

/// The magnitude of a bivector, given the angle between its spanning
/// vectors: `mag(x) * mag(y) * sin(angle)`, multiplied left to right.
pub open spec fn plane_mag_bits(b: Bivector, angle: u64) -> u64 {
    mul_bits(mul_bits(norm_bits(b.x), norm_bits(b.y)), sin_bits(angle))
}

impl Vector {
    /// Builds a vector from the bit patterns of its three components.
    /// No validation: any bit patterns, NaN included, are accepted.
    pub fn new(x: u64, y: u64, z: u64) -> (r: Vector)
        ensures
            r == (Vector { x, y, z }),
    {
        Vector { x, y, z }
    }

    /// The Euclidean norm of the vector. Zero for the zero vector; NaN
    /// propagates from NaN components.
    pub fn mag(&self) -> (r: u64)
        ensures
            r == norm_bits(*self),
    {
        let s: Scalar = self.innerp(self);
        soft_sqrt(s.value)
    }

    /// The cosine of the angle between `self` and `other`. The angle itself
    /// is the arccosine of this value, in `[0, pi]` radians; taking it is a
    /// floating-point step left to the caller. When either vector has zero
    /// norm the quotient is `0/0` and the result is NaN, unguarded.
    pub fn angle_cos(&self, other: &Vector) -> (r: u64)
        ensures
            r == cos_angle_bits(*self, *other),
    {
        let n: Scalar = self.innerp(other);
        let d: u64 = soft_mul(self.mag(), other.mag());
        soft_div(n.value, d)
    }

    /// The standard dot product of `self` and `other`.
    pub fn innerp(&self, other: &Vector) -> (r: Scalar)
        ensures
            r.value == inner_bits(*self, *other),
    {
        let xx: u64 = soft_mul(self.x, other.x);
        let yy: u64 = soft_mul(self.y, other.y);
        let zz: u64 = soft_mul(self.z, other.z);
        Scalar { value: soft_add(soft_add(xx, yy), zz) }
    }

    /// The standard right-handed 3D cross product of `self` and `other`.
    pub fn outerp(&self, other: &Vector) -> (r: Vector)
        ensures
            r == cross_bits(*self, *other),
    {
        Vector {
            x: soft_sub(soft_mul(self.y, other.z), soft_mul(self.z, other.y)),
            y: soft_sub(soft_mul(self.z, other.x), soft_mul(self.x, other.z)),
            z: soft_sub(soft_mul(self.x, other.y), soft_mul(self.y, other.x)),
        }
    }

    /// The wedge product: a bivector holding `self` as its first component
    /// and `other` as its second, in that order, never swapped. Purely a
    /// structural pairing; no numeric computation takes place.
    pub fn wedgep(&self, other: &Vector) -> (r: Bivector)
        ensures
            r == wedge_of(*self, *other),
    {
        Bivector { x: *self, y: *other }
    }

    /// The geometric product, modeled as the pair of its grade-0 and grade-2
    /// parts: the scalar is exactly the inner product and the bivector is
    /// exactly the wedge of `self` and `other`, with no hidden cross-term.
    pub fn geop(&self, other: &Vector) -> (r: (Scalar, Bivector))
        ensures
            r.0.value == inner_bits(*self, *other),
            r.1 == wedge_of(*self, *other),
    {
        (self.innerp(other), Bivector { x: *self, y: *other })
    }
}

impl Bivector {
    /// Builds a bivector from copies of the two spanning vectors, first `x`,
    /// then `y`. No validation: parallel or zero vectors are accepted.
    pub fn from_vectors(x: &Vector, y: &Vector) -> (r: Bivector)
        ensures
            r == wedge_of(*x, *y),
    {
        Bivector { x: *x, y: *y }
    }

    /// The magnitude `mag(x) * mag(y) * sin(angle)`, given the angle between
    /// the two spanning vectors. The angle is the arccosine of
    /// [`Vector::angle_cos`] of the two vectors, a floating-point step left
    /// to the caller; NaN hands back NaN.
    pub fn mag_given_angle(&self, angle: u64) -> (r: u64)
        ensures
            r == plane_mag_bits(*self, angle),
    {
        let p: u64 = soft_mul(self.x.mag(), self.y.mag());
        soft_mul(p, soft_sin(angle))
    }
}

/// Law: the geometric product decomposes into the inner and the wedge
/// product. A pair returned by `geop` agrees exactly with the results of
/// independent `innerp` and `wedgep` calls on the same two vectors, for all
/// inputs; re-deriving the parts through `geop` is a faithful round trip.
pub proof fn lemma_geop_decomposes(
    a: Vector,
    b: Vector,
    g: (Scalar, Bivector),
    s: Scalar,
    w: Bivector,
)
    requires
        g.0.value == inner_bits(a, b),
        g.1 == wedge_of(a, b),
        s.value == inner_bits(a, b),
        w == wedge_of(a, b),
    ensures
        g.0.value == s.value,
        g.1 == w,
{
}

} // verus!
