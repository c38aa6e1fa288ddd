//! 3D vectors over fixed-point scalars: the algebra the tracer is built on.
//!
//! Every executable operation is pinned to a spec-level mirror over the
//! saturating fixed-point model of `crate::fixed`, so contracts further up
//! (intersection, scattering, integration) can speak of exact values.

use vstd::prelude::*;
use crate::fixed::{
    fx_add, fx_add_spec, fx_div, fx_div_spec, fx_mul, fx_mul_spec, fx_neg, fx_neg_spec,
    fx_sqrt, fx_sqrt_spec, fx_sub, fx_sub_spec, FX_ONE,
};

verus! {

#[derive(Clone, Copy, PartialEq, Eq, Structural, Debug)]
pub struct Vec3 {
    pub x: i64,
    pub y: i64,
    pub z: i64,
}

/// Points are vectors from the origin.
pub type Point3 = Vec3;

pub open spec fn vec3_spec(x: i64, y: i64, z: i64) -> Vec3 {
    Vec3 { x, y, z }
}

pub open spec fn add_spec(a: Vec3, b: Vec3) -> Vec3 {
    Vec3 { x: fx_add_spec(a.x, b.x), y: fx_add_spec(a.y, b.y), z: fx_add_spec(a.z, b.z) }
}

pub open spec fn sub_spec(a: Vec3, b: Vec3) -> Vec3 {
    Vec3 { x: fx_sub_spec(a.x, b.x), y: fx_sub_spec(a.y, b.y), z: fx_sub_spec(a.z, b.z) }
}

pub open spec fn neg_spec(a: Vec3) -> Vec3 {
    Vec3 { x: fx_neg_spec(a.x), y: fx_neg_spec(a.y), z: fx_neg_spec(a.z) }
}

/// Scaling by a fixed-point scalar.
pub open spec fn scale_spec(t: i64, a: Vec3) -> Vec3 {
    Vec3 { x: fx_mul_spec(t, a.x), y: fx_mul_spec(t, a.y), z: fx_mul_spec(t, a.z) }
}

/// Component-wise product (color attenuation).
pub open spec fn mul_elem_spec(a: Vec3, b: Vec3) -> Vec3 {
    Vec3 { x: fx_mul_spec(a.x, b.x), y: fx_mul_spec(a.y, b.y), z: fx_mul_spec(a.z, b.z) }
}

/// Component-wise division by a nonzero scalar.
pub open spec fn div_scalar_spec(a: Vec3, t: i64) -> Vec3 {
    Vec3 { x: fx_div_spec(a.x, t), y: fx_div_spec(a.y, t), z: fx_div_spec(a.z, t) }
}

/// The dot product, accumulated left to right with saturation.
pub open spec fn dot_spec(a: Vec3, b: Vec3) -> i64 {
    fx_add_spec(
        fx_add_spec(fx_mul_spec(a.x, b.x), fx_mul_spec(a.y, b.y)),
        fx_mul_spec(a.z, b.z),
    )
}

pub open spec fn cross_spec(a: Vec3, b: Vec3) -> Vec3 {
    Vec3 {
        x: fx_sub_spec(fx_mul_spec(a.y, b.z), fx_mul_spec(a.z, b.y)),
        y: fx_sub_spec(fx_mul_spec(a.z, b.x), fx_mul_spec(a.x, b.z)),
        z: fx_sub_spec(fx_mul_spec(a.x, b.y), fx_mul_spec(a.y, b.x)),
    }
}

pub open spec fn length_squared_spec(a: Vec3) -> i64 {
    dot_spec(a, a)
}

pub open spec fn length_spec(a: Vec3) -> i64 {
    fx_sqrt_spec(length_squared_spec(a))
}

/// The unit vector with `a`'s direction, or nothing when `a` has zero
/// length (the degenerate case construction must not accept).
pub open spec fn unit_spec(a: Vec3) -> Option<Vec3> {
    if length_spec(a) == 0 {
        None
    } else {
        Some(div_scalar_spec(a, length_spec(a)))
    }
}

impl Vec3 {
    pub fn new(x: i64, y: i64, z: i64) -> (r: Vec3)
        ensures
            r == vec3_spec(x, y, z),
    {
        Vec3 { x, y, z }
    }

    pub fn zero() -> (r: Vec3)
        ensures
            r == vec3_spec(0, 0, 0),
    {
        Vec3 { x: 0, y: 0, z: 0 }
    }

    pub fn add(&self, o: &Vec3) -> (r: Vec3)
        ensures
            r == add_spec(*self, *o),
    {
        Vec3 { x: fx_add(self.x, o.x), y: fx_add(self.y, o.y), z: fx_add(self.z, o.z) }
    }

    pub fn sub(&self, o: &Vec3) -> (r: Vec3)
        ensures
            r == sub_spec(*self, *o),
    {
        Vec3 { x: fx_sub(self.x, o.x), y: fx_sub(self.y, o.y), z: fx_sub(self.z, o.z) }
    }

    pub fn neg(&self) -> (r: Vec3)
        ensures
            r == neg_spec(*self),
    {
        Vec3 { x: fx_neg(self.x), y: fx_neg(self.y), z: fx_neg(self.z) }
    }

    pub fn scale(&self, t: i64) -> (r: Vec3)
        ensures
            r == scale_spec(t, *self),
    {
        Vec3 { x: fx_mul(t, self.x), y: fx_mul(t, self.y), z: fx_mul(t, self.z) }
    }

    pub fn mul_elem(&self, o: &Vec3) -> (r: Vec3)
        ensures
            r == mul_elem_spec(*self, *o),
    {
        Vec3 { x: fx_mul(self.x, o.x), y: fx_mul(self.y, o.y), z: fx_mul(self.z, o.z) }
    }

    pub fn div_scalar(&self, t: i64) -> (r: Vec3)
        requires
            t != 0,
        ensures
            r == div_scalar_spec(*self, t),
    {
        Vec3 { x: fx_div(self.x, t), y: fx_div(self.y, t), z: fx_div(self.z, t) }
    }

    pub fn dot(&self, o: &Vec3) -> (r: i64)
        ensures
            r == dot_spec(*self, *o),
    {
        fx_add(fx_add(fx_mul(self.x, o.x), fx_mul(self.y, o.y)), fx_mul(self.z, o.z))
    }

    pub fn cross(&self, o: &Vec3) -> (r: Vec3)
        ensures
            r == cross_spec(*self, *o),
    {
        Vec3 {
            x: fx_sub(fx_mul(self.y, o.z), fx_mul(self.z, o.y)),
            y: fx_sub(fx_mul(self.z, o.x), fx_mul(self.x, o.z)),
            z: fx_sub(fx_mul(self.x, o.y), fx_mul(self.y, o.x)),
        }
    }

    pub fn length_squared(&self) -> (r: i64)
        ensures
            r == length_squared_spec(*self),
            0 <= r,
    {
        proof {
            lemma_length_squared_nonneg(*self);
        }
        self.dot(self)
    }

    pub fn length(&self) -> (r: i64)
        ensures
            r == length_spec(*self),
            0 <= r,
    {
        let ls: i64 = self.length_squared();
        fx_sqrt(ls)
    }

    /// Interpolate toward `o` by `t` (zero keeps `self`, one reaches `o` up
    /// to rounding).
    pub fn lerp(&self, o: &Vec3, t: i64) -> (r: Vec3)
        ensures
            r == lerp_spec(*self, *o, t),
    {
        self.add(&o.sub(self).scale(t))
    }

    /// Normalization; `None` exactly when the vector's length rounds to zero.
    pub fn unit(&self) -> (r: Option<Vec3>)
        ensures
            r == unit_spec(*self),
    {
        let len: i64 = self.length();
        if len == 0 {
            None
        } else {
            Some(self.div_scalar(len))
        }
    }
}

/// Linear interpolation `a + t * (b - a)`, component-wise.
pub open spec fn lerp_spec(a: Vec3, b: Vec3, t: i64) -> Vec3 {
    add_spec(a, scale_spec(t, sub_spec(b, a)))
}

/// A vector's squared length is never negative in the saturating model.
pub proof fn lemma_length_squared_nonneg(a: Vec3)
    ensures
        0 <= length_squared_spec(a),
{
    lemma_fx_mul_square_nonneg(a.x);
    lemma_fx_mul_square_nonneg(a.y);
    lemma_fx_mul_square_nonneg(a.z);
}

/// A saturated fixed-point square is never negative.
pub proof fn lemma_fx_mul_square_nonneg(a: i64)
    ensures
        0 <= fx_mul_spec(a, a),
{
    assert(0 <= a * a) by (nonlinear_arith);
}

} // verus!
