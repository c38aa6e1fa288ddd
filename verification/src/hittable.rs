//! Intersection records: what a successful ray/geometry hit reports.
//!
//! The stored normal is flipped at construction so that it always opposes
//! the incoming ray; `front_face` remembers which side the ray came from.

use vstd::prelude::*;
use crate::fixed::{
    abs_int, fx_add_spec, fx_mul_spec, lemma_tdiv_mag_le, lemma_tdiv_neg, sat64, tdiv, FX_ONE,
};
use crate::material::Material;
use crate::ray::Ray;
use crate::vec3::{dot_spec, neg_spec, Point3, Vec3};

verus! {

#[derive(Clone, Copy, PartialEq, Eq, Structural, Debug)]
pub struct HitRecord {
    pub p: Point3,
    pub normal: Vec3,
    pub t: i64,
    pub front_face: bool,
    pub mat: Material,
}

/// Whether the ray meets the surface from the side its geometric outward
/// normal points to.
pub open spec fn front_face_spec(r: Ray, outward_n: Vec3) -> bool {
    dot_spec(r.direction, outward_n) < 0
}

/// The stored normal: the outward normal, flipped onto the ray's side.
pub open spec fn facing_normal_spec(r: Ray, outward_n: Vec3) -> Vec3 {
    if front_face_spec(r, outward_n) {
        outward_n
    } else {
        neg_spec(outward_n)
    }
}

/// The record a hit at parameter `t` and point `p` produces.
pub open spec fn hit_record_new_spec(
    p: Point3,
    outward_n: Vec3,
    t: i64,
    r: Ray,
    mat: Material,
) -> HitRecord {
    HitRecord {
        p,
        normal: facing_normal_spec(r, outward_n),
        t,
        front_face: front_face_spec(r, outward_n),
        mat,
    }
}

impl HitRecord {
    /// Build a record, deriving `front_face` and the stored normal from the
    /// ray and the geometric outward normal.
    pub fn new(p: Point3, outward_n: Vec3, t: i64, r: &Ray, mat: Material) -> (rec: HitRecord)
        ensures
            rec == hit_record_new_spec(p, outward_n, t, *r, mat),
            rec.front_face <==> dot_spec(r.direction, outward_n) < 0,
    {
        let front_face: bool = r.direction.dot(&outward_n) < 0;
        let normal: Vec3 = if front_face {
            outward_n
        } else {
            outward_n.neg()
        };
        HitRecord { p, normal, t, front_face, mat }
    }

    /// Recompute `front_face` and the stored normal against a ray; the other
    /// fields stay.
    pub fn set_face_normal(&mut self, r: &Ray, outward_n: &Vec3)
        ensures
            final(self).front_face == front_face_spec(*r, *outward_n),
            final(self).normal == facing_normal_spec(*r, *outward_n),
            final(self).p == old(self).p,
            final(self).t == old(self).t,
            final(self).mat == old(self).mat,
    {
        self.front_face = r.direction.dot(outward_n) < 0;
        self.normal = if self.front_face {
            *outward_n
        } else {
            outward_n.neg()
        };
    }
}

/// Components small enough that the dot products below stay exact: no
/// product reaches the saturation range.
pub open spec fn moderate_vec(v: Vec3) -> bool {
    &&& abs_int(v.x as int) <= 0x8000_0000
    &&& abs_int(v.y as int) <= 0x8000_0000
    &&& abs_int(v.z as int) <= 0x8000_0000
}

/// The stored normal always opposes the incoming ray: for moderately sized
/// vectors, its dot product with the ray direction is never positive.
pub proof fn lemma_stored_normal_opposes_ray(r: Ray, outward_n: Vec3)
    requires
        moderate_vec(r.direction),
        moderate_vec(outward_n),
    ensures
        dot_spec(r.direction, facing_normal_spec(r, outward_n)) <= 0,
{
    if !front_face_spec(r, outward_n) {
        lemma_dot_neg_flips(r.direction, outward_n);
    }
}

/// For moderately sized vectors the dot product with a negated vector is the
/// exact negation of the dot product.
pub proof fn lemma_dot_neg_flips(a: Vec3, b: Vec3)
    requires
        moderate_vec(a),
        moderate_vec(b),
    ensures
        dot_spec(a, neg_spec(b)) == -dot_spec(a, b),
{
    lemma_term_neg_flips(a.x, b.x);
    lemma_term_neg_flips(a.y, b.y);
    lemma_term_neg_flips(a.z, b.z);
    let tx = fx_mul_spec(a.x, b.x);
    let ty = fx_mul_spec(a.y, b.y);
    let tz = fx_mul_spec(a.z, b.z);
    let nx = fx_mul_spec(a.x, neg_spec(b).x);
    let ny = fx_mul_spec(a.y, neg_spec(b).y);
    let nz = fx_mul_spec(a.z, neg_spec(b).z);
    assert(nx == -(tx as int) && ny == -(ty as int) && nz == -(tz as int));
    assert(fx_add_spec(nx, ny) == -(fx_add_spec(tx, ty) as int));
    assert(fx_add_spec(fx_add_spec(nx, ny), nz) == -(fx_add_spec(fx_add_spec(tx, ty), tz) as int));
}

/// For moderately sized scalars a fixed-point product with a negated factor
/// is the exact negation of the product, and its magnitude is small.
proof fn lemma_term_neg_flips(a: i64, b: i64)
    requires
        abs_int(a as int) <= 0x8000_0000,
        abs_int(b as int) <= 0x8000_0000,
    ensures
        fx_mul_spec(a, sat64(-b)) == -(fx_mul_spec(a, b) as int),
        abs_int(fx_mul_spec(a, b) as int) <= 0x4000_0000_0000,
{
    assert(sat64(-b) as int == -(b as int));
    assert(a * (-b as i64) == -(a * b) && abs_int(a * b) <= 0x4000_0000_0000_0000int)
        by (nonlinear_arith)
        requires abs_int(a as int) <= 0x8000_0000 && abs_int(b as int) <= 0x8000_0000;
    lemma_tdiv_neg(a * b, FX_ONE as int);
    lemma_tdiv_mag_le(a * b, FX_ONE as int);
    lemma_tdiv_quarter(a * b);
}

/// A bound on a truncated quotient by `FX_ONE` from a bound on the dividend.
proof fn lemma_tdiv_quarter(p: int)
    requires
        abs_int(p) <= 0x4000_0000_0000_0000int,
    ensures
        abs_int(tdiv(p, FX_ONE as int)) <= 0x4000_0000_0000,
{
    let m = abs_int(p) / (FX_ONE as int);
    vstd::arithmetic::div_mod::lemma_multiply_divide_le(
        abs_int(p),
        FX_ONE as int,
        0x4000_0000_0000int,
    );
    assert(m <= 0x4000_0000_0000);
}

} // verus!
