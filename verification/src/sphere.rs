//! The sole primitive: a sphere, intersected in closed form.
//!
//! The quadratic `a t^2 - 2 h t + c = 0` (with `a` the squared direction
//! length, `h` the direction/center-offset dot product and `c` the offset's
//! squared length minus the squared radius) gives the candidate hit
//! parameters; the near root is preferred and the far root taken when the
//! near one falls outside the open query interval.

use vstd::prelude::*;
use crate::fixed::{
    fx_add, fx_add_spec, fx_div, fx_div_spec, fx_mul, fx_mul_spec, fx_sqrt, fx_sqrt_spec,
    fx_sub, fx_sub_spec, is_sqrt, lemma_fx_sqrt_spec_value, lemma_sqrt_floor_is_sqrt,
    lemma_sqrt_unique, lemma_tdiv_mag_le, lemma_tdiv_scale_exact, sqrt_floor, tdiv, FX_ONE,
};
use crate::hittable::{hit_record_new_spec, HitRecord};
use crate::interval::Interval;
use crate::material::Material;
use crate::ray::{ray_at_spec, Ray};
use crate::vec3::{
    div_scalar_spec, dot_spec, length_squared_spec, sub_spec, Point3, Vec3,
};

verus! {

#[derive(Clone, Copy, PartialEq, Eq, Structural, Debug)]
pub struct Sphere {
    pub center: Point3,
    pub radius: i64,
    pub mat: Material,
}

/// Build a sphere; a negative radius is rejected.
pub fn sphere(center: Point3, radius: i64, mat: Material) -> (r: Option<Sphere>)
    ensures
        r is Some <==> 0 <= radius,
        r is Some ==> r.unwrap() == (Sphere { center, radius, mat }),
{
    if radius >= 0 {
        Some(Sphere { center, radius, mat })
    } else {
        None
    }
}

/// The discriminant (scaled) of the ray/sphere quadratic.
pub open spec fn sphere_discriminant_spec(s: Sphere, r: Ray) -> i64 {
    let oc = sub_spec(s.center, r.origin);
    let a = length_squared_spec(r.direction);
    let h = dot_spec(r.direction, oc);
    let c = fx_sub_spec(length_squared_spec(oc), fx_mul_spec(s.radius, s.radius));
    fx_sub_spec(fx_mul_spec(h, h), fx_mul_spec(a, c))
}

/// The full intersection result: the nearest root inside the open interval,
/// or the far root, or nothing. Degenerate inputs (a zero-length direction
/// or a zero radius) report no hit instead of dividing by zero.
pub open spec fn sphere_hit_spec(s: Sphere, r: Ray, ray_t: Interval) -> Option<HitRecord> {
    let oc = sub_spec(s.center, r.origin);
    let a = length_squared_spec(r.direction);
    let h = dot_spec(r.direction, oc);
    let disc = sphere_discriminant_spec(s, r);
    if a == 0 || s.radius == 0 || disc < 0 {
        None
    } else {
        let sqrtd = fx_sqrt_spec(disc);
        let root1 = fx_div_spec(fx_sub_spec(h, sqrtd), a);
        let root2 = fx_div_spec(fx_add_spec(h, sqrtd), a);
        if ray_t.surrounds_spec(root1) {
            Some(sphere_record_spec(s, r, root1))
        } else if ray_t.surrounds_spec(root2) {
            Some(sphere_record_spec(s, r, root2))
        } else {
            None
        }
    }
}

/// The record an accepted root produces: the hit point, and the outward
/// normal `(p - center) / radius` flipped onto the ray's side.
pub open spec fn sphere_record_spec(s: Sphere, r: Ray, t: i64) -> HitRecord {
    let p = ray_at_spec(r, t);
    let outward = div_scalar_spec(sub_spec(p, s.center), s.radius);
    hit_record_new_spec(p, outward, t, r, s.mat)
}

impl Sphere {
    /// Intersect a ray with the sphere inside the open parameter interval.
    pub fn hit(&self, r: &Ray, ray_t: Interval) -> (res: Option<HitRecord>)
        ensures
            res == sphere_hit_spec(*self, *r, ray_t),
            res is Some ==> ray_t.surrounds_spec(res.unwrap().t),
            sphere_discriminant_spec(*self, *r) < 0 ==> res is None,
    {
        let oc: Vec3 = self.center.sub(&r.origin);
        let a: i64 = r.direction.length_squared();
        let h: i64 = r.direction.dot(&oc);
        let c: i64 = fx_sub(oc.length_squared(), fx_mul(self.radius, self.radius));
        let disc: i64 = fx_sub(fx_mul(h, h), fx_mul(a, c));

        if a == 0 || self.radius == 0 || disc < 0 {
            return None;
        }

        let sqrtd: i64 = fx_sqrt(disc);
        let root1: i64 = fx_div(fx_sub(h, sqrtd), a);
        let root2: i64 = fx_div(fx_add(h, sqrtd), a);
        let root: i64 = if ray_t.surrounds(root1) {
            root1
        } else if ray_t.surrounds(root2) {
            root2
        } else {
            return None;
        };

        let p: Point3 = r.at(root);
        let outward: Vec3 = p.sub(&self.center).div_scalar(self.radius);
        Some(HitRecord::new(p, outward, root, r, self.mat))
    }
}

/// Narrowing the query interval's upper bound keeps exactly the hits below
/// the new bound and changes nothing else: the pruning the scene aggregate
/// performs is sound.
pub proof fn lemma_sphere_hit_narrow(s: Sphere, r: Ray, ray_t: Interval, b: i64)
    requires
        b <= ray_t.max,
    ensures
        sphere_hit_spec(s, r, Interval { min: ray_t.min, max: b }) == (match sphere_hit_spec(
            s,
            r,
            ray_t,
        ) {
            Some(rec) => if rec.t < b {
                Some(rec)
            } else {
                None::<HitRecord>
            },
            None => None::<HitRecord>,
        }),
{
    let oc = sub_spec(s.center, r.origin);
    let a = length_squared_spec(r.direction);
    let h = dot_spec(r.direction, oc);
    let disc = sphere_discriminant_spec(s, r);
    if !(a == 0 || s.radius == 0 || disc < 0) {
        crate::vec3::lemma_length_squared_nonneg(r.direction);
        lemma_fx_sqrt_spec_value(disc);
        let sqrtd = fx_sqrt_spec(disc);
        let lo = fx_sub_spec(h, sqrtd);
        let hi = fx_add_spec(h, sqrtd);
        assert(lo <= hi);
        crate::fixed::lemma_tdiv_monotone(lo * FX_ONE, hi * FX_ONE, a as int);
        assert(fx_div_spec(lo, a) <= fx_div_spec(hi, a));
    }
}

/// A ray whose exact discriminant is negative misses the sphere entirely:
/// every point of the ray is strictly outside it. In the quadratic's terms,
/// `h * h < a * c` with `a > 0` forces `a t^2 - 2 h t + c > 0` for every
/// parameter `t`.
#[verifier::rlimit(100)]
pub proof fn lemma_negative_discriminant_misses(a: int, h: int, c: int, t: int)
    requires
        0 < a,
        h * h - a * c < 0,
    ensures
        a * t * t - 2 * h * t + c > 0,
{
    assert(4 * a * (a * t * t - 2 * h * t + c) == (2 * a * t - 2 * h) * (2 * a * t - 2 * h) + 4
        * (a * c - h * h)) by (nonlinear_arith);
    assert((2 * a * t - 2 * h) * (2 * a * t - 2 * h) >= 0) by (nonlinear_arith);
    assert(a * t * t - 2 * h * t + c > 0) by (nonlinear_arith)
        requires 0 < a && 4 * a * (a * t * t - 2 * h * t + c) > 0;
}

/// The fixed-point products of the axial configuration, stated over bare
/// scalars so each fact has a small proof of its own.
proof fn lemma_axial_products(dist: i64)
    requires
        0 < dist <= 0x8000_0000,
    ensures
        fx_mul_spec((-dist) as i64, (-dist) as i64) == tdiv(dist * dist, FX_ONE as int),
        fx_mul_spec((-FX_ONE) as i64, (-dist) as i64) == dist,
        fx_mul_spec((-FX_ONE) as i64, (-FX_ONE) as i64) == FX_ONE,
        0 <= tdiv(dist * dist, FX_ONE as int) <= 0x4000_0000_0000_0000int,
{
    assert(((-dist) as i64) as int * (((-dist) as i64) as int) == dist * dist
        && ((-FX_ONE) as i64) as int * (((-dist) as i64) as int) == dist * FX_ONE
        && ((-FX_ONE) as i64) as int * (((-FX_ONE) as i64) as int) == FX_ONE * FX_ONE
        && 0 <= dist * dist <= 0x4000_0000_0000_0000int) by (nonlinear_arith)
        requires 0 < dist <= 0x8000_0000 && FX_ONE == 65536i64;
    lemma_tdiv_scale_exact(dist as int);
    lemma_tdiv_scale_exact(FX_ONE as int);
    lemma_tdiv_mag_le(dist * dist, FX_ONE as int);
    vstd::arithmetic::div_mod::lemma_div_pos_is_pos(dist * dist, FX_ONE as int);
}

/// A radius whose square is exactly representable: its fixed-point square
/// roots back to the radius itself.
proof fn lemma_exact_square_roots_back(radius: i64)
    requires
        0 < radius <= 0x8000_0000,
        (radius * radius) % (FX_ONE as int) == 0,
    ensures
        fx_mul_spec(radius, radius) == tdiv(radius * radius, FX_ONE as int),
        0 <= fx_mul_spec(radius, radius) <= 0x4000_0000_0000_0000int,
        fx_sqrt_spec(fx_mul_spec(radius, radius)) == radius,
{
    assert(0 <= radius * radius <= 0x4000_0000_0000_0000int) by (nonlinear_arith)
        requires 0 < radius <= 0x8000_0000;
    lemma_tdiv_mag_le(radius * radius, FX_ONE as int);
    vstd::arithmetic::div_mod::lemma_div_pos_is_pos(radius * radius, FX_ONE as int);
    let rr = fx_mul_spec(radius, radius);
    vstd::arithmetic::div_mod::lemma_fundamental_div_mod(radius * radius, FX_ONE as int);
    assert((rr as int) * (FX_ONE as int) == radius * radius);
    lemma_fx_sqrt_spec_value(rr);
    lemma_sqrt_floor_is_sqrt((radius * radius) as nat);
    assert(is_sqrt((radius * radius) as int, radius as int)) by (nonlinear_arith)
        requires 0 < radius;
    lemma_sqrt_unique(
        (radius * radius) as int,
        sqrt_floor((radius * radius) as nat) as int,
        radius as int,
    );
}

/// A ray fired down the axis toward a sphere it starts outside of hits it
/// at exactly the gap between them: for an origin at distance `dist` from
/// the center of a sphere of radius `radius` (with an exactly representable
/// squared radius, so the square root is exact), the accepted root is
/// `dist - radius`.
pub proof fn lemma_axial_near_hit_distance(dist: i64, radius: i64, mat: Material, ray_t: Interval)
    requires
        0 < radius < dist <= 0x8000_0000,
        (radius * radius) % (FX_ONE as int) == 0,
        ray_t.min < dist - radius < ray_t.max,
    ensures
        ({
            let r = Ray {
                origin: Vec3 { x: 0, y: 0, z: 0 },
                direction: Vec3 { x: 0, y: 0, z: (-FX_ONE) as i64 },
            };
            let s = Sphere { center: Vec3 { x: 0, y: 0, z: (-dist) as i64 }, radius, mat };
            &&& sphere_hit_spec(s, r, ray_t) is Some
            &&& sphere_hit_spec(s, r, ray_t).unwrap().t == dist - radius
        }),
{
    let r = Ray {
        origin: Vec3 { x: 0, y: 0, z: 0 },
        direction: Vec3 { x: 0, y: 0, z: (-FX_ONE) as i64 },
    };
    let s = Sphere { center: Vec3 { x: 0, y: 0, z: (-dist) as i64 }, radius, mat };
    lemma_axial_products(dist);
    lemma_exact_square_roots_back(radius);
    let dd = tdiv(dist * dist, FX_ONE as int);
    let rr = fx_mul_spec(radius, radius);
    assert(sub_spec(s.center, r.origin) == Vec3 { x: 0i64, y: 0i64, z: (-dist) as i64 });
    assert(length_squared_spec(r.direction) == FX_ONE);
    assert(dot_spec(r.direction, sub_spec(s.center, r.origin)) == dist);
    assert(length_squared_spec(sub_spec(s.center, r.origin)) == dd);
    let c = fx_sub_spec(dd as i64, rr);
    assert(c == dd - rr);
    assert(fx_mul_spec(FX_ONE, c) == c) by {
        lemma_tdiv_scale_exact(c as int);
        assert(FX_ONE as int * (c as int) == c as int * (FX_ONE as int));
    }
    assert(sphere_discriminant_spec(s, r) == rr);
    assert(fx_sqrt_spec(rr) == radius);
    assert(fx_div_spec((dist - radius) as i64, FX_ONE) == dist - radius) by {
        lemma_tdiv_scale_exact(dist - radius);
    }
    assert(ray_t.surrounds_spec((dist - radius) as i64));
    assert(sphere_hit_spec(s, r, ray_t) == Some(
        sphere_record_spec(s, r, (dist - radius) as i64),
    ));
}

} // verus!
