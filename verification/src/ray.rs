//! Rays: an origin and a direction normalized at construction.

use vstd::prelude::*;
use crate::vec3::{add_spec, scale_spec, unit_spec, Point3, Vec3};

verus! {

#[derive(Clone, Copy, PartialEq, Eq, Structural, Debug)]
pub struct Ray {
    pub origin: Point3,
    pub direction: Vec3,
}

/// The ray a constructor builds: the direction is normalized, and a
/// zero-length direction is rejected.
pub open spec fn ray_new_spec(origin: Point3, direction: Vec3) -> Option<Ray> {
    match unit_spec(direction) {
        Some(d) => Some(Ray { origin, direction: d }),
        None => None,
    }
}

/// The point `origin + t * direction`.
pub open spec fn ray_at_spec(r: Ray, t: i64) -> Point3 {
    add_spec(r.origin, scale_spec(t, r.direction))
}

impl Ray {
    /// Build a ray, normalizing `direction`; fails exactly on a direction
    /// whose length rounds to zero.
    pub fn new(origin: Point3, direction: Vec3) -> (r: Option<Ray>)
        ensures
            r == ray_new_spec(origin, direction),
            r is Some <==> unit_spec(direction) is Some,
    {
        match direction.unit() {
            Some(d) => Some(Ray { origin, direction: d }),
            None => None,
        }
    }

    /// The point the ray reaches at parameter `t`.
    pub fn at(&self, t: i64) -> (p: Point3)
        ensures
            p == ray_at_spec(*self, t),
    {
        self.origin.add(&self.direction.scale(t))
    }
}

} // verus!
