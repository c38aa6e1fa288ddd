//! The scene aggregate: an ordered collection of primitives, intersected by
//! taking the closest member hit.
//!
//! The traversal narrows the query interval's upper bound to the best hit
//! parameter found so far; the contract states that what comes out is the
//! nearest member hit against the original interval.

use vstd::prelude::*;
use crate::hittable::HitRecord;
use crate::interval::Interval;
use crate::ray::Ray;
use crate::material::material_wf;
use crate::sphere::{lemma_sphere_hit_narrow, sphere_hit_spec, Sphere};

verus! {

pub struct HittableList {
    pub objects: Vec<Sphere>,
}

/// Every member's material is one a render can work with.
pub open spec fn scene_wf(objs: Seq<Sphere>) -> bool {
    forall|j: int| 0 <= j < objs.len() ==> material_wf(objs[j].mat)
}

/// The traversal state after the first `i` members, continued to the end:
/// `best` is the closest hit so far and bounds the interval for the rest.
pub open spec fn list_hit_from(
    objs: Seq<Sphere>,
    r: Ray,
    ray_t: Interval,
    i: nat,
    best: Option<HitRecord>,
) -> Option<HitRecord>
    decreases objs.len() - i,
{
    if i >= objs.len() {
        best
    } else {
        let closest = match best {
            Some(rec) => rec.t,
            None => ray_t.max,
        };
        match sphere_hit_spec(objs[i as int], r, Interval { min: ray_t.min, max: closest }) {
            Some(rec2) => list_hit_from(objs, r, ray_t, i + 1, Some(rec2)),
            None => list_hit_from(objs, r, ray_t, i + 1, best),
        }
    }
}

/// What the aggregate's intersection returns.
pub open spec fn list_hit_spec(objs: Seq<Sphere>, r: Ray, ray_t: Interval) -> Option<HitRecord> {
    list_hit_from(objs, r, ray_t, 0, None)
}

impl HittableList {
    /// A scene seeded with one primitive, or empty.
    pub fn hittable_list(obj: Option<Sphere>) -> (r: HittableList)
        ensures
            match obj {
                Some(o) => r.objects@ == seq![o],
                None => r.objects@ == Seq::<Sphere>::empty(),
            },
    {
        match obj {
            Some(o) => {
                let mut v: Vec<Sphere> = Vec::new();
                v.push(o);
                proof {
                    assert(v@ == seq![o]);
                }
                HittableList { objects: v }
            },
            None => HittableList { objects: Vec::new() },
        }
    }

    /// Empty the scene.
    pub fn clear(&mut self)
        ensures
            final(self).objects@ == Seq::<Sphere>::empty(),
    {
        self.objects.clear();
    }

    /// Append a primitive.
    pub fn add(&mut self, obj: Sphere)
        ensures
            final(self).objects@ == old(self).objects@.push(obj),
    {
        self.objects.push(obj);
    }

    /// Intersect a ray with every member and keep the nearest hit: the
    /// result is some member's own hit against the full query interval, and
    /// no member hits nearer; when no member hits, nothing is returned.
    pub fn hit(&self, r: &Ray, ray_t: Interval) -> (res: Option<HitRecord>)
        ensures
            res == list_hit_spec(self.objects@, *r, ray_t),
            res is None ==> forall|j: int|
                0 <= j < self.objects@.len() ==> sphere_hit_spec(self.objects@[j], *r, ray_t)
                    is None,
            res is Some ==> exists|j: int|
                0 <= j < self.objects@.len() && sphere_hit_spec(self.objects@[j], *r, ray_t)
                    == Some(res.unwrap()),
            res is Some ==> forall|j: int|
                0 <= j < self.objects@.len() && sphere_hit_spec(self.objects@[j], *r, ray_t)
                    is Some ==> res.unwrap().t <= sphere_hit_spec(
                    self.objects@[j],
                    *r,
                    ray_t,
                ).unwrap().t,
            res is Some ==> res.unwrap().t < ray_t.max,
    {
        let ghost objs = self.objects@;
        let mut best: Option<HitRecord> = None;
        let mut closest: i64 = ray_t.max;
        let mut i: usize = 0;
        while i < self.objects.len()
            invariant
                0 <= i <= objs.len(),
                self.objects@ == objs,
                closest == (match best {
                    Some(rec) => rec.t,
                    None => ray_t.max,
                }),
                closest <= ray_t.max,
                list_hit_spec(objs, *r, ray_t) == list_hit_from(objs, *r, ray_t, i as nat, best),
                best is None ==> forall|j: int|
                    0 <= j < i ==> sphere_hit_spec(objs[j], *r, ray_t) is None,
                best is Some ==> exists|j: int|
                    0 <= j < i && sphere_hit_spec(objs[j], *r, ray_t) == Some(best.unwrap()),
                best is Some ==> forall|j: int|
                    0 <= j < i && sphere_hit_spec(objs[j], *r, ray_t) is Some
                        ==> best.unwrap().t <= sphere_hit_spec(objs[j], *r, ray_t).unwrap().t,
                best is Some ==> best.unwrap().t < ray_t.max,
            decreases objs.len() - i,
        {
            let sub: Option<HitRecord> = self.objects[i].hit(
                r,
                Interval { min: ray_t.min, max: closest },
            );
            proof {
                lemma_sphere_hit_narrow(objs[i as int], *r, ray_t, closest);
            }
            match sub {
                Some(rec2) => {
                    best = Some(rec2);
                    closest = rec2.t;
                },
                None => {},
            }
            i = i + 1;
        }
        best
    }
}

} // verus!
