//! Closed ranges of fixed-point scalars, used to bound accepted ray
//! parameters and to clamp color channels.
//!
//! The `i64` extremes play the role of the infinities: `empty()` is the
//! sentinel `[MAX, MIN]` that contains nothing, `universe()` the sentinel
//! `[MIN, MAX]` that contains every scalar.

use vstd::prelude::*;
use crate::fixed::{fx_sub, fx_sub_spec};

verus! {

#[derive(Clone, Copy, PartialEq, Eq, Structural, Debug)]
pub struct Interval {
    pub min: i64,
    pub max: i64,
}

impl Interval {
    /// The closed range from `min` to `max`.
    pub fn interval(min: i64, max: i64) -> (r: Interval)
        ensures
            r.min == min,
            r.max == max,
    {
        Interval { min, max }
    }

    /// The length of the range (saturated difference; negative for the
    /// empty sentinel).
    pub fn size(&self) -> (r: i64)
        ensures
            r == fx_sub_spec(self.max, self.min),
    {
        fx_sub(self.max, self.min)
    }

    /// Closed containment: `min <= x <= max`.
    pub fn contains(&self, x: i64) -> (r: bool)
        ensures
            r == (self.min <= x && x <= self.max),
    {
        self.min <= x && x <= self.max
    }

    /// Open containment: `min < x < max`.
    pub fn surrounds(&self, x: i64) -> (r: bool)
        ensures
            r == self.surrounds_spec(x),
    {
        self.min < x && x < self.max
    }

    /// `x` bounded into `[min, max]`.
    pub fn clamp(&self, x: i64) -> (r: i64)
        ensures
            r == self.clamp_spec(x),
    {
        if x < self.min {
            self.min
        } else if x > self.max {
            self.max
        } else {
            x
        }
    }

    /// The range that contains nothing.
    pub fn empty() -> (r: Interval)
        ensures
            r.min == i64::MAX,
            r.max == i64::MIN,
            forall|x: i64| !r.contains_spec(x),
    {
        Interval { min: i64::MAX, max: i64::MIN }
    }

    /// The range that contains every scalar.
    pub fn universe() -> (r: Interval)
        ensures
            r.min == i64::MIN,
            r.max == i64::MAX,
            forall|x: i64| r.contains_spec(x),
    {
        Interval { min: i64::MIN, max: i64::MAX }
    }
}

impl Interval {
    pub open spec fn contains_spec(self, x: i64) -> bool {
        self.min <= x && x <= self.max
    }

    pub open spec fn surrounds_spec(self, x: i64) -> bool {
        self.min < x && x < self.max
    }

    pub open spec fn clamp_spec(self, x: i64) -> i64 {
        if x < self.min {
            self.min
        } else if x > self.max {
            self.max
        } else {
            x
        }
    }
}

} // verus!
