//! A deterministic pseudo-random stream (64-bit xorshift).
//!
//! Every draw is a pure function of the generator state, so a render seeded
//! the same way twice produces the same image. Fresh, unpredictable seeds
//! come from the `rand` crate through the one trusted function below.

use vstd::prelude::*;

verus! {

/// The state a zero seed is replaced with (a zero xorshift state would be a
/// fixed point of the step function).
pub const SEED_FALLBACK: u64 = 0x9E37_79B9_7F4A_7C15;

#[derive(Clone, Copy, PartialEq, Eq, Structural, Debug)]
pub struct Rng {
    pub state: u64,
}

/// One xorshift step of the generator state.
pub open spec fn rng_step(s: u64) -> u64 {
    let a = s ^ (s << 13);
    let b = a ^ (a >> 7);
    b ^ (b << 17)
}

/// The state a given seed starts the stream in.
pub open spec fn seed_state(seed: u64) -> u64 {
    if seed == 0 {
        SEED_FALLBACK
    } else {
        seed
    }
}

impl Rng {
    /// A stream determined by `seed` alone.
    pub fn new(seed: u64) -> (r: Rng)
        ensures
            r.state == seed_state(seed),
    {
        if seed == 0 {
            Rng { state: SEED_FALLBACK }
        } else {
            Rng { state: seed }
        }
    }

    /// A stream seeded from the process's entropy source; two such streams
    /// are unrelated.
    pub fn from_entropy() -> (r: Rng)
        ensures
            r.state != 0,
    {
        let seed: u64 = entropy_seed();
        if seed == 0 {
            Rng { state: SEED_FALLBACK }
        } else {
            Rng { state: seed }
        }
    }

    /// Advance the stream one step and hand out the new state.
    pub fn next_u64(&mut self) -> (r: u64)
        ensures
            final(self).state == rng_step(old(self).state),
            r == final(self).state,
    {
        let mut s: u64 = self.state;
        s = s ^ (s << 13);
        s = s ^ (s >> 7);
        s = s ^ (s << 17);
        self.state = s;
        s
    }
}

/// Relies on `rand::random` to draw an unpredictable `u64` seed; nothing is
/// assumed of the value.
#[verifier::external_body]
fn entropy_seed() -> u64 {
    rand::random::<u64>()
}

} // verus!
