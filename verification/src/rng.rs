//! Deterministic pseudo-random streams. Every entity owns one, seeded at
//! construction, so per-tick outcomes are reproducible and independent of the
//! order other entities draw in. The state is carried as a plain seed value,
//! so every draw is a pure function of the stream's state.

use vstd::prelude::*;

verus! {

/// What a draw below `bound` yields for a generator holding `state`: the
/// drawn value and the state the generator is left in.
pub uninterp spec fn rand_step(state: u64, bound: u64) -> (u64, u64);

/// The value a draw below `bound` yields for a generator holding `state`.
pub open spec fn rand_value(state: u64, bound: u64) -> u64 {
    rand_step(state, bound).0
}

/// The state a generator holding `state` is left in after a draw below
/// `bound`.
pub open spec fn rand_next(state: u64, bound: u64) -> u64 {
    rand_step(state, bound).1
}

/// Relies on fastrand::Rng::u64 (with Rng::with_seed and Rng::get_seed
/// carrying the generator state in and out): the drawn value lies in
/// `0..bound`, and both it and the new state are functions of `state` and
/// `bound` alone.
#[verifier::external_body]
fn raw_step(state: u64, bound: u64) -> (r: (u64, u64))
    requires
        1 <= bound,
    ensures
        r == rand_step(state, bound),
        r.0 < bound,
{
    let mut gen = fastrand::Rng::with_seed(state);
    let value = gen.u64(0..bound);
    (value, gen.get_seed())
}

/// A pseudo-random stream: draws advance the state deterministically.
#[derive(Debug, Copy, Clone, PartialEq, Eq, Structural)]
pub struct Rand {
    pub state: u64,
}

impl Rand {
    /// A fresh stream starting from the given seed.
    pub fn new(seed: u64) -> (r: Rand)
        ensures
            r.state == seed,
    {
        Rand { state: seed }
    }

    /// Draw a value uniformly below `bound`, advancing the stream.
    pub fn below(&mut self, bound: u64) -> (r: u64)
        requires
            1 <= bound,
        ensures
            r == rand_value(old(self).state, bound),
            final(self).state == rand_next(old(self).state, bound),
            r < bound,
    {
        let p = raw_step(self.state, bound);
        self.state = p.1;
        p.0
    }
}

} // verus!
