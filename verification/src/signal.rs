//! Bounded random signal: an unbounded sequence of uniform draws from a
//! half-open range, backed by the thread-local generator of the `rand` crate.

use vstd::prelude::*;

verus! {

#[verifier::external_type_specification]
#[verifier::external_body]
pub struct ExThreadRng(rand::rngs::ThreadRng);

/// Relies on rand::thread_rng: a handle to the lazily seeded thread-local
/// generator. Nothing is promised of it; every draw made through it is
/// bounded by the contract of `gen_range_u64` alone.
#[verifier::external_body]
fn fresh_rng() -> rand::rngs::ThreadRng {
    rand::thread_rng()
}

/// Relies on rand::Rng::gen_range over the half-open range `lo..hi`: it
/// samples uniformly from [lo, hi) and panics only when the range is empty,
/// which the precondition rules out.
#[verifier::external_body]
fn gen_range_u64(rng: &mut rand::rngs::ThreadRng, lo: u64, hi: u64) -> (r: u64)
    requires
        lo < hi,
    ensures
        lo <= r < hi,
{
    rand::Rng::gen_range(rng, lo..hi)
}

/// An unbounded lazy sequence of uniform integers in [lower, upper).
/// Restartable only by constructing a new generator; every draw advances
/// opaque, externally seeded entropy state.
pub struct RandomSignal {
    lower: u64,
    upper: u64,
    rng: rand::rngs::ThreadRng,
}

impl RandomSignal {
    /// The inclusive lower bound of every value this signal yields.
    pub closed spec fn lower(&self) -> u64 {
        self.lower
    }

    /// The exclusive upper bound of every value this signal yields.
    pub closed spec fn upper(&self) -> u64 {
        self.upper
    }

    /// A signal is well formed when its range is non-empty.
    pub open spec fn wf(&self) -> bool {
        self.lower() < self.upper()
    }

    pub fn new(lower: u64, upper: u64) -> (s: RandomSignal)
        requires
            lower < upper,
        ensures
            s.lower() == lower,
            s.upper() == upper,
            s.wf(),
    {
        RandomSignal { lower, upper, rng: fresh_rng() }
    }

    /// Draw the next sample; always yields a value in [lower, upper).
    pub fn next(&mut self) -> (r: u64)
        requires
            old(self).wf(),
        ensures
            old(self).lower() <= r < old(self).upper(),
            final(self).lower() == old(self).lower(),
            final(self).upper() == old(self).upper(),
            final(self).wf(),
    {
        gen_range_u64(&mut self.rng, self.lower, self.upper)
    }
}

} // verus!
