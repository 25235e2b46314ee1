//! Deterministic xorshift sources for noise and random modulation.
use vstd::prelude::*;

verus! {

/// Seed used where the caller offers zero, on which xorshift would stay.
pub const FALLBACK_SEED: u32 = 0x6d2b_79f5;

/// One step of the 13/17/5 xorshift generator.
pub open spec fn xorshift(x: u32) -> u32 {
    let a = x ^ (x << 13u32);
    let b = a ^ (a >> 17u32);
    b ^ (b << 5u32)
}

/// The generator state after `n` steps from `x`.
pub open spec fn xorshift_n(x: u32, n: nat) -> u32
    decreases n,
{
    if n == 0 {
        x
    } else {
        xorshift(xorshift_n(x, (n - 1) as nat))
    }
}

pub fn next_xorshift(x: u32) -> (r: u32)
    ensures
        r == xorshift(x),
{
    let a: u32 = x ^ (x << 13u32);
    let b: u32 = a ^ (a >> 17u32);
    b ^ (b << 5u32)
}

/// A running generator never reaches zero, where it would be silent for good.
pub proof fn xorshift_stays_nonzero(x: u32)
    requires
        x != 0,
    ensures
        xorshift(x) != 0,
{
    assert(x != 0 ==> ({
        let a = x ^ (x << 13u32);
        let b = a ^ (a >> 17u32);
        b ^ (b << 5u32)
    }) != 0) by (bit_vector);
}

/// However many samples are drawn, a nonzero seed keeps the source running.
pub proof fn noise_never_dies(seed: u32, n: nat)
    requires
        seed != 0,
    ensures
        xorshift_n(seed, n) != 0,
    decreases n,
{
    if n > 0 {
        noise_never_dies(seed, (n - 1) as nat);
        xorshift_stays_nonzero(xorshift_n(seed, (n - 1) as nat));
    }
}

/// A voice-local noise source. Every voice owns one, so that previews and
/// overlapping chord tails cannot share state.
#[derive(Clone, Copy, Debug)]
pub struct NoiseSource {
    state: u32,
}

impl NoiseSource {
    #[verifier::type_invariant]
    spec fn running(self) -> bool {
        self.state != 0
    }

    /// The generator state.
    pub closed spec fn state(self) -> u32 {
        self.state
    }

    /// Starts at `seed`, or at the fallback seed where `seed` is zero.
    pub fn new(seed: u32) -> (source: NoiseSource)
        ensures
            source.state() == if seed == 0 {
                FALLBACK_SEED
            } else {
                seed
            },
    {
        NoiseSource { state: if seed == 0 { FALLBACK_SEED } else { seed } }
    }

    /// Advances the source and returns the numerator of the sample, whose
    /// denominator is `i32::MAX`.
    pub fn next_sample(&mut self) -> (numerator: i32)
        ensures
            final(self).state() == xorshift(old(self).state()),
            numerator == xorshift(old(self).state()) as i32,
    {
        proof {
            use_type_invariant(&*self);
            xorshift_stays_nonzero(self.state);
        }
        let value: u32 = next_xorshift(self.state);
        self.state = value;
        value as i32
    }
}

/// The random part of a low frequency oscillator: a generator that returns to
/// its own seed whenever the oscillator restarts.
#[derive(Clone, Copy, Debug)]
pub struct LfoRandom {
    rng: u32,
    seed: u32,
    active: bool,
}

impl LfoRandom {
    #[verifier::type_invariant]
    spec fn running(self) -> bool {
        self.rng != 0 && self.seed != 0
    }

    pub closed spec fn rng(self) -> u32 {
        self.rng
    }

    pub closed spec fn seed(self) -> u32 {
        self.seed
    }

    pub closed spec fn spec_active(self) -> bool {
        self.active
    }

    pub fn new(seed: u32) -> (lfo: LfoRandom)
        ensures
            lfo.seed() == if seed == 0 {
                1
            } else {
                seed
            },
            lfo.rng() == lfo.seed(),
            !lfo.spec_active(),
    {
        let seed: u32 = if seed == 0 { 1 } else { seed };
        LfoRandom { rng: seed, seed, active: false }
    }

    pub fn is_active(&self) -> (r: bool)
        ensures
            r == self.spec_active(),
    {
        self.active
    }

    /// Back to the seed, waiting for the next activation.
    pub fn reset(&mut self)
        ensures
            final(self).rng() == old(self).seed(),
            final(self).seed() == old(self).seed(),
            !final(self).spec_active(),
    {
        proof {
            use_type_invariant(&*self);
        }
        self.rng = self.seed;
        self.active = false;
    }

    /// Stops without touching the generator.
    pub fn disable(&mut self)
        ensures
            final(self).rng() == old(self).rng(),
            final(self).seed() == old(self).seed(),
            !final(self).spec_active(),
    {
        proof {
            use_type_invariant(&*self);
        }
        self.active = false;
    }

    /// Restarts from the seed and draws the first held value.
    pub fn activate(&mut self) -> (numerator: i32)
        ensures
            final(self).rng() == xorshift(old(self).seed()),
            final(self).seed() == old(self).seed(),
            final(self).spec_active(),
            numerator == xorshift(old(self).seed()) as i32,
    {
        proof {
            use_type_invariant(&*self);
        }
        self.rng = self.seed;
        self.active = true;
        self.random_bipolar()
    }

    /// Draws the next held value as a numerator over `i32::MAX`.
    pub fn random_bipolar(&mut self) -> (numerator: i32)
        ensures
            final(self).rng() == xorshift(old(self).rng()),
            final(self).seed() == old(self).seed(),
            final(self).spec_active() == old(self).spec_active(),
            numerator == xorshift(old(self).rng()) as i32,
    {
        proof {
            use_type_invariant(&*self);
            xorshift_stays_nonzero(self.rng);
        }
        let value: u32 = next_xorshift(self.rng);
        self.rng = value;
        value as i32
    }
}

} // verus!
