//! A small deterministic pseudo-random generator (xoshiro256** seeded by
//! SplitMix64), used by the optimizers and by statistical sampling.
use vstd::prelude::*;

verus! {

/// The increment of the SplitMix64 seeding sequence.
pub const SPLITMIX_GAMMA: u64 = 0x9e3779b97f4a7c15;

/// `x` rotated left by `k` bits, `0 < k < 64`.
pub open spec fn spec_rotl(x: u64, k: u64) -> u64 {
    (x << k) | (x >> ((64 - k) as u64))
}

/// The SplitMix64 output for an internal state value.
pub open spec fn spec_splitmix_mix(z: u64) -> u64 {
    let z1 = (z ^ (z >> 30u64)).wrapping_mul(0xbf58476d1ce4e5b9u64);
    let z2 = (z1 ^ (z1 >> 27u64)).wrapping_mul(0x94d049bb133111ebu64);
    z2 ^ (z2 >> 31u64)
}

/// The state word `i` (0..4) that seeding with `seed` produces: the mix of
/// `seed + (i+1) * gamma`, wrapping.
pub open spec fn spec_seed_word(seed: u64, i: u64) -> u64 {
    spec_splitmix_mix(((seed as int + (i as int + 1) * (SPLITMIX_GAMMA as int)) % 0x1_0000_0000_0000_0000) as u64)
}

/// The output and the next state of one xoshiro256** step.
pub open spec fn spec_step(s: (u64, u64, u64, u64)) -> (u64, (u64, u64, u64, u64)) {
    let (s0, s1, s2, s3) = s;
    let result = spec_rotl(s1.wrapping_mul(5u64), 7u64).wrapping_mul(9u64);
    let t = s1 << 17u64;
    let s2a = s2 ^ s0;
    let s3a = s3 ^ s1;
    let s1a = s1 ^ s2a;
    let s0a = s0 ^ s3a;
    let s2b = s2a ^ t;
    let s3b = spec_rotl(s3a, 45u64);
    (result, (s0a, s1a, s2b, s3b))
}

/// Pseudo-random number generator (xoshiro256**).
pub struct SimpleRng {
    s: [u64; 4],
}

impl SimpleRng {
    /// The generator's four state words.
    pub closed spec fn state(&self) -> (u64, u64, u64, u64) {
        (self.s@[0], self.s@[1], self.s@[2], self.s@[3])
    }

    /// A generator seeded from `seed` with SplitMix64.
    pub fn new(seed: u64) -> (r: SimpleRng)
        ensures
            r.state() == (
                spec_seed_word(seed, 0),
                spec_seed_word(seed, 1),
                spec_seed_word(seed, 2),
                spec_seed_word(seed, 3),
            ),
    {
        let mut state = seed;
        let mut s = [0u64; 4];
        let mut i: usize = 0;
        while i < 4
            invariant
                i <= 4,
                s@.len() == 4,
                state as int == (seed as int + (i as int) * (SPLITMIX_GAMMA as int)) % 0x1_0000_0000_0000_0000,
                forall|k: int| 0 <= k < i ==> s@[k] == spec_seed_word(seed, k as u64),
            decreases 4 - i,
        {
            state = state.wrapping_add(SPLITMIX_GAMMA);
            assert(state as int == (seed as int + (i as int + 1) * (SPLITMIX_GAMMA as int)) % 0x1_0000_0000_0000_0000) by (nonlinear_arith)
                requires
                    state as int == ((seed as int + (i as int) * (SPLITMIX_GAMMA as int)) % 0x1_0000_0000_0000_0000 + SPLITMIX_GAMMA as int) % 0x1_0000_0000_0000_0000,
            ;
            let mut z = state;
            z = (z ^ (z >> 30u64)).wrapping_mul(0xbf58476d1ce4e5b9);
            z = (z ^ (z >> 27u64)).wrapping_mul(0x94d049bb133111eb);
            s.set(i, z ^ (z >> 31u64));
            i = i + 1;
        }
        SimpleRng { s }
    }

    /// The next 64 pseudo-random bits; advances the state by one step.
    pub fn next_u64(&mut self) -> (r: u64)
        ensures
            (r, final(self).state()) == spec_step(old(self).state()),
    {
        let s0 = self.s[0];
        let s1 = self.s[1];
        let s2 = self.s[2];
        let s3 = self.s[3];
        let m = s1.wrapping_mul(5);
        let result = ((m << 7u64) | (m >> 57u64)).wrapping_mul(9);
        let t = s1 << 17u64;
        let s2a = s2 ^ s0;
        let s3a = s3 ^ s1;
        let s1a = s1 ^ s2a;
        let s0a = s0 ^ s3a;
        let s2b = s2a ^ t;
        let s3b = (s3a << 45u64) | (s3a >> 19u64);
        self.s = [s0a, s1a, s2b, s3b];
        result
    }

    /// The top 53 bits of the next output: the mantissa from which a
    /// uniform value in `[0, 1)` is made by dividing by 2^53.
    pub fn next_u53(&mut self) -> (r: u64)
        ensures
            r == spec_step(old(self).state()).0 >> 11u64,
            final(self).state() == spec_step(old(self).state()).1,
            r < 0x20_0000_0000_0000,
    {
        let x = self.next_u64();
        assert(x >> 11u64 < 0x20_0000_0000_0000) by (bit_vector);
        x >> 11u64
    }
}

/// A step never leads from a state that is not all zero to the all-zero
/// state, from which the generator would only ever produce zeros.
pub proof fn lemma_step_keeps_nonzero(s: (u64, u64, u64, u64))
    requires
        s != (0u64, 0u64, 0u64, 0u64),
    ensures
        spec_step(s).1 != (0u64, 0u64, 0u64, 0u64),
{
    let (s0, s1, s2, s3) = s;
    assert(!(s0 == 0 && s1 == 0 && s2 == 0 && s3 == 0) ==> !(s0 ^ (s3 ^ s1) == 0 && s1 ^ (s2
        ^ s0) == 0 && (s2 ^ s0) ^ (s1 << 17u64) == 0 && ((s3 ^ s1) << 45u64) | ((s3 ^ s1) >> 19u64)
        == 0)) by (bit_vector);
}

} // verus!
