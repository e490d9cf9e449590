//! The library's deterministic pseudo-random number generator.
//!
//! World generation must be reproducible: the same seed and the same call
//! order must give bit-identical worlds, in every process and on every
//! machine. The generator is therefore a counter-based construction chosen
//! and written out explicitly here: the state is a Weyl sequence (the
//! counter advances by a fixed odd constant), and each output is a strong
//! 64-bit mixing function of the counter alone. Every method's contract
//! pins its result and the successor state exactly, so any computation
//! threaded through this generator is itself a pure function of the seed.

use vstd::prelude::*;

verus! {

/// The Weyl-sequence step: an odd constant with well-spread bits.
pub const RNG_GAMMA: u64 = 0x9E3779B97F4A7C15;
/// First multiplier of the output mixer.
pub const RNG_MIX_A: u64 = 0xBF58476D1CE4E5B9;
/// Second multiplier of the output mixer.
pub const RNG_MIX_B: u64 = 0x94D049BB133111EB;

/// Product of two 64-bit values, reduced modulo 2^64.
pub open spec fn wrap_mul64(a: u64, b: u64) -> u64 {
    (((a as int) * (b as int)) % 0x1_0000_0000_0000_0000) as u64
}

/// Sum of two 64-bit values, reduced modulo 2^64.
pub open spec fn wrap_add64(a: u64, b: u64) -> u64 {
    (((a as int) + (b as int)) % 0x1_0000_0000_0000_0000) as u64
}

/// The output mixer: a bijective hash of the counter.
///
/// Opaque: callers reason about draws as an abstract function of the
/// state; only the generator's own methods look inside.
#[verifier::opaque]
pub open spec fn rng_mix(s: u64) -> u64 {
    let z0 = s ^ (s >> 30);
    let z1 = wrap_mul64(z0, RNG_MIX_A);
    let z2 = z1 ^ (z1 >> 27);
    let z3 = wrap_mul64(z2, RNG_MIX_B);
    z3 ^ (z3 >> 31)
}

/// The successor of a generator state.
pub open spec fn rng_step(s: u64) -> u64 {
    wrap_add64(s, RNG_GAMMA)
}

/// Product of two 64-bit values, reduced modulo 2^64.
fn wmul(a: u64, b: u64) -> (r: u64)
    ensures
        r == wrap_mul64(a, b),
{
    proof {
        assert((a as int) * (b as int) < 0x1_0000_0000_0000_0000_0000_0000_0000_0000)
            by (nonlinear_arith)
            requires
                0 <= (a as int) < 0x1_0000_0000_0000_0000,
                0 <= (b as int) < 0x1_0000_0000_0000_0000,
        ;
    }
    let wide: u128 = (a as u128) * (b as u128);
    (wide % 0x1_0000_0000_0000_0000u128) as u64
}

/// Sum of two 64-bit values, reduced modulo 2^64.
fn wadd(a: u64, b: u64) -> (r: u64)
    ensures
        r == wrap_add64(a, b),
{
    let wide: u128 = (a as u128) + (b as u128);
    (wide % 0x1_0000_0000_0000_0000u128) as u64
}

/// A deterministic pseudo-random number generator for world generation.
#[derive(Debug, Clone, Copy, PartialEq, Eq, Structural)]
pub struct GameRng {
    /// The current counter of the Weyl sequence.
    pub state: u64,
}

impl GameRng {
    /// A fresh generator whose whole stream is a function of `seed`.
    pub fn seeded(seed: u64) -> (r: Self)
        ensures
            r.state == seed,
    {
        GameRng { state: seed }
    }

    /// The next raw 64-bit draw.
    pub fn next_u64(&mut self) -> (r: u64)
        ensures
            r == rng_mix(old(self).state),
            final(self).state == rng_step(old(self).state),
    {
        proof {
            reveal(rng_mix);
        }
        let s = self.state;
        let z0 = s ^ (s >> 30);
        let z1 = wmul(z0, RNG_MIX_A);
        let z2 = z1 ^ (z1 >> 27);
        let z3 = wmul(z2, RNG_MIX_B);
        let out = z3 ^ (z3 >> 31);
        self.state = wadd(s, RNG_GAMMA);
        out
    }

    /// The next raw 32-bit draw: the high half of the 64-bit draw.
    pub fn next_u32(&mut self) -> (r: u32)
        ensures
            r == rng_mix(old(self).state) >> 32,
            final(self).state == rng_step(old(self).state),
    {
        let d = self.next_u64();
        proof {
            assert(d >> 32 < 0x1_0000_0000u64) by (bit_vector);
        }
        (d >> 32) as u32
    }

    /// A draw uniform-ish over `0..n`.
    pub fn range_u64(&mut self, n: u64) -> (r: u64)
        requires
            n >= 1,
        ensures
            r == rng_mix(old(self).state) % n,
            r < n,
            final(self).state == rng_step(old(self).state),
    {
        let d = self.next_u64();
        d % n
    }

    /// A draw uniform-ish over `lo..hi`.
    pub fn range_i64(&mut self, lo: i64, hi: i64) -> (r: i64)
        requires
            lo < hi,
            hi - lo <= i64::MAX,
        ensures
            r == lo + rng_mix(old(self).state) % ((hi - lo) as u64),
            lo <= r < hi,
            final(self).state == rng_step(old(self).state),
    {
        let span: u64 = (hi - lo) as u64;
        let d = self.next_u64();
        let off = d % span;
        lo + (off as i64)
    }

    /// A fair-ish coin: the low bit of the 64-bit draw.
    pub fn coin(&mut self) -> (r: bool)
        ensures
            r == (rng_mix(old(self).state) % 2 == 1),
            final(self).state == rng_step(old(self).state),
    {
        let d = self.next_u64();
        d % 2 == 1
    }
}

} // verus!
