//! A tiny deterministic PRNG (SplitMix64).
//!
//! A scenario is fully reproducible from its seed: the stream is a pure
//! function of the state, and the state only ever advances by a fixed odd
//! increment.
use vstd::prelude::*;

verus! {

/// The SplitMix64 increment (the golden-ratio constant).
pub const GAMMA: u64 = 0x9E37_79B9_7F4A_7C15;

/// Two's-complement 64-bit addition, as a mathematical function.
pub open spec fn add64(a: u64, b: u64) -> u64 {
    ((a as nat + b as nat) % 0x1_0000_0000_0000_0000nat) as u64
}

/// Two's-complement 64-bit multiplication, as a mathematical function.
pub open spec fn mul64(a: u64, b: u64) -> u64 {
    ((a as nat * b as nat) % 0x1_0000_0000_0000_0000nat) as u64
}

/// The SplitMix64 output function applied to an advanced state.
pub open spec fn mix(z: u64) -> u64 {
    let z1 = mul64(z ^ (z >> 30u64), 0xBF58_476D_1CE4_E5B9u64);
    let z2 = mul64(z1 ^ (z1 >> 27u64), 0x94D0_49BB_1331_11EBu64);
    z2 ^ (z2 >> 31u64)
}

/// The state of a stream started at `seed` after `k` draws.
pub open spec fn state_after(seed: u64, k: nat) -> u64 {
    ((seed as nat + k * (GAMMA as nat)) % 0x1_0000_0000_0000_0000nat) as u64
}

/// The `k`-th value (counting from 0) of the stream started at `seed`.
pub open spec fn nth_draw(seed: u64, k: nat) -> u64 {
    mix(state_after(seed, k + 1))
}

pub struct Rng {
    state: u64,
}

impl View for Rng {
    type V = u64;

    /// The whole state of the generator: its position in the stream.
    closed spec fn view(&self) -> u64 {
        self.state
    }
}

impl Rng {
    /// A generator positioned at the start of the stream for `seed`.
    pub fn new(seed: u64) -> (r: Rng)
        ensures
            r@ == seed,
    {
        Rng { state: seed }
    }

    /// Advance the stream by one and return the mixed value.
    pub fn next_u64(&mut self) -> (x: u64)
        ensures
            final(self)@ == add64(old(self)@, GAMMA),
            x == mix(final(self)@),
    {
        self.state = self.state.wrapping_add(GAMMA);
        let mut z: u64 = self.state;
        z = (z ^ (z >> 30)).wrapping_mul(0xBF58_476D_1CE4_E5B9);
        z = (z ^ (z >> 27)).wrapping_mul(0x94D0_49BB_1331_11EB);
        z ^ (z >> 31)
    }
}

/// The stream is a pure function of its seed: a fresh generator sits at
/// `state_after(seed, 0) == seed`, each draw moves it from position `k` to
/// `k + 1`, and the value drawn there is `nth_draw(seed, k)`. Two generators
/// started from the same seed therefore yield the same values forever.
pub proof fn lemma_stream_is_a_function_of_the_seed(seed: u64, k: nat)
    ensures
        state_after(seed, 0) == seed,
        add64(state_after(seed, k), GAMMA) == state_after(seed, k + 1),
        mix(add64(state_after(seed, k), GAMMA)) == nth_draw(seed, k),
{
    let m: int = 0x1_0000_0000_0000_0000;
    let x: int = seed as int + k * (GAMMA as int);
    vstd::arithmetic::div_mod::lemma_small_mod(seed as nat, m as nat);
    vstd::arithmetic::div_mod::lemma_add_mod_noop(x, GAMMA as int, m);
    vstd::arithmetic::div_mod::lemma_small_mod(GAMMA as nat, m as nat);
    assert(x + GAMMA as int == seed as int + (k + 1) * (GAMMA as int)) by (nonlinear_arith)
        requires
            x == seed as int + k * (GAMMA as int),
    ;
}

} // verus!
