use vstd::prelude::*;

verus! {

/// One step of the 32-bit xorshift generator (shifts 13, 17, 5).
pub open spec fn xorshift_step(x: u32) -> u32 {
    let a = x ^ (x << 13u32);
    let b = a ^ (a >> 17u32);
    b ^ (b << 5u32)
}

/// A reproducible pseudo-random sequence for the ageing effect's modulation.
pub struct DeterministicRandom {
    pub state: u32,
}

impl DeterministicRandom {
    /// A generator starting from `seed`.
    pub fn new(seed: u32) -> (random: Self)
        ensures
            random.state == seed,
    {
        DeterministicRandom { state: seed }
    }

    /// Restarts the sequence from `seed`.
    pub fn reset(&mut self, seed: u32)
        ensures
            final(self).state == seed,
    {
        self.state = seed;
    }

    /// Advances the generator and returns its new state.
    pub fn next_state(&mut self) -> (value: u32)
        ensures
            value == xorshift_step(old(self).state),
            final(self).state == value,
    {
        let mut value = self.state;
        value = value ^ (value << 13u32);
        value = value ^ (value >> 17u32);
        value = value ^ (value << 5u32);
        self.state = value;
        value
    }
}

/// A generator seeded with a non-zero value never reaches zero, so its sequence never
/// gets stuck.
pub proof fn lemma_xorshift_never_zero(x: u32)
    requires
        x != 0,
    ensures
        xorshift_step(x) != 0,
{
    let a = x ^ (x << 13u32);
    let b = a ^ (a >> 17u32);
    assert(x != 0 ==> x ^ (x << 13u32) != 0) by (bit_vector);
    assert(a != 0 ==> a ^ (a >> 17u32) != 0) by (bit_vector);
    assert(b != 0 ==> b ^ (b << 5u32) != 0) by (bit_vector);
}

} // verus!
