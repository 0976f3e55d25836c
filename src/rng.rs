//! A small xorshift generator that supplies the coin flips used to seed the
//! grid. The caller picks the seed, so a run can be reproduced.

use vstd::prelude::*;

verus! {

/// The state that a generator seeded with 0 starts from instead, since
/// xorshift never leaves the zero state.
pub const DEFAULT_SEED: u64 = 0x9E37_79B9_7F4A_7C15;

/// One xorshift64 step.
pub open spec fn xorshift(s: u64) -> u64 {
    let a = s ^ (s << 13u64);
    let b = a ^ (a >> 7u64);
    b ^ (b << 17u64)
}

/// The state after `k` steps from `s`.
pub open spec fn advance(s: u64, k: nat) -> u64
    decreases k,
{
    if k == 0 {
        s
    } else {
        xorshift(advance(s, (k - 1) as nat))
    }
}

/// The coin that a state shows: its top bit.
pub open spec fn coin(s: u64) -> bool {
    s >> 63u64 == 1u64
}

/// A pseudo-random source of fair coin flips.
pub struct Rng {
    state: u64,
}

impl Rng {
    /// The generator's current state.
    pub closed spec fn spec_state(&self) -> u64 {
        self.state
    }

    /// A generator started from `seed` (from `DEFAULT_SEED` where `seed` is 0).
    pub fn new(seed: u64) -> (r: Self)
        ensures
            r.spec_state() == if seed == 0 {
                DEFAULT_SEED
            } else {
                seed
            },
    {
        Rng { state: if seed == 0 { DEFAULT_SEED } else { seed } }
    }

    /// Advances the state one step and flips the coin of the new state.
    pub fn next_bool(&mut self) -> (r: bool)
        ensures
            final(self).spec_state() == xorshift(old(self).spec_state()),
            r == coin(final(self).spec_state()),
    {
        let s = self.state;
        let a = s ^ (s << 13u32);
        let b = a ^ (a >> 7u32);
        let c = b ^ (b << 17u32);
        self.state = c;
        c >> 63u32 == 1u64
    }
}

} // verus!
