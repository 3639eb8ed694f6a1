use vstd::prelude::*;

verus! {

/// The state a generator steps to when the xorshift update would leave it
/// stuck: the update maps zero to zero and to nothing else.
pub const RESEED_STATE: u64 = 0x9E3779B97F4A7C15;

/// One xorshift update of a 64-bit state.
pub open spec fn xorshift_step(x: u64) -> u64 {
    let a = x ^ (x << 13u64);
    let b = a ^ (a >> 7u64);
    b ^ (b << 17u64)
}

/// The state after one call of `next_u64`, which steps past zero so that the
/// generator can never get stuck.
pub open spec fn next_state(x: u64) -> u64 {
    if xorshift_step(x) == 0 {
        RESEED_STATE
    } else {
        xorshift_step(x)
    }
}

/// The state after `n` calls of `next_u64`.
pub open spec fn state_after(x: u64, n: nat) -> u64
    decreases n,
{
    if n == 0 {
        x
    } else {
        next_state(state_after(x, (n - 1) as nat))
    }
}

/// A small pseudo-random generator with an explicit, injectable seed: an
/// xorshift walk over the non-zero 64-bit states. Callers that want
/// reproducible draws pass the same seed; callers that do not derive the
/// seed from ambient entropy.
pub struct Rng {
    pub state: u64,
}

impl Rng {
    pub fn from_seed(seed: u64) -> (r: Rng)
        ensures
            r.state == if seed == 0 { RESEED_STATE } else { seed },
    {
        if seed == 0 {
            Rng { state: RESEED_STATE }
        } else {
            Rng { state: seed }
        }
    }

    /// The next raw draw: the updated state itself.
    pub fn next_u64(&mut self) -> (r: u64)
        ensures
            r == next_state(old(self).state),
            final(self).state == r,
            r != 0,
    {
        let x = self.state;
        let a = x ^ (x << 13u64);
        let b = a ^ (a >> 7u64);
        let c = b ^ (b << 17u64);
        if c == 0 {
            self.state = RESEED_STATE;
        } else {
            self.state = c;
        }
        self.state
    }
}

} // verus!
