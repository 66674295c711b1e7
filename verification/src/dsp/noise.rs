//! The integer side of the noise sources: a 32-bit xorshift generator, and
//! the length of the modulated delay lines.

use vstd::prelude::*;

verus! {

/// One xorshift32 step (shifts 13, 17, 5).
pub open spec fn xorshift(x: u32) -> u32 {
    let a: u32 = x ^ (x << 13u32);
    let b: u32 = a ^ (a >> 17u32);
    b ^ (b << 5u32)
}

/// A xorshift32 generator. Its state is never zero, the one state from
/// which xorshift would never leave.
pub struct Xorshift32 {
    state: u32,
}

/// A xorshift step never maps a nonzero state to zero.
pub proof fn law_xorshift_never_stalls(x: u32)
    requires
        x != 0,
    ensures
        xorshift(x) != 0,
{
    let a: u32 = x ^ (x << 13u32);
    let b: u32 = a ^ (a >> 17u32);
    assert(x != 0 ==> (x ^ (x << 13u32)) != 0) by (bit_vector);
    assert(a != 0 ==> (a ^ (a >> 17u32)) != 0) by (bit_vector);
    assert(b != 0 ==> (b ^ (b << 5u32)) != 0) by (bit_vector);
}

impl Xorshift32 {
    #[verifier::type_invariant]
    spec fn nonzero(&self) -> bool {
        self.state != 0
    }

    /// The current state.
    pub closed spec fn state(&self) -> u32 {
        self.state
    }

    /// A generator seeded with `seed`, its lowest bit set so that the state
    /// is not zero.
    pub fn new(seed: u32) -> (r: Xorshift32)
        ensures
            r.state() == seed | 1,
    {
        let state: u32 = seed | 1;
        assert(state != 0) by (bit_vector)
            requires
                state == seed | 1,
        ;
        Xorshift32 { state }
    }

    /// The next number, which is also the new state.
    pub fn next_u32(&mut self) -> (x: u32)
        ensures
            x == xorshift(old(self).state()),
            final(self).state() == x,
            x != 0,
    {
        proof {
            use_type_invariant(&*self);
            law_xorshift_never_stalls(self.state);
        }
        let mut x: u32 = self.state;
        x = x ^ (x << 13u32);
        x = x ^ (x >> 17u32);
        x = x ^ (x << 5u32);
        self.state = x;
        x
    }
}

/// Whether `n` is a power of two.
pub open spec fn is_power_of_two(n: nat) -> bool
    decreases n,
{
    if n == 1 {
        true
    } else if n >= 2 && n % 2 == 0 {
        is_power_of_two(n / 2)
    } else {
        false
    }
}

/// The length of a delay line that must hold `needed` samples: the smallest
/// power of two not below `needed` (`usize::next_power_of_two`), and at
/// least 256. Above 2^31 the power of two would not fit a 32-bit `usize`.
pub fn delay_buffer_len(needed: usize) -> (r: usize)
    requires
        needed <= 0x8000_0000,
    ensures
        is_power_of_two(r as nat),
        r >= needed,
        r >= 256,
        r == 256 || r / 2 < needed,
{
    let mut p: usize = 1;
    while p < needed
        invariant
            is_power_of_two(p as nat),
            p >= 1,
            p == 1 || p / 2 < needed,
            needed <= 0x8000_0000,
            p <= 0x1_0000_0000,
        decreases 0x1_0000_0000 - p,
    {
        assert((p * 2) / 2 == p);
        assert(is_power_of_two((p * 2) as nat)) by {
            assert((p * 2) as nat % 2 == 0);
            assert((p * 2) as nat / 2 == p as nat);
        }
        p = p * 2;
    }
    if p < 256 {
        assert(is_power_of_two(256nat)) by {
            reveal_with_fuel(is_power_of_two, 9);
        }
        256
    } else {
        p
    }
}

} // verus!
