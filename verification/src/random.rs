//! Poor man's random number generator - efficient on a Cortex-M0+.

use vstd::prelude::*;

use vstd::wrapping::u32_specs;

verus! {

/// 32-bit mixing state.  Each draw rotates the state by a half word,
/// folds in the caller's entropy and multiplies by a fixed odd
/// constant.
pub struct Random {
    pub state: u32,
}

/// The state after one stir: rotate by 16, add `info`, multiply by the
/// golden-ratio constant (all wrapping).
pub open spec fn spec_stir(state: u32, info: u32) -> u32 {
    u32_specs::wrapping_mul(
        u32_specs::wrapping_add(state << 16u32 | state >> 16u32, info),
        2654435769,
    )
}

/// The value `random_n` draws from a given state: the stirred state's
/// upper half word scaled to `0..n`.
pub open spec fn spec_random_n(state: u32, n: u32) -> int {
    ((spec_stir(state, 0) >> 16u32) * n) / 65536
}

impl Random {
    /// Start from an all-zero state.
    pub fn new() -> (r: Random)
        ensures
            r.state == 0,
    {
        Random { state: 0 }
    }

    /// Mix `info` into the state and return the new state.
    pub fn stir(&mut self, info: u32) -> (r: u32)
        ensures
            r == spec_stir(old(self).state, info),
            final(self).state == r,
    {
        let mut stir = self.state;
        stir = stir << 16u32 | stir >> 16u32;
        stir = stir.wrapping_add(info);
        stir = stir.wrapping_mul(2654435769);
        self.state = stir;
        stir
    }

    /// Draw a value in `0..n`.
    pub fn random_n(&mut self, n: u32) -> (r: u32)
        requires
            n <= 65536,
        ensures
            r == spec_random_n(old(self).state, n),
            final(self).state == spec_stir(old(self).state, 0),
            n > 0 ==> r < n,
    {
        let s = self.stir(0) >> 16u32;
        proof {
            vstd::bits::lemma_u32_shr_is_div(spec_stir(old(self).state, 0), 16);
            vstd::arithmetic::power2::lemma2_to64();
            assert(s < 0x10000);
            assert(s * n <= 0xffff * 65536) by (nonlinear_arith)
                requires
                    s < 0x10000 && n <= 65536,
            ;
            vstd::bits::lemma_u32_shr_is_div((s * n) as u32, 16);
            if n > 0 {
                assert(s * n < 65536 * (n as int)) by (nonlinear_arith)
                    requires
                        s < 65536 && n > 0,
                ;
                vstd::arithmetic::div_mod::lemma_multiply_divide_lt(s * n, 65536, n as int);
            }
        }
        s * n >> 16u32
    }
}

} // verus!
