//! The linear gas-cost model shared by variable-length precompiles.

use vstd::prelude::*;

verus! {

/// Number of 32-byte words needed to hold `len` bytes, a partial word
/// counting as a whole one.
pub open spec fn words(len: nat) -> nat {
    (len + 31) / 32
}

/// Gas charged for `len` bytes of input: `base` plus `per_word` for every
/// started word.
pub open spec fn linear_cost(len: nat, base: nat, per_word: nat) -> nat {
    base + per_word * words(len)
}

/// `words` is the ceiling of `len / 32`: the least word count whose bytes
/// cover `len`.
pub proof fn lemma_words_is_ceiling(len: nat)
    ensures
        32 * words(len) >= len,
        words(len) == 0 || 32 * (words(len) - 1) < len,
        len % 32 == 0 ==> words(len) == len / 32,
        len % 32 != 0 ==> words(len) == len / 32 + 1,
{
}

/// Computes `base + per_word * ceil(len / 32)` exactly. The result is wide
/// enough that no length, base or per-word cost can overflow it.
pub fn calc_linear_cost(len: usize, base: u64, per_word: u64) -> (r: u128)
    ensures
        r == linear_cost(len as nat, base as nat, per_word as nat),
{
    let w: u128 = (len as u128 + 31) / 32;
    assert(w == words(len as nat));
    assert(w <= 0x1_0000_0000_0000_0000);
    assert((per_word as u128) * w <= 0xffff_ffff_ffff_ffff * 0x1_0000_0000_0000_0000) by (nonlinear_arith)
        requires
            w <= 0x1_0000_0000_0000_0000,
            per_word <= 0xffff_ffff_ffff_ffff,
    ;
    (base as u128) + (per_word as u128) * w
}

} // verus!
