//! The SHA-256 and RIPEMD-160 precompiles.

use crate::gas::{calc_linear_cost, linear_cost};
use crate::output::{result_view, PrecompileError, PrecompileOutput, PrecompileResult, ResultModel};
use sha2::Digest;
use vstd::prelude::*;

verus! {

/// Base gas of the SHA-256 precompile.
pub const SHA256_BASE: u64 = 60;

/// Gas per input word of the SHA-256 precompile.
pub const SHA256_PER_WORD: u64 = 12;

/// Base gas of the RIPEMD-160 precompile.
pub const RIPEMD160_BASE: u64 = 600;

/// Gas per input word of the RIPEMD-160 precompile.
pub const RIPEMD160_PER_WORD: u64 = 120;

/// Width of an EVM return word in bytes.
pub const OUTPUT_WORD_LEN: usize = 32;

/// The standard SHA-256 digest of `input`.
pub uninterp spec fn sha256_of(input: Seq<u8>) -> Seq<u8>;

/// The standard RIPEMD-160 digest of `input`.
pub uninterp spec fn ripemd160_of(input: Seq<u8>) -> Seq<u8>;

/// Relies on `sha2::Sha256::digest` (the `Digest` trait of the `digest`
/// crate): a 32-byte digest that depends on the input bytes alone.
#[verifier::external_body]
fn sha256_digest(input: &[u8]) -> (r: Vec<u8>)
    ensures
        r@ == sha256_of(input@),
        r@.len() == 32,
{
    sha2::Sha256::digest(input).to_vec()
}

/// Relies on `ripemd::Ripemd160::digest` (the `Digest` trait of the
/// `digest` crate): a 20-byte digest that depends on the input bytes alone.
#[verifier::external_body]
fn ripemd160_digest(input: &[u8]) -> (r: Vec<u8>)
    ensures
        r@ == ripemd160_of(input@),
        r@.len() == 20,
{
    ripemd::Ripemd160::digest(input).to_vec()
}

/// `s` right-aligned in a 32-byte word, the leading bytes zero.
pub open spec fn word_padded(s: Seq<u8>) -> Seq<u8> {
    Seq::new((32 - s.len()) as nat, |i: int| 0u8) + s
}

/// What charging `cost` against `gas_limit` gives: the gas used, or
/// `OutOfGas` when the cost exceeds the limit.
pub open spec fn charged(cost: nat, gas_limit: u64) -> Result<u64, PrecompileError> {
    if cost > gas_limit {
        Err(PrecompileError::OutOfGas)
    } else {
        Ok(cost as u64)
    }
}

/// The result of the SHA-256 precompile on `input` under `gas_limit`.
pub open spec fn sha256_result(input: Seq<u8>, gas_limit: u64) -> ResultModel {
    match charged(linear_cost(input.len(), SHA256_BASE as nat, SHA256_PER_WORD as nat), gas_limit) {
        Ok(gas_used) => Ok((gas_used, sha256_of(input))),
        Err(e) => Err(e),
    }
}

/// The result of the RIPEMD-160 precompile on `input` under `gas_limit`.
pub open spec fn ripemd160_result(input: Seq<u8>, gas_limit: u64) -> ResultModel {
    match charged(
        linear_cost(input.len(), RIPEMD160_BASE as nat, RIPEMD160_PER_WORD as nat),
        gas_limit,
    ) {
        Ok(gas_used) => Ok((gas_used, word_padded(ripemd160_of(input)))),
        Err(e) => Err(e),
    }
}

/// Checks a computed cost against the caller's budget.
pub fn charge(cost: u128, gas_limit: u64) -> (r: Result<u64, PrecompileError>)
    ensures
        r == charged(cost as nat, gas_limit),
{
    if cost > gas_limit as u128 {
        Err(PrecompileError::OutOfGas)
    } else {
        Ok(cost as u64)
    }
}

/// Right-aligns `digest` in a 32-byte word, zero-filling the leading bytes.
pub fn left_pad_to_word(digest: &[u8]) -> (r: Vec<u8>)
    requires
        digest@.len() <= 32,
    ensures
        r@ == word_padded(digest@),
        r@.len() == 32,
{
    let pad: usize = OUTPUT_WORD_LEN - digest.len();
    let mut out: Vec<u8> = Vec::new();
    let mut i: usize = 0;
    while i < pad
        invariant
            i <= pad,
            pad == 32 - digest@.len(),
            out@ =~= Seq::new(i as nat, |k: int| 0u8),
        decreases pad - i,
    {
        out.push(0u8);
        i = i + 1;
    }
    let mut j: usize = 0;
    while j < digest.len()
        invariant
            j <= digest@.len(),
            pad == 32 - digest@.len(),
            out@ =~= Seq::new(pad as nat, |k: int| 0u8) + digest@.subrange(0, j as int),
        decreases digest@.len() - j,
    {
        out.push(digest[j]);
        j = j + 1;
    }
    assert(digest@.subrange(0, digest@.len() as int) =~= digest@);
    out
}

/// The SHA-256 precompile: charges 60 gas plus 12 per started word of input
/// and returns the 32-byte SHA-256 digest of the input.
pub fn sha256_run(input: &[u8], gas_limit: u64) -> (r: PrecompileResult)
    ensures
        result_view(r) == sha256_result(input@, gas_limit),
        r matches Ok(o) ==> o.bytes@.len() == 32,
{
    let cost = calc_linear_cost(input.len(), SHA256_BASE, SHA256_PER_WORD);
    match charge(cost, gas_limit) {
        Err(e) => Err(e),
        Ok(gas_used) => {
            let digest = sha256_digest(input);
            Ok(PrecompileOutput::new(gas_used, digest))
        },
    }
}

/// The RIPEMD-160 precompile: charges 600 gas plus 120 per started word of
/// input and returns the 20-byte RIPEMD-160 digest right-aligned in a 32-byte word.
pub fn ripemd160_run(input: &[u8], gas_limit: u64) -> (r: PrecompileResult)
    ensures
        result_view(r) == ripemd160_result(input@, gas_limit),
        r matches Ok(o) ==> o.bytes@.len() == 32,
        r matches Ok(o) ==> (forall|i: int| 0 <= i < 12 ==> o.bytes@[i] == 0u8),
        r matches Ok(o) ==> o.bytes@.subrange(12, 32) == ripemd160_of(input@),
{
    let gas_used = calc_linear_cost(input.len(), RIPEMD160_BASE, RIPEMD160_PER_WORD);
    match charge(gas_used, gas_limit) {
        Err(e) => Err(e),
        Ok(gas_used) => {
            let digest = ripemd160_digest(input);
            let output = left_pad_to_word(digest.as_slice());
            assert(output@.subrange(12, 32) =~= digest@);
            Ok(PrecompileOutput::new(gas_used, output))
        },
    }
}

} // verus!
