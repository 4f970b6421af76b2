//! What a precompile call hands back: gas used and output bytes, or an error.

use vstd::prelude::*;

verus! {

/// The closed set of ways a precompile call can fail.
#[derive(Clone, Copy, Debug, PartialEq, Eq, Structural)]
pub enum PrecompileError {
    /// The computed cost exceeds the caller's gas limit.
    OutOfGas,
    /// The precompile is gated off under the active fork configuration.
    NotImplemented,
}

/// A successful call: the gas it consumed and the bytes it returned.
#[derive(Clone, Debug, PartialEq, Eq)]
pub struct PrecompileOutput {
    pub gas_used: u64,
    pub bytes: Vec<u8>,
}

impl View for PrecompileOutput {
    type V = (u64, Seq<u8>);

    open spec fn view(&self) -> (u64, Seq<u8>) {
        (self.gas_used, self.bytes@)
    }
}

impl PrecompileOutput {
    pub fn new(gas_used: u64, bytes: Vec<u8>) -> (r: PrecompileOutput)
        ensures
            r.gas_used == gas_used,
            r.bytes@ == bytes@,
    {
        PrecompileOutput { gas_used, bytes }
    }
}

pub type PrecompileResult = Result<PrecompileOutput, PrecompileError>;

/// The mathematical value of a call's result.
pub type ResultModel = Result<(u64, Seq<u8>), PrecompileError>;

pub open spec fn result_view(r: PrecompileResult) -> ResultModel {
    match r {
        Ok(o) => Ok(o@),
        Err(e) => Err(e),
    }
}

} // verus!
