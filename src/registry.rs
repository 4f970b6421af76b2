//! Address-keyed precompile table, its dispatch, and the pre-activation
//! variant that gates precompiles off until their fork.

use crate::address::{address_of, be_byte, u64_to_address, Address};
use crate::hash::{ripemd160_result, ripemd160_run, sha256_result, sha256_run};
use crate::output::{result_view, PrecompileError, PrecompileResult, ResultModel};
use vstd::prelude::*;

verus! {

/// Address value of the SHA-256 precompile.
pub const SHA256_ADDRESS: u64 = 2;

/// Address value of the RIPEMD-160 precompile.
pub const RIPEMD160_ADDRESS: u64 = 3;

/// A stateless precompile: a pure function of input bytes and gas limit.
#[derive(Clone, Copy, Debug, PartialEq, Eq, Structural)]
pub enum StandardPrecompile {
    Sha256,
    Ripemd160,
    /// The stub that stands at a gated address until its fork activates.
    NotImplemented,
}

/// The callable stored at a precompile address.
#[derive(Clone, Copy, Debug, PartialEq, Eq, Structural)]
pub enum Precompile {
    Standard(StandardPrecompile),
}

impl Precompile {
    /// What calling this precompile on `input` under `gas_limit` gives.
    pub open spec fn spec_call(self, input: Seq<u8>, gas_limit: u64) -> ResultModel {
        match self {
            Precompile::Standard(StandardPrecompile::Sha256) => sha256_result(input, gas_limit),
            Precompile::Standard(StandardPrecompile::Ripemd160) => ripemd160_result(
                input,
                gas_limit,
            ),
            Precompile::Standard(StandardPrecompile::NotImplemented) => Err(
                PrecompileError::NotImplemented,
            ),
        }
    }

    /// Runs the precompile once.
    pub fn call(&self, input: &[u8], gas_limit: u64) -> (r: PrecompileResult)
        ensures
            result_view(r) == self.spec_call(input@, gas_limit),
    {
        match self {
            Precompile::Standard(StandardPrecompile::Sha256) => sha256_run(input, gas_limit),
            Precompile::Standard(StandardPrecompile::Ripemd160) => ripemd160_run(input, gas_limit),
            Precompile::Standard(StandardPrecompile::NotImplemented) => Err(
                PrecompileError::NotImplemented,
            ),
        }
    }
}

/// A precompile together with the address it is reached at.
#[derive(Clone, Copy, Debug, PartialEq, Eq)]
pub struct PrecompileWithAddress {
    pub address: Address,
    pub precompile: Precompile,
}

impl View for PrecompileWithAddress {
    type V = (Seq<u8>, Precompile);

    open spec fn view(&self) -> (Seq<u8>, Precompile) {
        (self.address@, self.precompile)
    }
}

/// The SHA-256 precompile at its address.
pub fn sha256() -> (r: PrecompileWithAddress)
    ensures
        r@ == (address_of(SHA256_ADDRESS), Precompile::Standard(StandardPrecompile::Sha256)),
{
    PrecompileWithAddress {
        address: u64_to_address(SHA256_ADDRESS),
        precompile: Precompile::Standard(StandardPrecompile::Sha256),
    }
}

/// The RIPEMD-160 precompile at its address.
pub fn ripemd160() -> (r: PrecompileWithAddress)
    ensures
        r@ == (address_of(RIPEMD160_ADDRESS), Precompile::Standard(StandardPrecompile::Ripemd160)),
{
    PrecompileWithAddress {
        address: u64_to_address(RIPEMD160_ADDRESS),
        precompile: Precompile::Standard(StandardPrecompile::Ripemd160),
    }
}

/// The always-failing stub at the SHA-256 address, for chains where that
/// precompile has not activated yet.
pub fn sha256_pre_activation() -> (r: PrecompileWithAddress)
    ensures
        r@ == (address_of(SHA256_ADDRESS), Precompile::Standard(StandardPrecompile::NotImplemented)),
{
    PrecompileWithAddress {
        address: u64_to_address(SHA256_ADDRESS),
        precompile: Precompile::Standard(StandardPrecompile::NotImplemented),
    }
}

/// The always-failing stub at the RIPEMD-160 address, for chains where that
/// precompile has not activated yet.
pub fn ripemd160_pre_activation() -> (r: PrecompileWithAddress)
    ensures
        r@ == (
            address_of(RIPEMD160_ADDRESS),
            Precompile::Standard(StandardPrecompile::NotImplemented),
        ),
{
    PrecompileWithAddress {
        address: u64_to_address(RIPEMD160_ADDRESS),
        precompile: Precompile::Standard(StandardPrecompile::NotImplemented),
    }
}

/// The precompile registered at `address` in `entries`, if any.
pub open spec fn lookup_in(entries: Seq<(Seq<u8>, Precompile)>, address: Seq<u8>) -> Option<
    Precompile,
>
    decreases entries.len(),
{
    if entries.len() == 0 {
        None
    } else if entries[0].0 == address {
        Some(entries[0].1)
    } else {
        lookup_in(entries.subrange(1, entries.len() as int), address)
    }
}

/// What dispatching a call to `address` in `entries` gives: `None` when no
/// precompile is registered there, else the result of calling it once.
pub open spec fn dispatch_in(
    entries: Seq<(Seq<u8>, Precompile)>,
    address: Seq<u8>,
    input: Seq<u8>,
    gas_limit: u64,
) -> Option<ResultModel> {
    match lookup_in(entries, address) {
        Some(p) => Some(p.spec_call(input, gas_limit)),
        None => None,
    }
}

/// The entries of the hash precompile table: working precompiles when
/// `activated`, the failing stubs at the same addresses otherwise.
pub open spec fn hash_entries(activated: bool) -> Seq<(Seq<u8>, Precompile)> {
    if activated {
        seq![
            (address_of(SHA256_ADDRESS), Precompile::Standard(StandardPrecompile::Sha256)),
            (address_of(RIPEMD160_ADDRESS), Precompile::Standard(StandardPrecompile::Ripemd160)),
        ]
    } else {
        seq![
            (address_of(SHA256_ADDRESS), Precompile::Standard(StandardPrecompile::NotImplemented)),
            (address_of(RIPEMD160_ADDRESS), Precompile::Standard(StandardPrecompile::NotImplemented)),
        ]
    }
}

/// No address occurs twice among `entries`.
pub open spec fn addresses_unique(entries: Seq<(Seq<u8>, Precompile)>) -> bool {
    forall|i: int, j: int|
        0 <= i < entries.len() && 0 <= j < entries.len() && i != j ==> entries[i].0 != entries[j].0
}

/// In the table built before the hash precompiles activate, a call to
/// either gated address fails with `NotImplemented`, for every input and
/// every gas limit, the largest included.
pub proof fn lemma_pre_activation_refuses(input: Seq<u8>, gas_limit: u64)
    ensures
        dispatch_in(hash_entries(false), address_of(SHA256_ADDRESS), input, gas_limit) == Some(
            Err::<(u64, Seq<u8>), PrecompileError>(PrecompileError::NotImplemented),
        ),
        dispatch_in(hash_entries(false), address_of(RIPEMD160_ADDRESS), input, gas_limit) == Some(
            Err::<(u64, Seq<u8>), PrecompileError>(PrecompileError::NotImplemented),
        ),
{
    lemma_hash_addresses_differ();
    let e = hash_entries(false);
    let tail = e.subrange(1, e.len() as int);
    assert(tail[0] == e[1]);
    assert(lookup_in(e, address_of(SHA256_ADDRESS)) == Some(e[0].1));
    assert(lookup_in(tail, address_of(RIPEMD160_ADDRESS)) == Some(e[1].1));
    assert(lookup_in(e, address_of(RIPEMD160_ADDRESS)) == Some(e[1].1));
}

/// Calling one precompile twice with the same input and gas limit gives
/// the same result: the same error, or the same gas used and output bytes.
pub proof fn lemma_call_deterministic(
    p: Precompile,
    input: Seq<u8>,
    gas_limit: u64,
    first: PrecompileResult,
    second: PrecompileResult,
)
    requires
        result_view(first) == p.spec_call(input, gas_limit),
        result_view(second) == p.spec_call(input, gas_limit),
    ensures
        result_view(first) == result_view(second),
        first is Ok <==> second is Ok,
        first matches Ok(a) ==> second matches Ok(b) && a.gas_used == b.gas_used && a.bytes@ == b.bytes@,
        first matches Err(a) ==> second matches Err(b) && a == b,
{
}

/// A read-only table of precompiles keyed by address.
pub struct Precompiles {
    entries: Vec<PrecompileWithAddress>,
}

impl View for Precompiles {
    type V = Seq<(Seq<u8>, Precompile)>;

    closed spec fn view(&self) -> Seq<(Seq<u8>, Precompile)> {
        self.entries@.map_values(|e: PrecompileWithAddress| e@)
    }
}

/// The SHA-256 and RIPEMD-160 addresses differ.
proof fn lemma_hash_addresses_differ()
    ensures
        address_of(SHA256_ADDRESS) != address_of(RIPEMD160_ADDRESS),
{
    assert(((2u64 >> 0u64) & 0xffu64) == 2u64) by (bit_vector);
    assert(((3u64 >> 0u64) & 0xffu64) == 3u64) by (bit_vector);
    assert(be_byte(SHA256_ADDRESS, 7) == 2u8);
    assert(be_byte(RIPEMD160_ADDRESS, 7) == 3u8);
    assert(address_of(SHA256_ADDRESS)[19] != address_of(RIPEMD160_ADDRESS)[19]);
}

impl Precompiles {
    /// Addresses within the table are unique.
    pub open spec fn wf(&self) -> bool {
        addresses_unique(self@)
    }

    /// Builds the hash precompile table for a fork configuration: the
    /// working precompiles when `activated`, else stubs that refuse every
    /// call with `NotImplemented`.
    pub fn hashes(activated: bool) -> (r: Precompiles)
        ensures
            r@ == hash_entries(activated),
            r.wf(),
    {
        let mut entries: Vec<PrecompileWithAddress> = Vec::new();
        if activated {
            entries.push(sha256());
            entries.push(ripemd160());
        } else {
            entries.push(sha256_pre_activation());
            entries.push(ripemd160_pre_activation());
        }
        let r = Precompiles { entries };
        proof {
            lemma_hash_addresses_differ();
            assert(r@ =~= hash_entries(activated));
        }
        r
    }

    /// Builds a table from `entries`, or `None` when two of them share an
    /// address.
    pub fn from_entries(entries: Vec<PrecompileWithAddress>) -> (r: Option<Precompiles>)
        ensures
            r is Some <==> addresses_unique(entries@.map_values(|e: PrecompileWithAddress| e@)),
            r matches Some(t) ==> t@ == entries@.map_values(|e: PrecompileWithAddress| e@),
            r matches Some(t) ==> t.wf(),
    {
        let ghost v = entries@.map_values(|e: PrecompileWithAddress| e@);
        let mut i: usize = 0;
        while i < entries.len()
            invariant
                i <= entries@.len(),
                v == entries@.map_values(|e: PrecompileWithAddress| e@),
                forall|a: int, b: int| 0 <= a < i && 0 <= b < entries@.len() && a != b ==> v[a].0 != v[b].0,
            decreases entries@.len() - i,
        {
            let mut j: usize = 0;
            while j < entries.len()
                invariant
                    i < entries@.len(),
                    j <= entries@.len(),
                    v == entries@.map_values(|e: PrecompileWithAddress| e@),
                    forall|a: int, b: int| 0 <= a < i && 0 <= b < entries@.len() && a != b ==> v[a].0 != v[b].0,
                    forall|b: int| 0 <= b < j && b != i ==> v[i as int].0 != v[b].0,
                decreases entries@.len() - j,
            {
                if j != i && entries[i].address.same_as(&entries[j].address) {
                    assert(v[i as int].0 == v[j as int].0);
                    return None;
                }
                j = j + 1;
            }
            i = i + 1;
        }
        Some(Precompiles { entries })
    }

    /// Number of registered precompiles.
    pub fn len(&self) -> (r: usize)
        ensures
            r == self@.len(),
    {
        self.entries.len()
    }

    /// The precompile registered at `address`, if any.
    pub fn lookup(&self, address: &Address) -> (r: Option<Precompile>)
        ensures
            r == lookup_in(self@, address@),
    {
        let mut i: usize = 0;
        assert(self@.subrange(0, self@.len() as int) =~= self@);
        while i < self.entries.len()
            invariant
                i <= self@.len(),
                lookup_in(self@, address@) == lookup_in(
                    self@.subrange(i as int, self@.len() as int),
                    address@,
                ),
            decreases self@.len() - i,
        {
            let ghost rest = self@.subrange(i as int, self@.len() as int);
            assert(rest[0] == self@[i as int]);
            assert(self@[i as int] == self.entries@[i as int]@);
            assert(rest.subrange(1, rest.len() as int) =~= self@.subrange(
                i + 1,
                self@.len() as int,
            ));
            if self.entries[i].address.same_as(address) {
                return Some(self.entries[i].precompile);
            }
            i = i + 1;
        }
        None
    }

    /// Calls the precompile at `address` once; `None` when none is
    /// registered there, deciding which is left to the caller.
    pub fn dispatch(&self, address: &Address, input: &[u8], gas_limit: u64) -> (r: Option<
        PrecompileResult,
    >)
        ensures
            r matches Some(res) ==> dispatch_in(self@, address@, input@, gas_limit) == Some(
                result_view(res),
            ),
            r is None <==> dispatch_in(self@, address@, input@, gas_limit) is None,
    {
        match self.lookup(address) {
            Some(p) => Some(p.call(input, gas_limit)),
            None => None,
        }
    }
}

} // verus!
