//! Twenty-byte account addresses, as used to key precompiles.

use vstd::prelude::*;

verus! {

/// Width of an address in bytes.
pub const ADDRESS_LEN: usize = 20;

/// A 20-byte account address.
#[derive(Clone, Copy, Debug, PartialEq, Eq)]
pub struct Address {
    pub bytes: [u8; 20],
}

impl View for Address {
    type V = Seq<u8>;

    open spec fn view(&self) -> Seq<u8> {
        self.bytes@
    }
}

/// Byte `k` (0 = most significant) of the big-endian encoding of `x`.
pub open spec fn be_byte(x: u64, k: int) -> u8 {
    ((x >> ((8 * (7 - k)) as u64)) & 0xff) as u8
}

/// The address whose value is `x`: twelve zero bytes followed by the eight
/// big-endian bytes of `x`.
pub open spec fn address_of(x: u64) -> Seq<u8> {
    Seq::new(20, |i: int| if i < 12 { 0u8 } else { be_byte(x, i - 12) })
}

impl Address {
    /// Compares two addresses byte by byte.
    pub fn same_as(&self, other: &Address) -> (r: bool)
        ensures
            r == (self@ == other@),
    {
        let mut i: usize = 0;
        while i < ADDRESS_LEN
            invariant
                i <= 20,
                self@.len() == 20,
                other@.len() == 20,
                forall|j: int| 0 <= j < i ==> self@[j] == other@[j],
            decreases 20 - i,
        {
            if self.bytes[i] != other.bytes[i] {
                return false;
            }
            i = i + 1;
        }
        assert(self@ =~= other@);
        true
    }
}

/// Builds the address whose value is `x`, left-padded with zeros.
pub fn u64_to_address(x: u64) -> (r: Address)
    ensures
        r@ == address_of(x),
{
    let mut bytes = [0u8; 20];
    let mut i: usize = 12;
    while i < ADDRESS_LEN
        invariant
            12 <= i <= 20,
            bytes@.len() == 20,
            forall|j: int| 0 <= j < 12 ==> bytes@[j] == 0u8,
            forall|j: int| 12 <= j < i ==> bytes@[j] == be_byte(x, j - 12),
        decreases 20 - i,
    {
        let shift: u64 = (8 * (19 - i)) as u64;
        bytes[i] = ((x >> shift) & 0xff) as u8;
        i = i + 1;
    }
    let r = Address { bytes };
    assert(r@ =~= address_of(x));
    r
}

} // verus!
