//! Addresses: the handles by which identities and assets are named.
use vstd::prelude::*;
use vstd::std_specs::cmp::PartialEqSpecImpl;

verus! {

/// A 32-byte handle. It names an identity (a payer, an authority, the holder
/// of a token account) or an asset. The crate never looks inside one: all it
/// asks is whether two of them are the same, which they are when every byte
/// agrees.
#[derive(Clone, Copy, Debug, Eq, Hash)]
#[verifier::ext_equal]
pub struct Address {
    pub bytes: [u8; 32],
}

impl PartialEq for Address {
    fn eq(&self, other: &Address) -> (same: bool) {
        let mut i: usize = 0;
        while i < 32
            invariant
                i <= 32,
                forall|k: int| 0 <= k < i ==> self.bytes[k] == other.bytes[k],
            decreases 32 - i,
        {
            if self.bytes[i] != other.bytes[i] {
                return false;
            }
            i += 1;
        }
        assert(*self =~= *other);
        true
    }
}

impl PartialEqSpecImpl for Address {
    open spec fn obeys_eq_spec() -> bool {
        true
    }

    open spec fn eq_spec(&self, other: &Address) -> bool {
        *self == *other
    }
}

impl Address {
    /// The address made of `bytes`.
    pub fn new(bytes: [u8; 32]) -> (address: Address)
        ensures
            address.bytes == bytes,
    {
        Address { bytes }
    }

    /// The bytes of the address.
    pub fn to_bytes(&self) -> (bytes: [u8; 32])
        ensures
            bytes == self.bytes,
    {
        self.bytes
    }
}

/// Whether an optional address is present and is `expected`.
pub fn is_address(candidate: &Option<Address>, expected: &Address) -> (same: bool)
    ensures
        same == (*candidate == Some(*expected)),
{
    match candidate {
        Some(address) => *address == *expected,
        None => false,
    }
}

} // verus!
