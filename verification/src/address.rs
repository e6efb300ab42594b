//! Contract addresses.

use vstd::prelude::*;

verus! {

/// A 20-byte contract address.
#[derive(Clone, Copy, Debug, PartialEq, Eq)]
pub struct Address {
    pub bytes: [u8; 20],
}

impl Address {
    /// The address whose bytes are all zero: what a template handler reports
    /// until a concrete address is supplied at run time.
    pub fn zero() -> (address: Address)
        ensures
            address.is_zero(),
    {
        Address { bytes: [0u8; 20] }
    }

    /// Whether every byte of the address is zero.
    pub open spec fn is_zero(&self) -> bool {
        forall|i: int| 0 <= i < 20 ==> self.bytes@[i] == 0u8
    }
}

} // verus!
