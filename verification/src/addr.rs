//! Account addresses.
//!
//! The host environment identifies every account, program and user by a
//! 32-byte address.  The core only ever copies and compares addresses, so it
//! holds them as plain bytes.

use vstd::prelude::*;
use crate::ADDRESS_LEN;

verus! {

/// A 32-byte account address.
#[derive(Debug)]
pub struct Address {
    bytes: Vec<u8>,
}

impl View for Address {
    type V = Seq<u8>;

    closed spec fn view(&self) -> Seq<u8> {
        self.bytes@
    }
}

impl Address {
    /// Every address is exactly [`ADDRESS_LEN`] bytes.
    #[verifier::type_invariant]
    pub open spec fn wf(self) -> bool {
        self@.len() == ADDRESS_LEN
    }

    /// Builds an address from exactly [`ADDRESS_LEN`] bytes.
    pub fn from_bytes(bytes: Vec<u8>) -> (r: Option<Address>)
        ensures
            match r {
                Some(a) => bytes@.len() == ADDRESS_LEN && a@ == bytes@,
                None => bytes@.len() != ADDRESS_LEN,
            },
    {
        if bytes.len() == ADDRESS_LEN {
            Some(Address { bytes })
        } else {
            None
        }
    }

    /// The address's bytes.
    pub fn as_bytes(&self) -> (r: &Vec<u8>)
        ensures
            r@ == self@,
    {
        &self.bytes
    }

}

impl Clone for Address {
    fn clone(&self) -> (r: Address)
        ensures
            r@ == self@,
    {
        proof {
            use_type_invariant(self);
        }
        let bytes = self.bytes.clone();
        proof {
            assert(bytes@ =~= self.bytes@);
        }
        Address { bytes }
    }
}

impl PartialEq for Address {
    fn eq(&self, other: &Address) -> (r: bool) {
        let r = self.bytes == other.bytes;
        proof {
            if r {
                assert(self.bytes@ =~= other.bytes@);
            }
        }
        r
    }
}

impl Eq for Address {}

impl vstd::std_specs::cmp::PartialEqSpecImpl for Address {
    open spec fn obeys_eq_spec() -> bool {
        true
    }

    open spec fn eq_spec(&self, other: &Address) -> bool {
        self@ == other@
    }
}

} // verus!
