//! Identities: the 32-byte keys that name participants, arbiters and records.

use vstd::prelude::*;
use vstd::std_specs::cmp::PartialEqSpecImpl;

verus! {

/// A 32-byte identity.
#[derive(Clone, Copy, Debug)]
pub struct Identity {
    pub bytes: [u8; 32],
}

impl View for Identity {
    type V = Seq<u8>;

    open spec fn view(&self) -> Seq<u8> {
        self.bytes@
    }
}

impl Identity {
    /// The identity made of the given bytes.
    pub fn new(bytes: [u8; 32]) -> (id: Identity)
        ensures
            id.bytes == bytes,
    {
        Identity { bytes }
    }

    /// The bytes of the identity.
    pub fn to_bytes(&self) -> (bytes: [u8; 32])
        ensures
            bytes == self.bytes,
    {
        self.bytes
    }

    /// The bytes of the identity in a vector.
    pub fn to_vec(&self) -> (bytes: Vec<u8>)
        ensures
            bytes@ == self@,
    {
        let mut bytes: Vec<u8> = Vec::new();
        let mut i: usize = 0;
        while i < 32
            invariant
                i <= 32,
                bytes@.len() == i,
                forall|j: int| 0 <= j < i ==> bytes@[j] == self.bytes[j],
            decreases 32 - i,
        {
            bytes.push(self.bytes[i]);
            i = i + 1;
        }
        assert(bytes@ =~= self@);
        bytes
    }
}

impl PartialEq for Identity {
    fn eq(&self, other: &Identity) -> (same: bool) {
        let mut i: usize = 0;
        while i < 32
            invariant
                i <= 32,
                forall|j: int| 0 <= j < i ==> self.bytes[j] == other.bytes[j],
            decreases 32 - i,
        {
            if self.bytes[i] != other.bytes[i] {
                return false;
            }
            i = i + 1;
        }
        proof {
            assert(self.bytes =~= other.bytes);
        }
        true
    }
}

impl Eq for Identity {}

impl PartialEqSpecImpl for Identity {
    open spec fn obeys_eq_spec() -> bool {
        true
    }

    open spec fn eq_spec(&self, other: &Identity) -> bool {
        *self == *other
    }
}

} // verus!
