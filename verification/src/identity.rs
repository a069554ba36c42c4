//! Identities: the 32-byte keys that name authorities, participants, mints and
//! vaults.

use vstd::prelude::*;
use vstd::std_specs::cmp::PartialEqSpecImpl;

verus! {

/// Number of bytes in an identity.
pub const IDENTITY_LEN: usize = 32;

/// A 32-byte key. The ledger never interprets the bytes: it stores identities
/// and compares them, nothing more.
#[derive(Clone, Copy, Debug, Eq, Hash)]
pub struct Identity {
    pub bytes: [u8; 32],
}

impl View for Identity {
    type V = Seq<u8>;

    open spec fn view(&self) -> Seq<u8> {
        self.bytes@
    }
}

impl Identity {
    /// The identity with the given bytes.
    pub fn new(bytes: [u8; 32]) -> (id: Identity)
        ensures
            id.bytes == bytes,
            id@ == bytes@,
    {
        Identity { bytes }
    }

    /// The bytes of this identity.
    pub fn to_bytes(&self) -> (bytes: [u8; 32])
        ensures
            bytes == self.bytes,
            bytes@ == self@,
    {
        self.bytes
    }

    /// Two identities are the same exactly when their byte sequences are.
    pub proof fn lemma_equal_iff_same_bytes(a: Identity, b: Identity)
        ensures
            (a == b) <==> (a@ == b@),
    {
        if a@ == b@ {
            assert(a.bytes =~= b.bytes);
        }
    }
}

impl PartialEq for Identity {
    /// Compares the two keys byte by byte.
    fn eq(&self, other: &Identity) -> (same: bool) {
        let mut i: usize = 0;
        while i < IDENTITY_LEN
            invariant
                i <= IDENTITY_LEN,
                forall|j: int| 0 <= j < i ==> self.bytes[j] == other.bytes[j],
            decreases IDENTITY_LEN - i,
        {
            if self.bytes[i] != other.bytes[i] {
                return false;
            }
            i += 1;
        }
        proof {
            assert(self.bytes =~= other.bytes);
        }
        true
    }
}

impl PartialEqSpecImpl for Identity {
    open spec fn obeys_eq_spec() -> bool {
        true
    }

    open spec fn eq_spec(&self, other: &Identity) -> bool {
        *self == *other
    }
}

impl Default for Identity {
    /// The all-zero identity, which is what a vacant record holds.
    fn default() -> (id: Identity)
        ensures
            id@ == Identity::zero_bytes(),
    {
        let id = Identity { bytes: [0u8; 32] };
        proof {
            assert(id@ =~= Identity::zero_bytes());
        }
        id
    }
}

impl Identity {
    /// Thirty-two zero bytes.
    pub open spec fn zero_bytes() -> Seq<u8> {
        Seq::new(32, |i: int| 0u8)
    }
}

} // verus!
