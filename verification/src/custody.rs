//! Transfer requests: what the ledger asks of the token-custody service.
//!
//! The ledger never moves funds itself. A fund-moving operation updates the
//! books and hands back a [`TransferRequest`]; whoever runs the operation
//! submits it to the custody service.

use vstd::prelude::*;

verus! {

/// The bytes that tag every derivation made on behalf of the escrow record.
pub open spec fn escrow_seed() -> Seq<u8> {
    seq![101u8, 115u8, 99u8, 114u8, 111u8, 119u8]
}

/// The seed list that a capability with the given bump signs with: the escrow
/// tag, then the bump as a single byte.
pub open spec fn signer_seeds(bump: u8) -> Seq<Seq<u8>> {
    seq![escrow_seed(), seq![bump]]
}

/// The escrow record's delegated right to release funds from its vault.
///
/// Only an escrow record can mint one, so holding a capability is proof that
/// an escrow record stood behind the request.
#[derive(Clone, Copy, Debug, PartialEq, Eq, Structural)]
pub struct SigningCapability {
    bump: u8,
}

impl SigningCapability {
    /// The capability of the escrow record with the given bump seed.
    pub closed spec fn with_bump(bump: u8) -> SigningCapability {
        SigningCapability { bump }
    }

    /// The bump seed that the capability was derived with.
    pub closed spec fn bump(self) -> u8 {
        self.bump
    }

    /// Derives the capability of the escrow record with the given bump seed.
    pub(crate) fn derive(bump: u8) -> (cap: SigningCapability)
        ensures
            cap == SigningCapability::with_bump(bump),
    {
        SigningCapability { bump }
    }

    /// The bump seed that the capability was derived with.
    pub fn bump_seed(&self) -> (bump: u8)
        ensures
            bump == self.bump(),
    {
        self.bump
    }

    /// The seed list for the custody service to re-derive the escrow's signing
    /// identity from.
    pub fn seeds(&self) -> (seeds: Vec<Vec<u8>>)
        ensures
            seeds@.map_values(|seed: Vec<u8>| seed@) == signer_seeds(self.bump()),
    {
        let mut tag: Vec<u8> = Vec::new();
        tag.push(101u8);
        tag.push(115u8);
        tag.push(99u8);
        tag.push(114u8);
        tag.push(111u8);
        tag.push(119u8);
        let mut bump: Vec<u8> = Vec::new();
        bump.push(self.bump);
        let mut seeds: Vec<Vec<u8>> = Vec::new();
        seeds.push(tag);
        seeds.push(bump);
        proof {
            assert(seeds@[0]@ =~= escrow_seed());
            assert(seeds@[1]@ =~= seq![self.bump]);
            assert(seeds@.map_values(|seed: Vec<u8>| seed@) =~= signer_seeds(self.bump()));
        }
        seeds
    }

    /// A capability is nothing more than its bump seed.
    pub proof fn lemma_capability_is_its_bump(cap: SigningCapability, bump: u8)
        ensures
            SigningCapability::with_bump(bump).bump() == bump,
            SigningCapability::with_bump(cap.bump()) == cap,
    {
    }
}

/// Who authorizes a transfer.
#[derive(Clone, Copy, Debug, PartialEq, Eq)]
pub enum TransferAuthority {
    /// The named end user, by their own signature.
    Owner(crate::identity::Identity),
    /// The escrow record, through its delegated signing capability.
    Escrow(SigningCapability),
}

/// A request to move `amount` from one custody account to another.
#[derive(Clone, Copy, Debug, PartialEq, Eq)]
pub struct TransferRequest {
    /// The account debited.
    pub from: crate::identity::Identity,
    /// The account credited.
    pub to: crate::identity::Identity,
    /// How much moves.
    pub amount: u64,
    /// Who vouches for the movement.
    pub authority: TransferAuthority,
}

} // verus!
