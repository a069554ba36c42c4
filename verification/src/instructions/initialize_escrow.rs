//! Setting up the escrow record.

use vstd::prelude::*;
use crate::error::ErrorCode;
use crate::identity::Identity;
use crate::state::escrow::EscrowAccount;

verus! {

/// What setting up the escrow works on.
#[derive(Clone, Copy, Debug, PartialEq, Eq)]
pub struct EscrowInitialize {
    /// The escrow record to set up.
    pub escrow_account: EscrowAccount,
    /// The caller, who becomes the escrow's authority.
    pub signer: Identity,
    /// Bump seed of the record's address.
    pub bump: u8,
}

impl EscrowInitialize {
    /// What the set-up answers.
    pub open spec fn outcome(self) -> Result<(), ErrorCode> {
        if self.escrow_account.initialized {
            Err(ErrorCode::AlreadyInitialized)
        } else {
            Ok(())
        }
    }

    /// What the set-up leaves behind: a fresh record with the caller as
    /// authority and both counters at zero, or, where the record was set up
    /// before, that record untouched.
    pub open spec fn after(
        self,
        usdc_mint: Identity,
        usdc_token_account: Identity,
        min_bet_amount: u64,
        decimals: u8,
    ) -> EscrowInitialize {
        if self.outcome() is Ok {
            EscrowInitialize {
                escrow_account: EscrowAccount::opened(
                    self.signer,
                    usdc_mint,
                    usdc_token_account,
                    min_bet_amount,
                    decimals,
                    self.bump,
                ),
                ..self
            }
        } else {
            self
        }
    }
}

/// Sets the escrow record up with the caller as its authority. A record that
/// was set up before is refused with `AlreadyInitialized` and keeps the values
/// of the first call.
pub fn handler(
    ctx: &mut EscrowInitialize,
    usdc_mint: Identity,
    usdc_token_account: Identity,
    min_bet_amount: u64,
    decimals: u8,
) -> (result: Result<(), ErrorCode>)
    ensures
        result == old(ctx).outcome(),
        *final(ctx) == old(ctx).after(usdc_mint, usdc_token_account, min_bet_amount, decimals),
        result is Err ==> *final(ctx) == *old(ctx),
{
    let authority = ctx.signer;
    let bump = ctx.bump;
    ctx.escrow_account.init(
        authority,
        usdc_mint,
        usdc_token_account,
        min_bet_amount,
        decimals,
        bump,
    )
}

} // verus!
