//! Closing a round.

use vstd::prelude::*;
use crate::error::ErrorCode;
use crate::identity::Identity;
use crate::state::escrow::EscrowAccount;

verus! {

/// What closing a round works on.
#[derive(Clone, Copy, Debug, PartialEq, Eq)]
pub struct ResetGameweek {
    /// The escrow record.
    pub escrow_account: EscrowAccount,
    /// The caller.
    pub authority: Identity,
}

impl ResetGameweek {
    /// The caller is the escrow's authority.
    pub open spec fn is_authorized(self) -> bool {
        self.escrow_account.authority == self.authority
    }

    /// What closing the round answers.
    pub open spec fn outcome(self) -> Result<(), ErrorCode> {
        if !self.is_authorized() {
            Err(ErrorCode::NotAuthorized)
        } else {
            Ok(())
        }
    }

    /// What closing the round leaves behind: the pot empty and the custodial
    /// balance as it was, or, on refusal, everything as it was.
    pub open spec fn after(self) -> ResetGameweek {
        if self.outcome() is Ok {
            ResetGameweek { escrow_account: self.escrow_account.after_reset(), ..self }
        } else {
            self
        }
    }
}

/// Closes the round: the pot goes back to zero, the custodial balance stays.
/// Anyone but the escrow's authority is refused with `NotAuthorized`, and
/// nothing changes.
pub fn handler(ctx: &mut ResetGameweek) -> (result: Result<(), ErrorCode>)
    ensures
        result == old(ctx).outcome(),
        *final(ctx) == old(ctx).after(),
        result is Err ==> *final(ctx) == *old(ctx),
        result is Ok ==> {
            &&& final(ctx).escrow_account.pot == 0
            &&& final(ctx).escrow_account.usdc_balance == old(ctx).escrow_account.usdc_balance
        },
{
    if !ctx.escrow_account.is_owner(ctx.authority) {
        return Err(ErrorCode::NotAuthorized);
    }
    ctx.escrow_account.reset_gameweek()
}

} // verus!
