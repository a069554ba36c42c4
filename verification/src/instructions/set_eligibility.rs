//! Granting a payout.

use vstd::prelude::*;
use crate::error::ErrorCode;
use crate::identity::Identity;
use crate::state::escrow::EscrowAccount;
use crate::state::user::UserAccount;

verus! {

/// What a grant works on.
#[derive(Clone, Copy, Debug, PartialEq, Eq)]
pub struct SetEligibility {
    /// The record of the participant who is granted the payout.
    pub user_account: UserAccount,
    /// The escrow record.
    pub escrow_account: EscrowAccount,
    /// The caller.
    pub authority: Identity,
}

impl SetEligibility {
    /// The caller is the escrow's authority.
    pub open spec fn is_authorized(self) -> bool {
        self.escrow_account.authority == self.authority
    }

    /// What the grant answers.
    pub open spec fn outcome(self) -> Result<(), ErrorCode> {
        if !self.is_authorized() {
            Err(ErrorCode::NotAuthorized)
        } else if !self.user_account.initialized {
            Err(ErrorCode::NotInitialized)
        } else {
            Ok(())
        }
    }

    /// What the grant leaves behind: the participant eligible and owed
    /// `payout_amount` more, the escrow untouched; on refusal everything as it
    /// was.
    pub open spec fn after(self, payout_amount: u64) -> SetEligibility {
        if self.outcome() is Ok {
            SetEligibility { user_account: self.user_account.after_grant(payout_amount), ..self }
        } else {
            self
        }
    }
}

/// Credits `payout_amount` to a participant and marks them eligible; credits
/// add up over grants. The identity handed in names the participant whose
/// record the caller looked up and handed in; the grant itself does not read
/// it.
///
/// Anyone but the escrow's authority is refused with `NotAuthorized`; a
/// participant record that was never set up is refused with `NotInitialized`.
/// A refusal changes nothing. No funds move and the escrow record is never
/// written.
pub fn handler(
    ctx: &mut SetEligibility,
    _user_account_pubkey: Identity,
    payout_amount: u64,
) -> (result: Result<(), ErrorCode>)
    requires
        old(ctx).outcome() is Ok
            ==> old(ctx).user_account.payout_amount + payout_amount <= u64::MAX,
    ensures
        result == old(ctx).outcome(),
        *final(ctx) == old(ctx).after(payout_amount),
        result is Err ==> *final(ctx) == *old(ctx),
        result is Ok ==> {
            &&& final(ctx).user_account.is_eligible
            &&& final(ctx).user_account.payout_amount == old(ctx).user_account.payout_amount
                + payout_amount
        },
{
    if !ctx.escrow_account.is_owner(ctx.authority) {
        return Err(ErrorCode::NotAuthorized);
    }
    ctx.user_account.add_payout(payout_amount)
}

} // verus!
