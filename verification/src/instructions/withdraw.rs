//! Withdrawing a payout.

use vstd::prelude::*;
use crate::custody::TransferRequest;
use crate::error::ErrorCode;
use crate::identity::Identity;
use crate::state::escrow::EscrowAccount;
use crate::state::user::UserAccount;

verus! {

/// What a withdrawal works on.
#[derive(Clone, Copy, Debug, PartialEq, Eq)]
pub struct Withdraw {
    /// The caller's participant record.
    pub user_account: UserAccount,
    /// The escrow record.
    pub escrow_account: EscrowAccount,
    /// The vault that pays.
    pub escrow_token_account: Identity,
    /// The caller's receiving account.
    pub user_token_account: Identity,
    /// The caller.
    pub owner: Identity,
}

impl Withdraw {
    /// The caller owns the participant record.
    pub open spec fn is_authorized(self) -> bool {
        self.user_account.owner == self.owner
    }

    /// What the withdrawal answers.
    pub open spec fn outcome(self) -> Result<TransferRequest, ErrorCode> {
        if !self.is_authorized() {
            Err(ErrorCode::NotAuthorized)
        } else if !self.user_account.is_eligible {
            Err(ErrorCode::NotEligible)
        } else if self.user_account.payout_amount == 0 {
            Err(ErrorCode::NoAmountToWithdraw)
        } else if self.user_account.payout_amount > self.escrow_account.usdc_balance {
            Err(ErrorCode::Underflow)
        } else {
            Ok(
                UserAccount::payout_request(
                    self.escrow_account,
                    self.user_account.payout_amount,
                    self.escrow_token_account,
                    self.user_token_account,
                ),
            )
        }
    }

    /// What the withdrawal leaves behind: on success the entitlement consumed
    /// and the custodial balance smaller by it; on refusal everything as it
    /// was.
    pub open spec fn after(self) -> Withdraw {
        if self.outcome() is Ok {
            Withdraw {
                user_account: self.user_account.cleared(),
                escrow_account: self.escrow_account.after_withdrawal(
                    self.user_account.payout_amount,
                ),
                ..self
            }
        } else {
            self
        }
    }

    /// An entitlement is paid out once: straight after a withdrawal that went
    /// through, a second one is refused with `NotEligible`.
    pub proof fn lemma_second_withdrawal_is_refused(ctx: Withdraw)
        requires
            ctx.outcome() is Ok,
        ensures
            ctx.after().outcome() matches Err(ErrorCode::NotEligible),
            ctx.after().after() == ctx.after(),
    {
    }

    /// Closes the withdrawal once the custody service has answered the request
    /// that `handler` issued. `before` is the context as it stood when
    /// `handler` was called. A transfer that went through leaves the books as
    /// `handler` wrote them; a rejected one puts them back, entitlement
    /// included, as if the withdrawal had never been asked for.
    pub fn settle(&mut self, before: Withdraw, transferred: bool)
        ensures
            transferred ==> *final(self) == *old(self),
            !transferred ==> *final(self) == before,
    {
        if !transferred {
            *self = before;
        }
    }
}

/// Pays the caller everything they are owed.
///
/// Refused with `NotAuthorized` for a caller who does not own the participant
/// record, `NotEligible` for a participant who is not eligible,
/// `NoAmountToWithdraw` for one who is owed nothing, and `Underflow` where the
/// custodial balance cannot cover what is owed. A refusal changes nothing.
/// Otherwise the entitlement is consumed whole, the custodial balance shrinks
/// by it, and the result is the transfer for the custody service to carry out.
pub fn handler(ctx: &mut Withdraw) -> (result: Result<TransferRequest, ErrorCode>)
    ensures
        result == old(ctx).outcome(),
        *final(ctx) == old(ctx).after(),
        result is Err ==> *final(ctx) == *old(ctx),
        result is Ok ==> {
            &&& final(ctx).user_account.payout_amount == 0
            &&& !final(ctx).user_account.is_eligible
            &&& final(ctx).escrow_account.usdc_balance == old(ctx).escrow_account.usdc_balance
                - old(ctx).user_account.payout_amount
        },
{
    if !(ctx.user_account.owner == ctx.owner) {
        return Err(ErrorCode::NotAuthorized);
    }
    let mut user_account = ctx.user_account;
    let mut escrow_account = ctx.escrow_account;
    let result = user_account.withdraw(
        &mut escrow_account,
        ctx.escrow_token_account,
        ctx.user_token_account,
    );
    if result.is_ok() {
        ctx.user_account = user_account;
        ctx.escrow_account = escrow_account;
    }
    result
}

} // verus!
