//! Placing a bet.

use vstd::prelude::*;
use crate::custody::TransferRequest;
use crate::error::ErrorCode;
use crate::identity::Identity;
use crate::state::escrow::EscrowAccount;
use crate::state::user::UserAccount;

verus! {

/// What a bet works on.
#[derive(Clone, Copy, Debug, PartialEq, Eq)]
pub struct Bet {
    /// The bettor's participant record.
    pub user_account: UserAccount,
    /// The escrow record.
    pub escrow_account: EscrowAccount,
    /// The vault that the bettor wants the stake paid into.
    pub escrow_token_account: Identity,
    /// The bettor's funding account.
    pub user_token_account: Identity,
    /// The caller.
    pub owner: Identity,
}

impl Bet {
    /// The caller owns the participant record.
    pub open spec fn is_authorized(self) -> bool {
        self.user_account.owner == self.owner
    }

    /// The vault presented is the one the escrow was set up with.
    pub open spec fn names_the_vault(self) -> bool {
        self.escrow_account.usdc_token_account == self.escrow_token_account
    }

    /// What the bet answers.
    pub open spec fn outcome(self) -> Result<TransferRequest, ErrorCode> {
        if !self.is_authorized() {
            Err(ErrorCode::NotAuthorized)
        } else if !self.names_the_vault() {
            Err(ErrorCode::NotEligible)
        } else {
            Ok(
                UserAccount::stake_request(
                    self.escrow_account,
                    self.owner,
                    self.escrow_token_account,
                    self.user_token_account,
                ),
            )
        }
    }

    /// What the bet leaves behind: on success the escrow with one more stake in
    /// both counters; on refusal everything as it was.
    pub open spec fn after(self) -> Bet {
        if self.outcome() is Ok {
            Bet { escrow_account: self.escrow_account.after_bet(), ..self }
        } else {
            self
        }
    }

    /// Closes the bet once the custody service has answered the request that
    /// `handler` issued. `before` is the context as it stood when `handler`
    /// was called. A transfer that went through leaves the books as `handler`
    /// wrote them; a rejected one puts them back, as if the bet had never
    /// been placed.
    pub fn settle(&mut self, before: Bet, transferred: bool)
        ensures
            transferred ==> *final(self) == *old(self),
            !transferred ==> *final(self) == before,
    {
        if !transferred {
            *self = before;
        }
    }
}

/// Places one bet of the fixed stake for the caller.
///
/// A caller who does not own the participant record is refused with
/// `NotAuthorized`; a vault other than the escrow's is refused with
/// `NotEligible`. A refusal changes nothing. Otherwise the pot and the
/// custodial balance both grow by the stake, and the result is the transfer of
/// the stake for the custody service to carry out.
pub fn handler(ctx: &mut Bet) -> (result: Result<TransferRequest, ErrorCode>)
    requires
        old(ctx).user_account.initialized,
        old(ctx).is_authorized() && old(ctx).names_the_vault()
            ==> old(ctx).escrow_account.has_room_for_bet(),
    ensures
        result == old(ctx).outcome(),
        *final(ctx) == old(ctx).after(),
        result is Err ==> *final(ctx) == *old(ctx),
{
    if !(ctx.user_account.owner == ctx.owner) {
        return Err(ErrorCode::NotAuthorized);
    }
    let mut user_account = ctx.user_account;
    let mut escrow_account = ctx.escrow_account;
    let result = user_account.bet(
        &mut escrow_account,
        ctx.owner,
        ctx.escrow_token_account,
        ctx.user_token_account,
    );
    if result.is_ok() {
        ctx.escrow_account = escrow_account;
    }
    result
}

} // verus!
