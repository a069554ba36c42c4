//! The participant ledger: one record per participant.
//!
//! It records who owns it and what the authority has credited to the owner.
//! Credits pile up over any number of grants and are paid out whole, in one
//! withdrawal.

use vstd::prelude::*;
use crate::custody::{SigningCapability, TransferAuthority, TransferRequest};
use crate::error::ErrorCode;
use crate::identity::Identity;
use crate::state::escrow::EscrowAccount;

verus! {

/// The participant ledger.
#[derive(Clone, Copy, Debug, PartialEq, Eq)]
pub struct UserAccount {
    /// Who controls this record.
    pub owner: Identity,
    /// Set by a grant, cleared by a withdrawal.
    pub is_eligible: bool,
    /// What is owed to the owner and not yet withdrawn.
    pub payout_amount: u64,
    /// Bump seed of the record's own address.
    pub bump: u8,
    /// Set once, by `init`, and never cleared.
    pub initialized: bool,
}

impl UserAccount {
    /// The record that `init` leaves behind.
    pub open spec fn opened(owner: Identity, bump: u8) -> UserAccount {
        UserAccount { owner, is_eligible: false, payout_amount: 0, bump, initialized: true }
    }

    /// The record after a grant of `amount`: eligible, and owed that much
    /// more.
    pub open spec fn after_grant(self, amount: u64) -> UserAccount
        recommends
            self.payout_amount + amount <= u64::MAX,
    {
        UserAccount {
            is_eligible: true,
            payout_amount: (self.payout_amount + amount) as u64,
            ..self
        }
    }

    /// The record with its entitlement consumed: nothing owed, not eligible.
    pub open spec fn cleared(self) -> UserAccount {
        UserAccount { is_eligible: false, payout_amount: 0, ..self }
    }

    /// The request that a bet of `escrow`'s stake issues: from the bettor's
    /// funding account into the vault, on the bettor's own signature.
    pub open spec fn stake_request(
        escrow: EscrowAccount,
        owner: Identity,
        escrow_token_account: Identity,
        user_token_account: Identity,
    ) -> TransferRequest {
        TransferRequest {
            from: user_token_account,
            to: escrow_token_account,
            amount: escrow.min_bet_amount,
            authority: TransferAuthority::Owner(owner),
        }
    }

    /// The request that a withdrawal of `amount` issues: out of the vault
    /// into the receiving account, on the delegated signature of `escrow`
    /// itself.
    pub open spec fn payout_request(
        escrow: EscrowAccount,
        amount: u64,
        escrow_token_account: Identity,
        user_token_account: Identity,
    ) -> TransferRequest {
        TransferRequest {
            from: escrow_token_account,
            to: user_token_account,
            amount,
            authority: TransferAuthority::Escrow(SigningCapability::with_bump(escrow.bump)),
        }
    }

    /// Whether `init` has run on this record.
    pub fn is_initialized(&self) -> (initialized: bool)
        ensures
            initialized == self.initialized,
    {
        self.initialized
    }

    fn is_eligible(&self) -> (eligible: bool)
        ensures
            eligible == self.is_eligible,
    {
        self.is_eligible
    }

    /// Sets the record up for `owner`, once. A second call is refused and
    /// changes nothing.
    pub fn init(&mut self, owner: Identity, bump: u8) -> (result: Result<(), ErrorCode>)
        ensures
            old(self).initialized ==> {
                &&& result matches Err(ErrorCode::AlreadyInitialized)
                &&& *final(self) == *old(self)
            },
            !old(self).initialized ==> {
                &&& result == Ok::<(), ErrorCode>(())
                &&& *final(self) == UserAccount::opened(owner, bump)
            },
    {
        if self.is_initialized() {
            return Err(ErrorCode::AlreadyInitialized);
        }
        self.owner = owner;
        self.is_eligible = false;
        self.payout_amount = 0;
        self.bump = bump;
        self.initialized = true;
        Ok(())
    }

    /// Credits `payout_amount` to the participant and marks them eligible.
    /// Credits add up; a grant never replaces an earlier one. No funds move
    /// and the escrow is not involved.
    ///
    /// A record that was never set up is refused and left as it was.
    pub fn add_payout(&mut self, payout_amount: u64) -> (result: Result<(), ErrorCode>)
        requires
            old(self).initialized ==> old(self).payout_amount + payout_amount <= u64::MAX,
        ensures
            !old(self).initialized ==> {
                &&& result matches Err(ErrorCode::NotInitialized)
                &&& *final(self) == *old(self)
            },
            old(self).initialized ==> {
                &&& result == Ok::<(), ErrorCode>(())
                &&& *final(self) == old(self).after_grant(payout_amount)
                &&& final(self).is_eligible
                &&& final(self).payout_amount == old(self).payout_amount + payout_amount
            },
    {
        if !self.is_initialized() {
            return Err(ErrorCode::NotInitialized);
        }
        self.is_eligible = true;
        self.payout_amount += payout_amount;
        Ok(())
    }

    /// Places one bet of the escrow's fixed stake.
    ///
    /// The vault that the caller presents must be the one the escrow was set
    /// up with; any other is refused with `NotEligible` and nothing changes.
    /// Otherwise the pot and the custodial balance both grow by the stake, and
    /// the result asks the custody service to move the stake from the bettor's
    /// funding account into the vault on the bettor's signature. The
    /// participant record itself is not touched.
    pub fn bet(
        &mut self,
        escrow_account: &mut EscrowAccount,
        owner: Identity,
        escrow_token_account: Identity,
        user_token_account: Identity,
    ) -> (result: Result<TransferRequest, ErrorCode>)
        requires
            old(self).initialized,
            old(escrow_account).usdc_token_account == escrow_token_account
                ==> old(escrow_account).has_room_for_bet(),
        ensures
            *final(self) == *old(self),
            old(escrow_account).usdc_token_account != escrow_token_account ==> {
                &&& result matches Err(ErrorCode::NotEligible)
                &&& *final(escrow_account) == *old(escrow_account)
            },
            old(escrow_account).usdc_token_account == escrow_token_account ==> {
                &&& result matches Ok(request)
                &&& request == UserAccount::stake_request(
                    *old(escrow_account),
                    owner,
                    escrow_token_account,
                    user_token_account,
                )
                &&& *final(escrow_account) == old(escrow_account).after_bet()
                &&& final(escrow_account).pot == old(escrow_account).pot
                    + old(escrow_account).min_bet_amount
                &&& final(escrow_account).usdc_balance == old(escrow_account).usdc_balance
                    + old(escrow_account).min_bet_amount
            },
            old(escrow_account).pot <= old(escrow_account).usdc_balance
                ==> final(escrow_account).pot <= final(escrow_account).usdc_balance,
    {
        if !(escrow_account.usdc_token_account == escrow_token_account) {
            return Err(ErrorCode::NotEligible);
        }
        let stake: u64 = escrow_account.min_bet_amount;
        escrow_account.pot += stake as u128;
        escrow_account.usdc_balance += stake as u128;
        Ok(
            TransferRequest {
                from: user_token_account,
                to: escrow_token_account,
                amount: stake,
                authority: TransferAuthority::Owner(owner),
            },
        )
    }

    /// Pays out everything the participant is owed, in one go.
    ///
    /// The steps, in order:
    /// 1. A participant who is not eligible is refused with `NotEligible`;
    ///    nothing changes.
    /// 2. The entitlement is consumed: nothing is owed any more and the
    ///    participant is no longer eligible. This holds from here on, also
    ///    where a later step refuses.
    /// 3. If nothing was owed, the call is refused with `NoAmountToWithdraw`.
    /// 4. If the custodial balance cannot cover what was owed, the call is
    ///    refused with `Underflow` and the balance stays as it was. Otherwise
    ///    the balance shrinks by exactly that amount.
    /// 5. The result asks the custody service to move the amount out of the
    ///    vault into the receiving account, on the escrow's own delegated
    ///    signature.
    pub fn withdraw(
        &mut self,
        escrow: &mut EscrowAccount,
        escrow_token_account: Identity,
        user_token_account: Identity,
    ) -> (result: Result<TransferRequest, ErrorCode>)
        ensures
            !old(self).is_eligible ==> {
                &&& result matches Err(ErrorCode::NotEligible)
                &&& *final(self) == *old(self)
                &&& *final(escrow) == *old(escrow)
            },
            old(self).is_eligible ==> *final(self) == old(self).cleared(),
            old(self).is_eligible && old(self).payout_amount == 0 ==> {
                &&& result matches Err(ErrorCode::NoAmountToWithdraw)
                &&& *final(escrow) == *old(escrow)
            },
            old(self).is_eligible && old(self).payout_amount > old(escrow).usdc_balance ==> {
                &&& result matches Err(ErrorCode::Underflow)
                &&& *final(escrow) == *old(escrow)
            },
            old(self).is_eligible && 0 < old(self).payout_amount <= old(escrow).usdc_balance ==> {
                &&& result matches Ok(request)
                &&& request == UserAccount::payout_request(
                    *old(escrow),
                    old(self).payout_amount,
                    escrow_token_account,
                    user_token_account,
                )
                &&& *final(escrow) == old(escrow).after_withdrawal(old(self).payout_amount)
                &&& final(self).payout_amount == 0
                &&& !final(self).is_eligible
                &&& final(escrow).usdc_balance == old(escrow).usdc_balance
                    - old(self).payout_amount
            },
    {
        if !self.is_eligible() {
            return Err(ErrorCode::NotEligible);
        }
        let amount: u64 = self.payout_amount;
        self.payout_amount = 0;
        self.is_eligible = false;

        if amount == 0 {
            return Err(ErrorCode::NoAmountToWithdraw);
        }
        let remaining_escrow_balance: u128 = match escrow.usdc_balance.checked_sub(amount as u128) {
            Some(el) => el,
            None => {
                return Err(ErrorCode::Underflow);
            },
        };
        escrow.usdc_balance = remaining_escrow_balance;

        Ok(
            TransferRequest {
                from: escrow_token_account,
                to: user_token_account,
                amount,
                authority: TransferAuthority::Escrow(escrow.signing_capability()),
            },
        )
    }
}

impl UserAccount {
    /// Grants add up. After a grant of `a` and one of `b`, in either order,
    /// the participant is eligible and is owed `a + b` more than before: the
    /// same as after one grant of `a + b`, and no less than after either grant
    /// alone.
    pub proof fn lemma_grants_add_up(user: UserAccount, a: u64, b: u64)
        requires
            user.payout_amount + a + b <= u64::MAX,
        ensures
            user.after_grant(a).after_grant(b).payout_amount == user.payout_amount + a + b,
            user.after_grant(a).after_grant(b).is_eligible,
            user.after_grant(a).after_grant(b) == user.after_grant(b).after_grant(a),
            user.after_grant(a).after_grant(b) == user.after_grant((a + b) as u64),
            user.after_grant(a).after_grant(b).payout_amount >= user.after_grant(a).payout_amount,
            user.after_grant(a).after_grant(b).payout_amount >= user.after_grant(b).payout_amount,
            user.after_grant(a).after_grant(b).payout_amount >= a,
            user.after_grant(a).after_grant(b).payout_amount >= b,
    {
    }
}

impl Default for UserAccount {
    /// A vacant record: not initialized, nothing owed.
    fn default() -> (user: UserAccount)
        ensures
            !user.initialized,
            user.owner@ == Identity::zero_bytes(),
            !user.is_eligible,
            user.payout_amount == 0,
            user.bump == 0,
    {
        UserAccount {
            owner: Identity::default(),
            is_eligible: false,
            payout_amount: 0,
            bump: 0,
            initialized: false,
        }
    }
}

} // verus!
