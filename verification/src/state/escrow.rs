//! The escrow ledger: one record per deployment.
//!
//! It keeps two independent counters. `pot` is what was staked in the current
//! round and goes back to zero at each round boundary; `usdc_balance` is what
//! the vault holds for all participants over all rounds, and only bets and
//! withdrawals move it.

use vstd::prelude::*;
use crate::custody::SigningCapability;
use crate::error::ErrorCode;
use crate::identity::Identity;

verus! {

/// The escrow ledger.
#[derive(Clone, Copy, Debug, PartialEq, Eq)]
pub struct EscrowAccount {
    /// Who may reset the round and grant payouts.
    pub authority: Identity,
    /// The mint of the staked token.
    pub usdc_mint: Identity,
    /// The vault that bets are paid into and withdrawals are paid from.
    pub usdc_token_account: Identity,
    /// The fixed stake of one bet.
    pub min_bet_amount: u64,
    /// Total staked in the current round.
    pub pot: u128,
    /// Total held in custody, over all rounds.
    pub usdc_balance: u128,
    /// Decimals of the staked token.
    pub decimals: u8,
    /// Bump seed of the record's own address.
    pub bump: u8,
    /// Set once, by `init`, and never cleared.
    pub initialized: bool,
}

/// What can happen to the escrow's counters between withdrawals.
pub enum RoundEvent {
    /// A participant placed a bet.
    Bet,
    /// The authority closed the round.
    Reset,
}

/// How many bets a history holds.
pub open spec fn bets_in(events: Seq<RoundEvent>) -> nat
    decreases events.len(),
{
    if events.len() == 0 {
        0
    } else {
        let earlier = bets_in(events.drop_last());
        match events.last() {
            RoundEvent::Bet => earlier + 1,
            RoundEvent::Reset => earlier,
        }
    }
}

/// How many bets a history holds after its last reset (all of them, if it
/// holds no reset).
pub open spec fn bets_since_reset(events: Seq<RoundEvent>) -> nat
    decreases events.len(),
{
    if events.len() == 0 {
        0
    } else {
        match events.last() {
            RoundEvent::Bet => bets_since_reset(events.drop_last()) + 1,
            RoundEvent::Reset => 0,
        }
    }
}

/// Whether a history holds a reset.
pub open spec fn has_reset(events: Seq<RoundEvent>) -> bool {
    exists|i: int| 0 <= i < events.len() && events[i] is Reset
}

impl EscrowAccount {
    /// The record that `init` leaves behind.
    pub open spec fn opened(
        authority: Identity,
        usdc_mint: Identity,
        usdc_token_account: Identity,
        min_bet_amount: u64,
        decimals: u8,
        bump: u8,
    ) -> EscrowAccount {
        EscrowAccount {
            authority,
            usdc_mint,
            usdc_token_account,
            min_bet_amount,
            pot: 0,
            usdc_balance: 0,
            decimals,
            bump,
            initialized: true,
        }
    }

    /// Whether this record and `other` differ in their counters at most.
    pub open spec fn same_setup(self, other: EscrowAccount) -> bool {
        self == (EscrowAccount { pot: self.pot, usdc_balance: self.usdc_balance, ..other })
    }

    /// Whether both counters have room for one more stake.
    pub open spec fn has_room_for_bet(self) -> bool {
        &&& self.pot + self.min_bet_amount <= u128::MAX
        &&& self.usdc_balance + self.min_bet_amount <= u128::MAX
    }

    /// The record after one bet: both counters grow by the stake.
    pub open spec fn after_bet(self) -> EscrowAccount
        recommends
            self.has_room_for_bet(),
    {
        EscrowAccount {
            pot: (self.pot + self.min_bet_amount) as u128,
            usdc_balance: (self.usdc_balance + self.min_bet_amount) as u128,
            ..self
        }
    }

    /// The record after a round reset: the pot is empty, all else is as it was.
    pub open spec fn after_reset(self) -> EscrowAccount {
        EscrowAccount { pot: 0, ..self }
    }

    /// The record after `amount` left custody.
    pub open spec fn after_withdrawal(self, amount: u64) -> EscrowAccount
        recommends
            amount <= self.usdc_balance,
    {
        EscrowAccount { usdc_balance: (self.usdc_balance - amount) as u128, ..self }
    }

    /// The record after a history of bets and resets, oldest first.
    pub open spec fn after_events(self, events: Seq<RoundEvent>) -> EscrowAccount
        decreases events.len(),
    {
        if events.len() == 0 {
            self
        } else {
            let earlier = self.after_events(events.drop_last());
            match events.last() {
                RoundEvent::Bet => earlier.after_bet(),
                RoundEvent::Reset => earlier.after_reset(),
            }
        }
    }

    /// Whether `init` has run on this record.
    pub fn is_initialized(&self) -> (initialized: bool)
        ensures
            initialized == self.initialized,
    {
        self.initialized
    }

    /// Whether `caller` is the escrow's authority.
    pub fn is_owner(&self, caller: Identity) -> (owner: bool)
        ensures
            owner == (self.authority == caller),
    {
        self.authority == caller
    }

    /// Sets the record up, once. A second call is refused and changes nothing.
    pub fn init(
        &mut self,
        authority: Identity,
        usdc_mint: Identity,
        usdc_token_account: Identity,
        min_bet_amount: u64,
        decimals: u8,
        bump: u8,
    ) -> (result: Result<(), ErrorCode>)
        ensures
            old(self).initialized ==> {
                &&& result matches Err(ErrorCode::AlreadyInitialized)
                &&& *final(self) == *old(self)
            },
            !old(self).initialized ==> {
                &&& result == Ok::<(), ErrorCode>(())
                &&& *final(self) == EscrowAccount::opened(
                    authority,
                    usdc_mint,
                    usdc_token_account,
                    min_bet_amount,
                    decimals,
                    bump,
                )
            },
    {
        if self.is_initialized() {
            return Err(ErrorCode::AlreadyInitialized);
        }
        self.authority = authority;
        self.usdc_mint = usdc_mint;
        self.usdc_token_account = usdc_token_account;
        self.min_bet_amount = min_bet_amount;
        self.decimals = decimals;
        self.pot = 0;
        self.usdc_balance = 0;
        self.bump = bump;
        self.initialized = true;
        Ok(())
    }

    /// Closes the round: empties the pot and touches nothing else. Funds stay
    /// in custody across the boundary.
    pub fn reset_gameweek(&mut self) -> (result: Result<(), ErrorCode>)
        ensures
            result == Ok::<(), ErrorCode>(()),
            *final(self) == old(self).after_reset(),
            final(self).pot == 0,
            final(self).usdc_balance == old(self).usdc_balance,
    {
        self.pot = 0;
        Ok(())
    }

    /// The escrow's delegated right to sign for transfers out of its vault.
    pub fn signing_capability(&self) -> (cap: SigningCapability)
        ensures
            cap == SigningCapability::with_bump(self.bump),
    {
        SigningCapability::derive(self.bump)
    }
}

impl EscrowAccount {
    /// Closing a round twice is the same as closing it once.
    pub proof fn lemma_reset_is_idempotent(escrow: EscrowAccount)
        ensures
            escrow.after_reset().after_reset() == escrow.after_reset(),
            escrow.after_reset().pot == 0,
            escrow.after_reset().usdc_balance == escrow.usdc_balance,
    {
    }

    /// Whatever happens to the counters, the set-up of the record stays: the
    /// authority, the mint, the vault, the stake, the decimals, the bump seed
    /// and the mark that the record is initialized.
    pub proof fn lemma_setup_is_kept(escrow: EscrowAccount, amount: u64)
        ensures
            escrow.after_bet().same_setup(escrow),
            escrow.after_reset().same_setup(escrow),
            escrow.after_withdrawal(amount).same_setup(escrow),
    {
    }

    /// A history never holds fewer bets than any of its beginnings, nor more
    /// bets since its last reset than bets in all.
    pub proof fn lemma_bets_in_grows(events: Seq<RoundEvent>, k: int)
        requires
            0 <= k <= events.len(),
        ensures
            bets_in(events.take(k)) <= bets_in(events),
            bets_since_reset(events) <= bets_in(events),
        decreases events.len(),
    {
        if events.len() > 0 {
            let earlier = events.drop_last();
            if k == events.len() {
                assert(events.take(k) =~= events);
                Self::lemma_bets_in_grows(earlier, 0);
            } else {
                assert(events.take(k) =~= earlier.take(k));
                Self::lemma_bets_in_grows(earlier, k);
            }
        } else {
            assert(events.take(k) =~= events);
        }
    }

    /// Take a record whose pot does not exceed its custodial balance, and any
    /// history of bets and resets, oldest first, that the counters have room
    /// for. Then:
    /// - the custodial balance grows by exactly one stake per bet, resets or
    ///   no resets;
    /// - the pot holds one stake per bet since the last reset, on top of what
    ///   it held at the start if the round was never closed;
    /// - the pot still does not exceed the custodial balance;
    /// - nothing else in the record changes.
    pub proof fn lemma_bets_and_resets(escrow: EscrowAccount, events: Seq<RoundEvent>)
        requires
            escrow.pot <= escrow.usdc_balance,
            escrow.usdc_balance + bets_in(events) * escrow.min_bet_amount <= u128::MAX,
        ensures
            escrow.after_events(events).usdc_balance == escrow.usdc_balance + bets_in(events)
                * escrow.min_bet_amount,
            escrow.after_events(events).pot == (if has_reset(events) {
                0
            } else {
                escrow.pot as int
            }) + bets_since_reset(events) * escrow.min_bet_amount,
            escrow.after_events(events).pot <= escrow.after_events(events).usdc_balance,
            escrow.after_events(events).same_setup(escrow),
        decreases events.len(),
    {
        if events.len() > 0 {
            let earlier = events.drop_last();
            let stake = escrow.min_bet_amount as int;
            let n = bets_in(earlier) as int;
            let m = bets_since_reset(earlier) as int;
            Self::lemma_bets_in_grows(earlier, 0);
            assert((n + 1) * stake == n * stake + stake) by (nonlinear_arith);
            assert((m + 1) * stake == m * stake + stake) by (nonlinear_arith);
            assert(0 <= m * stake <= n * stake) by (nonlinear_arith)
                requires
                    0 <= m <= n,
                    0 <= stake,
            ;
            Self::lemma_bets_and_resets(escrow, earlier);
            match events.last() {
                RoundEvent::Bet => {
                    assert(has_reset(events) == has_reset(earlier)) by {
                        if has_reset(events) {
                            let i = choose|i: int| 0 <= i < events.len() && events[i] is Reset;
                            assert(earlier[i] is Reset);
                        }
                        if has_reset(earlier) {
                            let i = choose|i: int| 0 <= i < earlier.len() && earlier[i] is Reset;
                            assert(events[i] is Reset);
                        }
                    }
                },
                RoundEvent::Reset => {
                    assert(events[events.len() - 1] is Reset);
                    assert(0 * stake == 0) by (nonlinear_arith);
                },
            }
        } else {
            assert(0 * (escrow.min_bet_amount as int) == 0) by (nonlinear_arith);
        }
    }

    /// Within a history that the counters have room for, every bet finds room
    /// for its stake in the record as the events before it left it.
    pub proof fn lemma_every_bet_has_room(
        escrow: EscrowAccount,
        events: Seq<RoundEvent>,
        k: int,
    )
        requires
            escrow.pot <= escrow.usdc_balance,
            escrow.usdc_balance + bets_in(events) * escrow.min_bet_amount <= u128::MAX,
            0 <= k < events.len(),
            events[k] is Bet,
        ensures
            escrow.after_events(events.take(k)).has_room_for_bet(),
    {
        let upto = events.take(k + 1);
        let stake = escrow.min_bet_amount as int;
        Self::lemma_bets_in_grows(events, k + 1);
        assert(upto.drop_last() =~= events.take(k));
        assert(upto.last() == events[k]);
        let n = bets_in(events.take(k)) as int;
        assert(bets_in(upto) == n + 1);
        assert((n + 1) * stake == n * stake + stake) by (nonlinear_arith);
        assert((n + 1) * stake <= bets_in(events) * stake) by (nonlinear_arith)
            requires
                n + 1 <= bets_in(events),
                0 <= stake,
        ;
        assert(0 <= n * stake) by (nonlinear_arith)
            requires
                0 <= n,
                0 <= stake,
        ;
        Self::lemma_bets_and_resets(escrow, events.take(k));
    }
}

impl Default for EscrowAccount {
    /// A vacant record: not initialized, all counters zero.
    fn default() -> (escrow: EscrowAccount)
        ensures
            !escrow.initialized,
            escrow.authority@ == Identity::zero_bytes(),
            escrow.usdc_mint@ == Identity::zero_bytes(),
            escrow.usdc_token_account@ == Identity::zero_bytes(),
            escrow.min_bet_amount == 0,
            escrow.pot == 0,
            escrow.usdc_balance == 0,
            escrow.decimals == 0,
            escrow.bump == 0,
    {
        EscrowAccount {
            authority: Identity::default(),
            usdc_mint: Identity::default(),
            usdc_token_account: Identity::default(),
            min_bet_amount: 0,
            pot: 0,
            usdc_balance: 0,
            decimals: 0,
            bump: 0,
            initialized: false,
        }
    }
}

} // verus!
