//! Accounting and authorization core of a custodial escrow for a recurring
//! wagering game.
//!
//! Participants stake a fixed amount into a shared pot for a round, the
//! authority later credits payouts to participants, and participants withdraw
//! what they were credited. This crate keeps the books: two records
//! ([`state`]), six operations on them ([`instructions`], and the entry points
//! below), and the requests it issues to the service that holds the funds
//! ([`custody`]). It moves no funds and stores nothing itself.
//!
//! Every operation is atomic: it either succeeds and changes the records as
//! its contract says, or it is refused with one [`error::ErrorCode`] and
//! changes nothing.

use vstd::prelude::*;
use crate::custody::TransferRequest;
use crate::error::ErrorCode;
use crate::identity::Identity;
use crate::instructions::bet::Bet;
use crate::instructions::initialize_escrow::EscrowInitialize;
use crate::instructions::initialize_user::InitializeUser;
use crate::instructions::reset_gameweek::ResetGameweek;
use crate::instructions::set_eligibility::SetEligibility;
use crate::instructions::withdraw::Withdraw;

pub mod custody;
pub mod error;
pub mod identity;
pub mod instructions;
pub mod state;

verus! {

/// Sets the escrow record up, with the caller as its authority.
///
/// Works as [`instructions::initialize_escrow::handler`] does.
pub fn initialize_escrow(
    ctx: &mut EscrowInitialize,
    usdc_mint: Identity,
    usdc_token_account: Identity,
    min_bet_amount: u64,
    decimals: u8,
) -> (result: Result<(), ErrorCode>)
    ensures
        result == old(ctx).outcome(),
        *final(ctx) == old(ctx).after(usdc_mint, usdc_token_account, min_bet_amount, decimals),
{
    instructions::initialize_escrow::handler(
        ctx,
        usdc_mint,
        usdc_token_account,
        min_bet_amount,
        decimals,
    )
}

/// Sets a participant record up, with the caller as its owner.
///
/// Works as [`instructions::initialize_user::handler`] does.
pub fn initialize_user(ctx: &mut InitializeUser) -> (result: Result<(), ErrorCode>)
    ensures
        result == old(ctx).outcome(),
        *final(ctx) == old(ctx).after(),
{
    instructions::initialize_user::handler(ctx)
}

/// Places one bet of the fixed stake for the caller.
///
/// Works as [`instructions::bet::handler`] does.
pub fn bet(ctx: &mut Bet) -> (result: Result<TransferRequest, ErrorCode>)
    requires
        old(ctx).user_account.initialized,
        old(ctx).is_authorized() && old(ctx).names_the_vault()
            ==> old(ctx).escrow_account.has_room_for_bet(),
    ensures
        result == old(ctx).outcome(),
        *final(ctx) == old(ctx).after(),
{
    instructions::bet::handler(ctx)
}

/// Closes the round.
///
/// Works as [`instructions::reset_gameweek::handler`] does.
pub fn reset_gameweek(ctx: &mut ResetGameweek) -> (result: Result<(), ErrorCode>)
    ensures
        result == old(ctx).outcome(),
        *final(ctx) == old(ctx).after(),
{
    instructions::reset_gameweek::handler(ctx)
}

/// Credits a payout to a participant.
///
/// Works as [`instructions::set_eligibility::handler`] does.
pub fn set_eligibility(
    ctx: &mut SetEligibility,
    user_account_pubkey: Identity,
    payout_amount: u64,
) -> (result: Result<(), ErrorCode>)
    requires
        old(ctx).outcome() is Ok
            ==> old(ctx).user_account.payout_amount + payout_amount <= u64::MAX,
    ensures
        result == old(ctx).outcome(),
        *final(ctx) == old(ctx).after(payout_amount),
{
    instructions::set_eligibility::handler(ctx, user_account_pubkey, payout_amount)
}

/// Pays the caller everything they are owed.
///
/// Works as [`instructions::withdraw::handler`] does.
pub fn withdraw(ctx: &mut Withdraw) -> (result: Result<TransferRequest, ErrorCode>)
    ensures
        result == old(ctx).outcome(),
        *final(ctx) == old(ctx).after(),
{
    instructions::withdraw::handler(ctx)
}

} // verus!
