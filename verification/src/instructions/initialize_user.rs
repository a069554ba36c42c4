//! Setting up a participant record.

use vstd::prelude::*;
use crate::error::ErrorCode;
use crate::identity::Identity;
use crate::state::user::UserAccount;

verus! {

/// What setting up a participant works on.
#[derive(Clone, Copy, Debug, PartialEq, Eq)]
pub struct InitializeUser {
    /// The participant record to set up.
    pub user_account: UserAccount,
    /// The caller, who becomes the record's owner.
    pub owner: Identity,
    /// Bump seed of the record's address.
    pub bump: u8,
}

impl InitializeUser {
    /// The record is vacant, or it is the caller's own.
    pub open spec fn is_authorized(self) -> bool {
        !self.user_account.initialized || self.user_account.owner == self.owner
    }

    /// What the set-up answers.
    pub open spec fn outcome(self) -> Result<(), ErrorCode> {
        if !self.is_authorized() {
            Err(ErrorCode::NotAuthorized)
        } else if self.user_account.initialized {
            Err(ErrorCode::AlreadyInitialized)
        } else {
            Ok(())
        }
    }

    /// What the set-up leaves behind: a fresh record owned by the caller,
    /// or, on refusal, everything as it was.
    pub open spec fn after(self) -> InitializeUser {
        if self.outcome() is Ok {
            InitializeUser { user_account: UserAccount::opened(self.owner, self.bump), ..self }
        } else {
            self
        }
    }
}

/// Sets a participant record up for the caller: owned by them, not eligible,
/// nothing owed. A record that someone else owns is refused with
/// `NotAuthorized`, the caller's own record with `AlreadyInitialized`. A
/// refusal changes nothing.
pub fn handler(ctx: &mut InitializeUser) -> (result: Result<(), ErrorCode>)
    ensures
        result == old(ctx).outcome(),
        *final(ctx) == old(ctx).after(),
        result is Err ==> *final(ctx) == *old(ctx),
{
    if ctx.user_account.is_initialized() && !(ctx.user_account.owner == ctx.owner) {
        return Err(ErrorCode::NotAuthorized);
    }
    let owner = ctx.owner;
    let bump = ctx.bump;
    ctx.user_account.init(owner, bump)
}

} // verus!
