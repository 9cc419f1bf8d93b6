//! Minting the selected reward: the redeemable flag is taken as a lock
//! before any external action, so each successful randomness request pays
//! out at most once.

use vstd::prelude::*;
use crate::ids::AccountId;
use crate::state::{LootboxErrorCode, UserState};

verus! {

/// The accounts a reward mint touches: the session, the caller-supplied
/// reward mint, and the session owner.  The supplied mint is deliberately
/// not checked against the session's recorded selection: the caller controls
/// which mint account is passed, and the host forwards it to the token
/// program as it is.
#[derive(Clone, Copy, Debug, PartialEq)]
pub struct MintReward {
    pub state: UserState,
    pub mint: AccountId,
    pub payer: AccountId,
}

/// How a mint attempt changes the session: a redeemable session gives up its
/// flag, any other session is left as it is.
pub open spec fn mint_transition(pre: UserState) -> UserState {
    if pre.redeemable {
        UserState { redeemable: false, ..pre }
    } else {
        pre
    }
}

impl MintReward {
    /// No account relations are checked here beyond what the host enforces.
    pub fn validate(&self) -> (r: Result<(), LootboxErrorCode>)
        ensures
            r is Ok,
    {
        Ok(())
    }

    /// Take the redeemable flag and return the number of reward units the
    /// host must mint to the session's destination account.
    pub fn actuate(&mut self) -> (r: Result<u64, LootboxErrorCode>)
        ensures
            final(self).state == mint_transition(old(self).state),
            r is Ok <==> old(self).state.redeemable,
            r is Ok ==> r.unwrap() == 1u64,
            r is Err ==> r == Err::<u64, LootboxErrorCode>(LootboxErrorCode::AlreadyRedeemed),
            final(self).mint == old(self).mint,
            final(self).payer == old(self).payer,
    {
        if !self.state.redeemable {
            return Err(LootboxErrorCode::AlreadyRedeemed);
        }
        self.state.redeemable = false;
        Ok(1)
    }
}

/// Entry point: mint exactly one unit of the selected reward.  Succeeds if
/// and only if the session is redeemable; a session that is not redeemable
/// is rejected with `AlreadyRedeemed` and left unchanged, and a successful
/// attempt only clears the flag.
pub fn mint_reward(ctx: &mut MintReward) -> (r: Result<u64, LootboxErrorCode>)
    ensures
        final(ctx).state == mint_transition(old(ctx).state),
        r is Ok <==> old(ctx).state.redeemable,
        r is Ok ==> r.unwrap() == 1u64,
        r is Err ==> *final(ctx) == *old(ctx) && r == Err::<u64, LootboxErrorCode>(
            LootboxErrorCode::AlreadyRedeemed,
        ),
        final(ctx).mint == old(ctx).mint,
        final(ctx).payer == old(ctx).payer,
{
    match ctx.validate() {
        Ok(()) => ctx.actuate(),
        Err(e) => Err(e),
    }
}

} // verus!
