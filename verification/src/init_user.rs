//! Creating a per-user session: the linked randomness source must already
//! name the session's own derived address as its authority, and the fresh
//! session starts zeroed with only its salts and its source link set.

use vstd::prelude::*;
use crate::consume_randomness::VrfAccount;
use crate::ids::{bytes32_eq, zero_id, AccountId};
use crate::state::{LootboxErrorCode, UserState};

verus! {

/// The two oracle-side salts a session must remember to re-invoke the
/// randomness source later.
#[derive(Clone, Copy, Debug, PartialEq)]
pub struct InitUserParams {
    pub switchboard_state_bump: u8,
    pub vrf_permission_bump: u8,
}

/// The accounts a session creation reads: the address the session will live
/// at with its derivation bump, and the randomness source to link.
#[derive(Clone, Copy, Debug, PartialEq)]
pub struct InitUser {
    pub state_key: AccountId,
    pub state_bump: u8,
    pub vrf: VrfAccount,
}

/// The session a creation writes: zeroed, then the three salts and the
/// source link set.
pub open spec fn fresh_session(bump: u8, params: InitUserParams, vrf: AccountId) -> UserState {
    UserState {
        bump: bump,
        switchboard_state_bump: params.switchboard_state_bump,
        vrf_permission_bump: params.vrf_permission_bump,
        result_buffer: zero_id(),
        result: 0,
        vrf: vrf,
        mint: zero_id(),
        token_account: zero_id(),
        redeemable: false,
    }
}

impl InitUser {
    /// The randomness source's recorded authority must be the session's own
    /// address.
    pub fn validate(&self, _params: &InitUserParams) -> (r: Result<(), LootboxErrorCode>)
        ensures
            r is Ok <==> self.vrf.authority == self.state_key,
            r is Err ==> r == Err::<(), LootboxErrorCode>(
                LootboxErrorCode::InvalidVrfAuthorityError,
            ),
    {
        if bytes32_eq(&self.vrf.authority, &self.state_key) {
            Ok(())
        } else {
            Err(LootboxErrorCode::InvalidVrfAuthorityError)
        }
    }

    /// Build the fresh session record.
    pub fn actuate(&self, params: &InitUserParams) -> (s: UserState)
        requires
            self.vrf.authority == self.state_key,
        ensures
            s == fresh_session(self.state_bump, *params, self.vrf.key),
    {
        UserState {
            bump: self.state_bump,
            switchboard_state_bump: params.switchboard_state_bump,
            vrf_permission_bump: params.vrf_permission_bump,
            result_buffer: [0u8; 32],
            result: 0,
            vrf: self.vrf.key,
            mint: [0u8; 32],
            token_account: [0u8; 32],
            redeemable: false,
        }
    }
}

/// Entry point: create the session record to persist at `ctx.state_key`.
/// Fails with `InvalidVrfAuthorityError` if and only if the supplied
/// randomness source's authority is not that address; the fresh session is
/// not redeemable and holds no outcome.
pub fn init_user(ctx: &InitUser, params: &InitUserParams) -> (r: Result<
    UserState,
    LootboxErrorCode,
>)
    ensures
        r is Ok <==> ctx.vrf.authority == ctx.state_key,
        r is Ok ==> r.unwrap() == fresh_session(ctx.state_bump, *params, ctx.vrf.key),
        r is Err ==> r == Err::<UserState, LootboxErrorCode>(
            LootboxErrorCode::InvalidVrfAuthorityError,
        ),
{
    match ctx.validate(params) {
        Ok(()) => Ok(ctx.actuate(params)),
        Err(e) => Err(e),
    }
}

} // verus!
