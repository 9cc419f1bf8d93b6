//! Requesting fresh randomness: the session is reset to a pending, redeemable
//! state, and the caller owes the oracle invocation and a fixed stake burn of
//! `10 * 10^decimals` units of the stake token.

use vstd::prelude::*;
use crate::ids::{bytes32_eq, AccountId};
use crate::state::{LootboxErrorCode, UserState};

verus! {

/// `10^e`.
pub open spec fn pow10(e: nat) -> nat
    decreases e,
{
    if e == 0 {
        1
    } else {
        10 * pow10((e - 1) as nat)
    }
}

/// `10^e` grows with `e`.
proof fn lemma_pow10_le(a: nat, b: nat)
    requires
        a <= b,
    ensures
        pow10(a) <= pow10(b),
    decreases b,
{
    if a < b {
        lemma_pow10_le(a, (b - 1) as nat);
    }
}

/// `10^e` for exponents whose value fits a `u64`.
pub fn pow10_u64(e: u8) -> (r: u64)
    requires
        e <= 18,
    ensures
        r == pow10(e as nat),
{
    proof {
        assert(pow10(18) == 1_000_000_000_000_000_000) by {
            reveal_with_fuel(pow10, 19);
        }
    }
    let mut i: u8 = 0;
    let mut acc: u64 = 1;
    while i < e
        invariant
            0 <= i <= e,
            e <= 18,
            acc == pow10(i as nat),
            pow10(18) == 1_000_000_000_000_000_000,
        decreases e - i,
    {
        proof {
            lemma_pow10_le((i + 1) as nat, 18);
            assert(pow10((i + 1) as nat) == 10 * pow10(i as nat));
        }
        acc = acc * 10;
        i += 1;
    }
    acc
}

/// The fixed stake burned by one randomness request: ten whole units of a
/// stake token with the given number of decimals.
pub fn stake_burn_amount(stake_mint_decimals: u8) -> (r: u64)
    requires
        stake_mint_decimals <= 18,
    ensures
        r == 10 * pow10(stake_mint_decimals as nat),
{
    proof {
        lemma_pow10_le(stake_mint_decimals as nat, 18);
        assert(pow10(18) == 1_000_000_000_000_000_000) by {
            reveal_with_fuel(pow10, 19);
        }
    }
    10u64 * pow10_u64(stake_mint_decimals)
}

/// The accounts a randomness request reads: the session, the supplied
/// randomness-source key, and the stake mint's decimals.
#[derive(Clone, Copy, Debug, PartialEq)]
pub struct RequestRandomness {
    pub state: UserState,
    pub vrf: AccountId,
    pub stake_mint_decimals: u8,
}

/// How a successful request changes the session: the pending outcome is
/// cleared and the session becomes redeemable; everything else is kept.
pub open spec fn request_transition(pre: UserState) -> UserState {
    UserState { result: 0, redeemable: true, ..pre }
}

impl RequestRandomness {
    /// The supplied randomness source must be the one the session stores.
    pub fn validate(&self) -> (r: Result<(), LootboxErrorCode>)
        ensures
            r is Ok <==> self.state.vrf == self.vrf,
            r is Err ==> r == Err::<(), LootboxErrorCode>(LootboxErrorCode::InvalidVrfAccount),
    {
        if bytes32_eq(&self.state.vrf, &self.vrf) {
            Ok(())
        } else {
            Err(LootboxErrorCode::InvalidVrfAccount)
        }
    }

    /// Apply the request and return the stake amount to burn.
    pub fn actuate(&mut self) -> (burn: u64)
        requires
            old(self).state.vrf == old(self).vrf,
            old(self).stake_mint_decimals <= 18,
        ensures
            final(self).state == request_transition(old(self).state),
            burn == 10 * pow10(old(self).stake_mint_decimals as nat),
            final(self).vrf == old(self).vrf,
            final(self).stake_mint_decimals == old(self).stake_mint_decimals,
    {
        self.state.result = 0;
        self.state.redeemable = true;
        stake_burn_amount(self.stake_mint_decimals)
    }
}

/// Entry point: mark the session pending and redeemable and return the stake
/// amount the host must burn, with the oracle invocation owed alongside.
/// Fails only when the supplied randomness source is not the linked one, and
/// then changes nothing.  The decimals bound keeps the burn within a `u64`.
pub fn request_randomness(ctx: &mut RequestRandomness) -> (r: Result<u64, LootboxErrorCode>)
    requires
        old(ctx).stake_mint_decimals <= 18,
    ensures
        r is Ok <==> old(ctx).state.vrf == old(ctx).vrf,
        r is Ok ==> final(ctx).state == request_transition(old(ctx).state) && r.unwrap() == 10
            * pow10(old(ctx).stake_mint_decimals as nat),
        r is Err ==> *final(ctx) == *old(ctx) && r == Err::<u64, LootboxErrorCode>(
            LootboxErrorCode::InvalidVrfAccount,
        ),
        final(ctx).vrf == old(ctx).vrf,
        final(ctx).stake_mint_decimals == old(ctx).stake_mint_decimals,
{
    match ctx.validate() {
        Ok(()) => Ok(ctx.actuate()),
        Err(e) => Err(e),
    }
}

} // verus!
