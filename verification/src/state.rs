//! The two persistent records of the program and its error codes.

use vstd::prelude::*;
use crate::ids::AccountId;

verus! {

/// The global lootbox configuration: the three reward token mints, written
/// once at initialization and immutable thereafter.
#[derive(Clone, Copy, Debug, PartialEq)]
pub struct Lootbox {
    pub mint_one: AccountId,
    pub mint_two: AccountId,
    pub mint_three: AccountId,
}

/// The per-user session record.
///
/// `bump`, `switchboard_state_bump` and `vrf_permission_bump` are the
/// address-derivation salts fixed at creation; `vrf` is the linked
/// randomness-source account, also fixed at creation.  `result_buffer` holds
/// the last consumed raw 32-byte random value, `result` the outcome in
/// [1, 100] derived from it (zero while none is pending), `mint` and
/// `token_account` the reward selected by the last consumed outcome, and
/// `redeemable` gates minting: true after a randomness request, false after
/// a mint.
#[derive(Clone, Copy, Debug, PartialEq)]
pub struct UserState {
    pub bump: u8,
    pub switchboard_state_bump: u8,
    pub vrf_permission_bump: u8,
    pub result_buffer: [u8; 32],
    pub result: u128,
    pub vrf: AccountId,
    pub mint: AccountId,
    pub token_account: AccountId,
    pub redeemable: bool,
}

/// The program's business-rule rejections.
#[derive(Clone, Copy, Debug, PartialEq, Eq, Structural)]
pub enum LootboxErrorCode {
    /// At session creation, the randomness source's recorded authority is
    /// not the session's own address.
    InvalidVrfAuthorityError,
    /// The randomness-source account supplied does not match the one stored
    /// in the session.
    InvalidVrfAccount,
    /// A mint was attempted while the session was not redeemable.
    AlreadyRedeemed,
}

} // verus!
