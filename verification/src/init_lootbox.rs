//! Creating the global lootbox configuration: three reward mints whose
//! minting authority must be the program's own derived mint-authority
//! address, so that only the program can later mint rewards.

use vstd::prelude::*;
use crate::ids::{bytes32_eq, AccountId};
use crate::state::Lootbox;

verus! {

/// A token mint as this program reads it: its address, its recorded minting
/// authority, and its decimals.
#[derive(Clone, Copy, Debug, PartialEq)]
pub struct MintAccount {
    pub key: AccountId,
    pub mint_authority: AccountId,
    pub decimals: u8,
}

/// The accounts a configuration init reads: the three reward mints and the
/// program's derived mint-authority address.
#[derive(Clone, Copy, Debug, PartialEq)]
pub struct InitLootbox {
    pub mint_one: MintAccount,
    pub mint_two: MintAccount,
    pub mint_three: MintAccount,
    pub mint_auth: AccountId,
}

impl InitLootbox {
    /// All three reward mints name the program's mint authority.
    pub open spec fn constraints_ok(self) -> bool {
        self.mint_one.mint_authority == self.mint_auth
            && self.mint_two.mint_authority == self.mint_auth
            && self.mint_three.mint_authority == self.mint_auth
    }

    /// Check that every reward mint is under the program's mint authority.
    pub fn validate(&self) -> (r: bool)
        ensures
            r == self.constraints_ok(),
    {
        bytes32_eq(&self.mint_one.mint_authority, &self.mint_auth)
            && bytes32_eq(&self.mint_two.mint_authority, &self.mint_auth)
            && bytes32_eq(&self.mint_three.mint_authority, &self.mint_auth)
    }

    /// Build the configuration record from the three mint addresses.
    pub fn actuate(&self) -> (lb: Lootbox)
        requires
            self.constraints_ok(),
        ensures
            lb == (Lootbox {
                mint_one: self.mint_one.key,
                mint_two: self.mint_two.key,
                mint_three: self.mint_three.key,
            }),
    {
        Lootbox {
            mint_one: self.mint_one.key,
            mint_two: self.mint_two.key,
            mint_three: self.mint_three.key,
        }
    }
}

/// Entry point: create the configuration record to persist at the lootbox
/// address.  Succeeds if and only if every reward mint's minting authority
/// is the program's derived mint authority; the record then names the three
/// mints in order.
pub fn init_lootbox(ctx: &InitLootbox) -> (r: Option<Lootbox>)
    ensures
        r is Some <==> ctx.constraints_ok(),
        r is Some ==> r.unwrap() == (Lootbox {
            mint_one: ctx.mint_one.key,
            mint_two: ctx.mint_two.key,
            mint_three: ctx.mint_three.key,
        }),
{
    if ctx.validate() {
        Some(ctx.actuate())
    } else {
        None
    }
}

} // verus!
