//! Consuming a published random value into the session: a no-op while the
//! oracle has not fulfilled the request or while the value was already
//! consumed, otherwise the outcome and its reward bucket are recorded.

use vstd::prelude::*;
use crate::addressing::{associated_token_address, ata_of};
use crate::ids::{bytes32_eq, id_from_bytes, is_zero_buffer, is_zero_bytes, lemma_id_from_bytes, AccountId};
use crate::outcome::{bucket_of, derive_outcome, outcome_of, read_u128_le, u128_le_of};
use crate::state::{Lootbox, LootboxErrorCode, UserState};

verus! {

/// The randomness-source account as this program reads it: its address, its
/// recorded authority, and the 32-byte result it has published (all zero
/// while the pending request is unfulfilled).
#[derive(Clone, Copy, Debug, PartialEq)]
pub struct VrfAccount {
    pub key: AccountId,
    pub authority: AccountId,
    pub result_buffer: [u8; 32],
}

/// The accounts read by a randomness consumption: the session, the linked
/// randomness source, the global configuration, and the session owner.
#[derive(Clone, Copy, Debug, PartialEq)]
pub struct ConsumeRandomness {
    pub state: UserState,
    pub vrf: VrfAccount,
    pub lootbox: Lootbox,
    pub payer: AccountId,
}

/// How one consumption changes the session.  An all-zero buffer (no result
/// yet) and a buffer equal to the one already stored (already consumed) are
/// no-ops.  Otherwise the outcome is derived from the buffer; outcome and
/// buffer are stored only when the outcome differs from the stored one, and
/// the matching reward bucket, when one matches, selects the reward mint and
/// the payer's associated destination address.
pub open spec fn consume_transition(
    pre: UserState,
    buffer: [u8; 32],
    lootbox: Lootbox,
    payer: AccountId,
) -> UserState {
    if is_zero_bytes(buffer@) {
        pre
    } else if buffer == pre.result_buffer {
        pre
    } else {
        let outcome = outcome_of(u128_le_of(buffer@));
        let stored = if pre.result != outcome {
            UserState { result_buffer: buffer, result: outcome as u128, ..pre }
        } else {
            pre
        };
        match bucket_of(outcome) {
            Some(b) => {
                let m = if b == 1 {
                    lootbox.mint_one
                } else if b == 2 {
                    lootbox.mint_two
                } else {
                    lootbox.mint_three
                };
                UserState { mint: m, token_account: id_from_bytes(ata_of(payer@, m@)), ..stored }
            },
            None => stored,
        }
    }
}

impl ConsumeRandomness {
    /// The supplied randomness source must be the one the session stores.
    pub fn validate(&self) -> (r: Result<(), LootboxErrorCode>)
        ensures
            r is Ok <==> self.state.vrf == self.vrf.key,
            r is Err ==> r == Err::<(), LootboxErrorCode>(LootboxErrorCode::InvalidVrfAccount),
    {
        if bytes32_eq(&self.state.vrf, &self.vrf.key) {
            Ok(())
        } else {
            Err(LootboxErrorCode::InvalidVrfAccount)
        }
    }

    /// Apply one consumption of the source's published buffer.
    pub fn actuate(&mut self) -> (r: Result<(), LootboxErrorCode>)
        requires
            old(self).state.vrf == old(self).vrf.key,
        ensures
            r is Ok,
            final(self).state == consume_transition(
                old(self).state,
                old(self).vrf.result_buffer,
                old(self).lootbox,
                old(self).payer,
            ),
            final(self).vrf == old(self).vrf,
            final(self).lootbox == old(self).lootbox,
            final(self).payer == old(self).payer,
    {
        let buffer: [u8; 32] = self.vrf.result_buffer;
        if is_zero_buffer(&buffer) {
            return Ok(());
        }
        if bytes32_eq(&buffer, &self.state.result_buffer) {
            return Ok(());
        }
        let raw = read_u128_le(&buffer);
        let result = derive_outcome(raw);
        if self.state.result != result {
            self.state.result_buffer = buffer;
            self.state.result = result;
        }
        if 1 <= result && result <= 33 {
            let ta = associated_token_address(&self.payer, &self.lootbox.mint_one);
            proof {
                lemma_id_from_bytes(ta);
            }
            self.state.token_account = ta;
            self.state.mint = self.lootbox.mint_one;
        } else if 34 <= result && result <= 65 {
            let ta = associated_token_address(&self.payer, &self.lootbox.mint_two);
            proof {
                lemma_id_from_bytes(ta);
            }
            self.state.token_account = ta;
            self.state.mint = self.lootbox.mint_two;
        } else if 67 <= result && result <= 99 {
            let ta = associated_token_address(&self.payer, &self.lootbox.mint_three);
            proof {
                lemma_id_from_bytes(ta);
            }
            self.state.token_account = ta;
            self.state.mint = self.lootbox.mint_three;
        }
        Ok(())
    }
}

/// Entry point: consume the randomness source's published result into the
/// session.  Fails only when the supplied source is not the linked one, and
/// then changes nothing.
pub fn consume_randomness(ctx: &mut ConsumeRandomness) -> (r: Result<(), LootboxErrorCode>)
    ensures
        r is Ok <==> old(ctx).state.vrf == old(ctx).vrf.key,
        r is Ok ==> final(ctx).state == consume_transition(
            old(ctx).state,
            old(ctx).vrf.result_buffer,
            old(ctx).lootbox,
            old(ctx).payer,
        ),
        r is Err ==> *final(ctx) == *old(ctx) && r == Err::<(), LootboxErrorCode>(
            LootboxErrorCode::InvalidVrfAccount,
        ),
        final(ctx).vrf == old(ctx).vrf,
        final(ctx).lootbox == old(ctx).lootbox,
        final(ctx).payer == old(ctx).payer,
{
    match ctx.validate() {
        Ok(()) => ctx.actuate(),
        Err(e) => Err(e),
    }
}

} // verus!
