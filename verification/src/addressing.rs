//! Deterministic account addressing: program-derived addresses from fixed
//! seeds, and the per-(owner, mint) associated token address.  Both
//! derivations are hash computations owned by the host platform; this module
//! names their results and calls into the platform's crates for them.

use vstd::prelude::*;
use crate::ids::AccountId;

verus! {

broadcast use vstd::array::group_array_axioms;

/// The associated token address derived from a wallet key and a mint key:
/// a pure function of the two keys.
pub uninterp spec fn ata_of(wallet: Seq<u8>, mint: Seq<u8>) -> Seq<u8>;

/// The program-derived address and bump for a seed list and a program id,
/// or nothing when no bump yields a valid address: a pure function of the
/// seeds and the program id.
pub uninterp spec fn pda_of(seeds: Seq<Seq<u8>>, program_id: Seq<u8>) -> Option<(Seq<u8>, u8)>;

/// Relies on spl_associated_token_account_client::address::
/// get_associated_token_address: the derived address depends only on the
/// wallet and mint keys (a fixed hash over them and two protocol constants).
#[verifier::external_body]
pub fn associated_token_address(wallet: &AccountId, mint: &AccountId) -> (r: AccountId)
    ensures
        r@ == ata_of(wallet@, mint@),
{
    let w = solana_pubkey::Pubkey::new_from_array(*wallet);
    let m = solana_pubkey::Pubkey::new_from_array(*mint);
    spl_associated_token_account_client::address::get_associated_token_address(&w, &m).to_bytes()
}

/// Relies on solana_pubkey::Pubkey::try_find_program_address: the result
/// depends only on the seed list and the program id, and is `None` exactly
/// when no bump byte yields a valid derived address.
#[verifier::external_body]
fn try_find_pda(seeds: &Vec<Vec<u8>>, program_id: &AccountId) -> (r: Option<(AccountId, u8)>)
    ensures
        ({
            let d = pda_of(seeds@.map_values(|v: Vec<u8>| v@), program_id@);
            match r {
                Some(p) => d is Some && p.0@ == d.unwrap().0 && p.1 == d.unwrap().1,
                None => d is None,
            }
        }),
{
    let refs: Vec<&[u8]> = seeds.iter().map(|v| v.as_slice()).collect();
    let pid = solana_pubkey::Pubkey::new_from_array(*program_id);
    solana_pubkey::Pubkey::try_find_program_address(&refs, &pid).map(|p| (p.0.to_bytes(), p.1))
}

/// The fixed seed naming the global lootbox configuration record
/// (the bytes of "LOOTBOX").
pub open spec fn lootbox_seed() -> Seq<u8> {
    seq![76u8, 79u8, 79u8, 84u8, 66u8, 79u8, 88u8]
}

/// The fixed seed naming the program's mint-authority address
/// (the bytes of "MINT_AUTH").
pub open spec fn mint_auth_seed() -> Seq<u8> {
    seq![77u8, 73u8, 78u8, 84u8, 95u8, 65u8, 85u8, 84u8, 72u8]
}

/// The address of the global configuration record under `program_id`, with
/// its bump.  Re-derivation is idempotent: the result is a function of the
/// program id alone.
pub fn lootbox_address(program_id: &AccountId) -> (r: Option<(AccountId, u8)>)
    ensures
        ({
            let d = pda_of(seq![lootbox_seed()], program_id@);
            match r {
                Some(p) => d is Some && p.0@ == d.unwrap().0 && p.1 == d.unwrap().1,
                None => d is None,
            }
        }),
{
    let seed: Vec<u8> = vec![76u8, 79u8, 79u8, 84u8, 66u8, 79u8, 88u8];
    let mut seeds: Vec<Vec<u8>> = Vec::new();
    seeds.push(seed);
    proof {
        assert(seeds@.map_values(|v: Vec<u8>| v@) =~= seq![lootbox_seed()]);
    }
    try_find_pda(&seeds, program_id)
}

/// The program's mint-authority signing address under `program_id`, with
/// its bump.
pub fn mint_authority_address(program_id: &AccountId) -> (r: Option<(AccountId, u8)>)
    ensures
        ({
            let d = pda_of(seq![mint_auth_seed()], program_id@);
            match r {
                Some(p) => d is Some && p.0@ == d.unwrap().0 && p.1 == d.unwrap().1,
                None => d is None,
            }
        }),
{
    let seed: Vec<u8> = vec![77u8, 73u8, 78u8, 84u8, 95u8, 65u8, 85u8, 84u8, 72u8];
    let mut seeds: Vec<Vec<u8>> = Vec::new();
    seeds.push(seed);
    proof {
        assert(seeds@.map_values(|v: Vec<u8>| v@) =~= seq![mint_auth_seed()]);
    }
    try_find_pda(&seeds, program_id)
}

/// The per-user session address under `program_id`: derived from the payer's
/// key and the linked randomness-source key, so one session exists per
/// (payer, source) pair.
pub fn user_state_address(payer: &AccountId, vrf: &AccountId, program_id: &AccountId) -> (r:
    Option<(AccountId, u8)>)
    ensures
        ({
            let d = pda_of(seq![payer@, vrf@], program_id@);
            match r {
                Some(p) => d is Some && p.0@ == d.unwrap().0 && p.1 == d.unwrap().1,
                None => d is None,
            }
        }),
{
    let mut seeds: Vec<Vec<u8>> = Vec::new();
    let mut s0: Vec<u8> = Vec::new();
    let mut s1: Vec<u8> = Vec::new();
    let mut i: usize = 0;
    while i < 32
        invariant
            0 <= i <= 32,
            s0@ =~= payer@.subrange(0, i as int),
            s1@ =~= vrf@.subrange(0, i as int),
        decreases 32 - i,
    {
        s0.push(payer[i]);
        s1.push(vrf[i]);
        i += 1;
    }
    proof {
        assert(s0@ =~= payer@);
        assert(s1@ =~= vrf@);
    }
    seeds.push(s0);
    seeds.push(s1);
    proof {
        assert(seeds@.map_values(|v: Vec<u8>| v@) =~= seq![payer@, vrf@]);
    }
    try_find_pda(&seeds, program_id)
}

} // verus!
