use lootbox::{
    consume_randomness, init_lootbox, init_user, mint_reward, request_randomness, ConsumeRandomness,
    InitLootbox, InitUser, InitUserParams, Lootbox, LootboxErrorCode, MintAccount, MintReward,
    RequestRandomness, UserState, VrfAccount,
};

fn id(tag: u8) -> [u8; 32] {
    [tag; 32]
}

fn fresh_state(vrf: [u8; 32]) -> UserState {
    UserState {
        bump: 7,
        switchboard_state_bump: 8,
        vrf_permission_bump: 9,
        result_buffer: [0u8; 32],
        result: 0,
        vrf,
        mint: [0u8; 32],
        token_account: [0u8; 32],
        redeemable: false,
    }
}

fn buffer_with_raw(raw: u8) -> [u8; 32] {
    let mut b = [0u8; 32];
    b[0] = raw;
    b
}

fn consume_ctx(state: UserState, buffer: [u8; 32], lootbox: Lootbox) -> ConsumeRandomness {
    let key = state.vrf;
    ConsumeRandomness {
        state,
        vrf: VrfAccount {
            key,
            authority: id(0xAA),
            result_buffer: buffer,
        },
        lootbox,
        payer: id(0x50),
    }
}

fn test_lootbox() -> Lootbox {
    Lootbox {
        mint_one: id(0x11),
        mint_two: id(0x22),
        mint_three: id(0x33),
    }
}

#[test]
fn read_u128_le_reads_first_sixteen_bytes_little_endian() {
    let mut b = [0u8; 32];
    b[0] = 1;
    b[1] = 2;
    assert_eq!(lootbox::outcome::read_u128_le(&b), 513);
    let mut c = [0u8; 32];
    c[15] = 1;
    assert_eq!(lootbox::outcome::read_u128_le(&c), 1u128 << 120);
    // Bytes past the sixteenth do not contribute.
    let mut d = [0u8; 32];
    d[16] = 0xFF;
    d[31] = 0xFF;
    assert_eq!(lootbox::outcome::read_u128_le(&d), 0);
}

#[test]
fn derive_outcome_is_mod_hundred_plus_one() {
    assert_eq!(lootbox::outcome::derive_outcome(0), 1);
    assert_eq!(lootbox::outcome::derive_outcome(5), 6);
    assert_eq!(lootbox::outcome::derive_outcome(12345), 46);
    assert_eq!(lootbox::outcome::derive_outcome(99), 100);
}

#[test]
fn consume_raw_five_selects_reward_one() {
    let lb = test_lootbox();
    let mut ctx = consume_ctx(fresh_state(id(4)), buffer_with_raw(5), lb);
    assert!(consume_randomness(&mut ctx).is_ok());
    assert_eq!(ctx.state.result, 6);
    assert_eq!(ctx.state.mint, lb.mint_one);
    assert_eq!(ctx.state.result_buffer, buffer_with_raw(5));
}

#[test]
fn consume_outcome_fifty_selects_reward_two() {
    let lb = test_lootbox();
    let mut ctx = consume_ctx(fresh_state(id(4)), buffer_with_raw(49), lb);
    assert!(consume_randomness(&mut ctx).is_ok());
    assert_eq!(ctx.state.result, 50);
    assert_eq!(ctx.state.mint, lb.mint_two);
}

#[test]
fn consume_outcome_ninety_selects_reward_three() {
    let lb = test_lootbox();
    let mut ctx = consume_ctx(fresh_state(id(4)), buffer_with_raw(89), lb);
    assert!(consume_randomness(&mut ctx).is_ok());
    assert_eq!(ctx.state.result, 90);
    assert_eq!(ctx.state.mint, lb.mint_three);
}

#[test]
fn consume_outcome_sixty_six_matches_no_bucket() {
    let lb = test_lootbox();
    let pre = fresh_state(id(4));
    let mut ctx = consume_ctx(pre, buffer_with_raw(65), lb);
    assert!(consume_randomness(&mut ctx).is_ok());
    // The outcome is recorded, but the reward fields stay what they were.
    assert_eq!(ctx.state.result, 66);
    assert_eq!(ctx.state.mint, pre.mint);
    assert_eq!(ctx.state.token_account, pre.token_account);
}

#[test]
fn consume_outcome_one_hundred_matches_no_bucket() {
    let lb = test_lootbox();
    let pre = fresh_state(id(4));
    let mut ctx = consume_ctx(pre, buffer_with_raw(199), lb);
    assert!(consume_randomness(&mut ctx).is_ok());
    assert_eq!(ctx.state.result, 100);
    assert_eq!(ctx.state.mint, pre.mint);
    assert_eq!(ctx.state.token_account, pre.token_account);
}

#[test]
fn consume_all_zero_buffer_changes_nothing() {
    let lb = test_lootbox();
    let mut pre = fresh_state(id(4));
    pre.redeemable = true;
    let mut ctx = consume_ctx(pre, [0u8; 32], lb);
    assert!(consume_randomness(&mut ctx).is_ok());
    assert_eq!(ctx.state, pre);
}

#[test]
fn consume_same_buffer_twice_changes_state_once() {
    let lb = test_lootbox();
    let buf = buffer_with_raw(42);
    let mut ctx = consume_ctx(fresh_state(id(4)), buf, lb);
    assert!(consume_randomness(&mut ctx).is_ok());
    let after_first = ctx.state;
    let mut ctx2 = consume_ctx(after_first, buf, lb);
    assert!(consume_randomness(&mut ctx2).is_ok());
    assert_eq!(ctx2.state, after_first);
}

#[test]
fn consume_same_outcome_from_new_buffer_keeps_stored_buffer() {
    let lb = test_lootbox();
    // First buffer gives outcome 43; a second, different buffer gives the
    // same outcome (142 % 100 + 1 == 43), so only the reward fields are
    // rewritten and the stored buffer is kept.
    let first = buffer_with_raw(42);
    let second = buffer_with_raw(142);
    let mut ctx = consume_ctx(fresh_state(id(4)), first, lb);
    assert!(consume_randomness(&mut ctx).is_ok());
    let mut ctx2 = consume_ctx(ctx.state, second, lb);
    assert!(consume_randomness(&mut ctx2).is_ok());
    assert_eq!(ctx2.state.result, 43);
    assert_eq!(ctx2.state.result_buffer, first);
    assert_eq!(ctx2.state.mint, lb.mint_two);
}

#[test]
fn consume_with_wrong_source_fails_and_changes_nothing() {
    let lb = test_lootbox();
    let pre = fresh_state(id(4));
    let mut ctx = consume_ctx(pre, buffer_with_raw(5), lb);
    ctx.vrf.key = id(0x99);
    assert_eq!(
        consume_randomness(&mut ctx),
        Err(LootboxErrorCode::InvalidVrfAccount)
    );
    assert_eq!(ctx.state, pre);
}

#[test]
fn init_user_rejects_foreign_authority() {
    let ctx = InitUser {
        state_key: id(0x10),
        state_bump: 251,
        vrf: VrfAccount {
            key: id(4),
            authority: id(0x77),
            result_buffer: [0u8; 32],
        },
    };
    let params = InitUserParams {
        switchboard_state_bump: 3,
        vrf_permission_bump: 5,
    };
    assert_eq!(
        init_user(&ctx, &params),
        Err(LootboxErrorCode::InvalidVrfAuthorityError)
    );
}

#[test]
fn init_user_creates_zeroed_linked_session() {
    let ctx = InitUser {
        state_key: id(0x10),
        state_bump: 251,
        vrf: VrfAccount {
            key: id(4),
            authority: id(0x10),
            result_buffer: [0u8; 32],
        },
    };
    let params = InitUserParams {
        switchboard_state_bump: 3,
        vrf_permission_bump: 5,
    };
    let s = init_user(&ctx, &params).unwrap();
    assert_eq!(s.bump, 251);
    assert_eq!(s.switchboard_state_bump, 3);
    assert_eq!(s.vrf_permission_bump, 5);
    assert_eq!(s.vrf, id(4));
    assert_eq!(s.result, 0);
    assert_eq!(s.result_buffer, [0u8; 32]);
    assert_eq!(s.mint, [0u8; 32]);
    assert_eq!(s.token_account, [0u8; 32]);
    assert!(!s.redeemable);
}

#[test]
fn init_lootbox_requires_program_mint_authority() {
    let auth = id(0xA0);
    let good = InitLootbox {
        mint_one: MintAccount {
            key: id(0x11),
            mint_authority: auth,
            decimals: 0,
        },
        mint_two: MintAccount {
            key: id(0x22),
            mint_authority: auth,
            decimals: 0,
        },
        mint_three: MintAccount {
            key: id(0x33),
            mint_authority: auth,
            decimals: 0,
        },
        mint_auth: auth,
    };
    let lb = init_lootbox(&good).unwrap();
    assert_eq!(lb.mint_one, id(0x11));
    assert_eq!(lb.mint_two, id(0x22));
    assert_eq!(lb.mint_three, id(0x33));

    let mut bad = good;
    bad.mint_two.mint_authority = id(0xB0);
    assert!(init_lootbox(&bad).is_none());
}

#[test]
fn request_randomness_resets_outcome_and_returns_stake_burn() {
    let mut state = fresh_state(id(4));
    state.result = 55;
    let mut ctx = RequestRandomness {
        state,
        vrf: id(4),
        stake_mint_decimals: 9,
    };
    let burn = request_randomness(&mut ctx).unwrap();
    assert_eq!(burn, 10_000_000_000);
    assert_eq!(ctx.state.result, 0);
    assert!(ctx.state.redeemable);
    assert_eq!(ctx.state.vrf, id(4));
}

#[test]
fn request_randomness_rejects_wrong_source() {
    let pre = fresh_state(id(4));
    let mut ctx = RequestRandomness {
        state: pre,
        vrf: id(5),
        stake_mint_decimals: 9,
    };
    assert_eq!(
        request_randomness(&mut ctx),
        Err(LootboxErrorCode::InvalidVrfAccount)
    );
    assert_eq!(ctx.state, pre);
}

#[test]
fn stake_burn_amount_is_ten_whole_units() {
    assert_eq!(lootbox::request_randomness::stake_burn_amount(0), 10);
    assert_eq!(lootbox::request_randomness::stake_burn_amount(6), 10_000_000);
    assert_eq!(
        lootbox::request_randomness::stake_burn_amount(18),
        10_000_000_000_000_000_000
    );
}

#[test]
fn mint_reward_fails_when_not_redeemable_and_changes_nothing() {
    let pre = fresh_state(id(4));
    let mut ctx = MintReward {
        state: pre,
        mint: id(0x11),
        payer: id(0x50),
    };
    assert_eq!(mint_reward(&mut ctx), Err(LootboxErrorCode::AlreadyRedeemed));
    assert_eq!(ctx.state, pre);
}
