use anchor_kit::keys::Pubkey;
use anchor_kit::oracle::{OracleAgent, OracleError};
use anchor_kit::vrf::{ConsumeRandomnessCtx, InitUser, InitUserBumps, UpdateUser, UserData};

fn key(b: u8) -> Pubkey {
    Pubkey::new([b; 32])
}

fn data(value: u64) -> UserData {
    UserData { owner: key(1), stored_value: value, signer_bump: 9 }
}

#[test]
fn init_space() {
    assert_eq!(UserData::INIT_SPACE, 49);
}

#[test]
fn initialize_sets_owner_and_zero() {
    let mut ctx = InitUser { user: key(7), user_account: data(55) };
    ctx.initialize(&InitUserBumps { user_account: 200 });
    assert_eq!(ctx.user_account.owner.bytes, [7; 32]);
    assert_eq!(ctx.user_account.stored_value, 0);
    assert_eq!(ctx.user_account.signer_bump, 200);
}

#[test]
fn update_stores_value() {
    let mut ctx = UpdateUser { user: key(1), user_account: data(0) };
    ctx.update(12345);
    assert_eq!(ctx.user_account.stored_value, 12345);
    assert_eq!(ctx.user_account.signer_bump, 9);
}

#[test]
fn consume_randomness_draws_every_fourth_byte() {
    let mut randomness = [0u8; 32];
    for (i, b) in randomness.iter_mut().enumerate() {
        *b = i as u8;
    }
    let mut ctx = ConsumeRandomnessCtx { vrf_program_identity: key(2), user_account: data(0) };
    ctx.consume_randomness(randomness);
    let expected = u64::from_le_bytes([0, 4, 8, 12, 16, 20, 24, 28]);
    assert_eq!(ctx.user_account.stored_value, expected);
    assert_eq!(ctx.user_account.owner.bytes, [1; 32]);
}

#[test]
fn consume_randomness_is_deterministic() {
    let randomness = [0xabu8; 32];
    let mut a = ConsumeRandomnessCtx { vrf_program_identity: key(2), user_account: data(1) };
    let mut b = ConsumeRandomnessCtx { vrf_program_identity: key(2), user_account: data(2) };
    a.consume_randomness(randomness);
    b.consume_randomness(randomness);
    assert_eq!(a.user_account.stored_value, b.user_account.stored_value);
    assert_eq!(a.user_account.stored_value, u64::MAX / 255 * 0xab);
}

#[test]
fn oracle_types() {
    let agent = OracleAgent { llm_context_addr: key(4), signer_bump: 3 };
    assert_eq!(agent.llm_context_addr.bytes, [4; 32]);
    assert_ne!(OracleError::InvalidAccountConfig, OracleError::UnauthorizedAccess);
}
