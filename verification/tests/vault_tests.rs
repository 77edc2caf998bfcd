use anchor_kit::keys::Pubkey;
use anchor_kit::token::{TokenAccountData, TokenInstruction};
use anchor_kit::vault::{
    AddUser, AddUserBumps, AuthorizedUser, Deposit, RemoveUser, TokenVault, VaultError, Withdraw,
};

fn key(b: u8) -> Pubkey {
    Pubkey::new([b; 32])
}

fn vault() -> TokenVault {
    TokenVault { administrator: key(1), token_mint: key(2), signer_bump: 253 }
}

fn user(balance: u64) -> AuthorizedUser {
    AuthorizedUser { holder: key(3), balance, signer_bump: 7 }
}

fn withdraw_ctx(balance: u64) -> Withdraw {
    Withdraw {
        user: key(3),
        vault_address: key(4),
        vault: vault(),
        user_account: user(balance),
        vault_token_account: TokenAccountData { address: key(5), owner: key(4), mint: key(2), amount: 1_000 },
    }
}

#[test]
fn account_sizes() {
    assert_eq!(AuthorizedUser::LEN, 49);
    assert_eq!(TokenVault::LEN, 73);
}

#[test]
fn add_user_starts_with_zero_balance() {
    let mut ctx = AddUser { admin: key(1), vault: vault(), user_account: user(99) };
    assert_eq!(ctx.add_user(key(9), &AddUserBumps { user_account: 11 }), Ok(()));
    assert_eq!(ctx.user_account.holder.bytes, [9; 32]);
    assert_eq!(ctx.user_account.balance, 0);
    assert_eq!(ctx.user_account.signer_bump, 11);
}

#[test]
fn remove_user_succeeds() {
    let mut ctx = RemoveUser { admin: key(1), vault: vault(), user_account: user(5) };
    assert_eq!(ctx.remove_user(key(3)), Ok(()));
    assert_eq!(ctx.user_account.balance, 5);
}

#[test]
fn deposit_adds_to_balance() {
    let mut ctx = Deposit { user: key(3), vault: vault(), user_account: user(10) };
    assert_eq!(ctx.deposit(32), Ok(()));
    assert_eq!(ctx.user_account.balance, 42);
}

#[test]
fn deposit_overflow_is_refused() {
    let mut ctx = Deposit { user: key(3), vault: vault(), user_account: user(u64::MAX - 1) };
    assert_eq!(ctx.deposit(2), Err(VaultError::MathOverflow));
    assert_eq!(ctx.user_account.balance, u64::MAX - 1);
    assert_eq!(ctx.deposit(1), Ok(()));
    assert_eq!(ctx.user_account.balance, u64::MAX);
}

#[test]
fn withdraw_approves_and_debits() {
    let mut ctx = withdraw_ctx(100);
    let call = ctx.withdraw(60, b"vault_config").unwrap();
    assert_eq!(ctx.user_account.balance, 40);
    match call.instruction {
        TokenInstruction::Approve { to, delegate, authority, amount } => {
            assert_eq!(to.bytes, [5; 32]);
            assert_eq!(delegate.bytes, [3; 32]);
            assert_eq!(authority.bytes, [4; 32]);
            assert_eq!(amount, 60);
        }
        _ => panic!("expected an approval"),
    }
    assert_eq!(call.signer_seeds, vec![b"vault_config".to_vec(), vec![1; 32], vec![253]]);
}

#[test]
fn withdraw_whole_balance() {
    let mut ctx = withdraw_ctx(100);
    assert!(ctx.withdraw(100, b"v").is_ok());
    assert_eq!(ctx.user_account.balance, 0);
}

#[test]
fn withdraw_more_than_balance_is_refused() {
    let mut ctx = withdraw_ctx(100);
    assert!(matches!(ctx.withdraw(101, b"v"), Err(VaultError::InsufficientBalance)));
    assert_eq!(ctx.user_account.balance, 100);
}

#[test]
fn withdraw_undoes_deposit() {
    let mut d = Deposit { user: key(3), vault: vault(), user_account: user(17) };
    d.deposit(25).unwrap();
    let mut w = withdraw_ctx(d.user_account.balance);
    w.withdraw(25, b"v").unwrap();
    assert_eq!(w.user_account.balance, 17);
}

#[test]
fn deposit_undoes_withdraw() {
    let mut w = withdraw_ctx(80);
    w.withdraw(30, b"v").unwrap();
    let mut d = Deposit { user: key(3), vault: vault(), user_account: w.user_account };
    d.deposit(30).unwrap();
    assert_eq!(d.user_account.balance, 80);
}
