//! A whitelisted token vault: the administrator adds and removes users; a
//! user's recorded balance grows with deposits, and a withdrawal approves the
//! user as delegate over the vault's tokens for the amount withdrawn.

use crate::keys::Pubkey;
use crate::token::{
    TokenAccountData, TokenCall, TokenInstruction, keyed_seeds, keyed_signer_seeds,
};
use vstd::prelude::*;

verus! {

/// Errors of the vault program.
#[derive(Clone, Copy, Debug, PartialEq, Eq, Structural)]
pub enum VaultError {
    /// Invalid account configuration.
    InvalidAccountConfig,
    /// Mint setup failed.
    MintSetupFailed,
    /// Extension initialization error.
    ExtensionInitError,
    /// Access denied.
    AccessDenied,
    /// Extra account meta creation failed.
    ExtraAccountMetaCreationFailed,
    /// Insufficient balance.
    InsufficientBalance,
    /// Math overflow detected.
    MathOverflow,
}

/// A whitelisted user and the balance recorded for them.
#[derive(Clone, Copy, Debug)]
pub struct AuthorizedUser {
    pub holder: Pubkey,
    pub balance: u64,
    pub signer_bump: u8,
}

impl AuthorizedUser {
    /// The account size: discriminator, holder, balance and bump.
    pub const LEN: usize = 8 + 32 + 8 + 1;
}

/// The vault's configuration.
#[derive(Clone, Copy, Debug)]
pub struct TokenVault {
    pub administrator: Pubkey,
    pub token_mint: Pubkey,
    pub signer_bump: u8,
}

impl TokenVault {
    /// The account size: discriminator, administrator, mint and bump.
    pub const LEN: usize = 8 + 32 + 32 + 1;
}

/// The bump found for a new whitelist entry.
#[derive(Clone, Copy, Debug)]
pub struct AddUserBumps {
    pub user_account: u8,
}

/// The accounts of adding a user to the whitelist.
#[derive(Clone, Copy, Debug)]
pub struct AddUser {
    pub admin: Pubkey,
    pub vault: TokenVault,
    pub user_account: AuthorizedUser,
}

impl AddUser {
    /// Initializes the whitelist entry of `address` with a zero balance.
    pub fn add_user(&mut self, address: Pubkey, bump: &AddUserBumps) -> (res: Result<(), VaultError>)
        ensures
            res is Ok,
            final(self).user_account == (AuthorizedUser {
                holder: address,
                balance: 0,
                signer_bump: bump.user_account,
            }),
            final(self).admin == old(self).admin,
            final(self).vault == old(self).vault,
    {
        self.user_account = AuthorizedUser { holder: address, balance: 0, signer_bump: bump.user_account };
        Ok(())
    }
}

/// The accounts of removing a user from the whitelist.
#[derive(Clone, Copy, Debug)]
pub struct RemoveUser {
    pub admin: Pubkey,
    pub vault: TokenVault,
    pub user_account: AuthorizedUser,
}

impl RemoveUser {
    /// Removes `address` from the whitelist; the entry's account is closed to
    /// the administrator by the account constraints, so nothing is left to
    /// compute and the instruction succeeds.
    pub fn remove_user(&mut self, address: Pubkey) -> (res: Result<(), VaultError>)
        ensures
            res is Ok,
            *final(self) == *old(self),
    {
        Ok(())
    }
}

/// The balance after a deposit, or `None` where it would overflow.
pub open spec fn deposited(balance: u64, amount: u64) -> Option<u64> {
    if balance + amount <= u64::MAX {
        Some((balance + amount) as u64)
    } else {
        None
    }
}

/// The balance after a withdrawal, or `None` where the balance is too small.
pub open spec fn withdrawn(balance: u64, amount: u64) -> Option<u64> {
    if amount <= balance {
        Some((balance - amount) as u64)
    } else {
        None
    }
}

/// A withdrawal of what was just deposited succeeds and restores the balance
/// the user had before the deposit.
pub proof fn law_withdraw_undoes_deposit(balance: u64, amount: u64)
    requires
        deposited(balance, amount) is Some,
    ensures
        withdrawn(deposited(balance, amount)->Some_0, amount) == Some(balance),
{
}

/// A deposit of what was just withdrawn succeeds and restores the balance
/// the user had before the withdrawal.
pub proof fn law_deposit_undoes_withdraw(balance: u64, amount: u64)
    requires
        withdrawn(balance, amount) is Some,
    ensures
        deposited(withdrawn(balance, amount)->Some_0, amount) == Some(balance),
{
}

/// A withdrawal is refused exactly when it asks for more than the balance,
/// so a balance can never be overdrawn.
pub proof fn law_withdraw_never_overdraws(balance: u64, amount: u64)
    ensures
        withdrawn(balance, amount) is None <==> amount > balance,
        withdrawn(balance, amount) matches Some(b) ==> b + amount == balance,
{
}

/// The accounts of a deposit.
#[derive(Clone, Copy, Debug)]
pub struct Deposit {
    pub user: Pubkey,
    pub vault: TokenVault,
    pub user_account: AuthorizedUser,
}

impl Deposit {
    /// Records a deposit of `amount` tokens to the user's balance.
    pub fn deposit(&mut self, amount: u64) -> (res: Result<(), VaultError>)
        ensures
            match deposited(old(self).user_account.balance, amount) {
                Some(b) => res is Ok && final(self).user_account.balance == b,
                None => res == Err::<(), VaultError>(VaultError::MathOverflow)
                    && final(self).user_account.balance == old(self).user_account.balance,
            },
            final(self).user_account.holder == old(self).user_account.holder,
            final(self).user_account.signer_bump == old(self).user_account.signer_bump,
            final(self).user == old(self).user,
            final(self).vault == old(self).vault,
    {
        match self.user_account.balance.checked_add(amount) {
            Some(b) => {
                self.user_account.balance = b;
                Ok(())
            },
            None => Err(VaultError::MathOverflow),
        }
    }
}

/// The accounts of a withdrawal.
#[derive(Clone, Copy, Debug)]
pub struct Withdraw {
    pub user: Pubkey,
    /// The vault configuration's address.
    pub vault_address: Pubkey,
    pub vault: TokenVault,
    pub user_account: AuthorizedUser,
    pub vault_token_account: TokenAccountData,
}

/// The approval a withdrawal of `amount` issues: the user becomes delegate of
/// the vault's token account for `amount`, signed by the vault configuration.
pub open spec fn withdraw_approval(w: Withdraw, amount: u64) -> TokenInstruction {
    TokenInstruction::Approve {
        to: w.vault_token_account.address,
        delegate: w.user,
        authority: w.vault_address,
        amount: amount,
    }
}

/// A withdrawal approves the user for exactly the amount withdrawn, over
/// the vault's token account and signed by the vault configuration, whatever
/// the vault holds and also when the whole balance is withdrawn: the amount
/// approved and the balance left add up to the balance before.
pub proof fn law_withdraw_approves_exactly_the_amount(w: Withdraw, amount: u64)
    requires
        withdrawn(w.user_account.balance, amount) is Some,
    ensures
        withdraw_approval(w, amount) matches TokenInstruction::Approve {
            to,
            delegate,
            authority,
            amount: approved,
        } && to == w.vault_token_account.address && delegate == w.user && authority
            == w.vault_address && approved == amount && approved + withdrawn(
            w.user_account.balance,
            amount,
        )->Some_0 == w.user_account.balance,
{
}

impl Withdraw {
    /// Withdraws `amount` from the user's balance. Refused with
    /// `InsufficientBalance` when the balance is smaller; otherwise returns
    /// the approval to issue, signed by the vault configuration's address
    /// derived from `vault_config_seed`, and debits the balance. The approval
    /// must be issued for the withdrawal to take effect: a failing approval
    /// aborts the whole instruction, the debit included.
    pub fn withdraw(&mut self, amount: u64, vault_config_seed: &[u8]) -> (res: Result<
        TokenCall,
        VaultError,
    >)
        ensures
            match withdrawn(old(self).user_account.balance, amount) {
                None => res == Err::<TokenCall, VaultError>(VaultError::InsufficientBalance)
                    && *final(self) == *old(self),
                Some(b) => res is Ok && res->Ok_0@ == (
                    withdraw_approval(*old(self), amount),
                    keyed_seeds(
                        vault_config_seed@,
                        old(self).vault.administrator,
                        old(self).vault.signer_bump,
                    ),
                ) && final(self).user_account.balance == b,
            },
            final(self).user_account.holder == old(self).user_account.holder,
            final(self).user_account.signer_bump == old(self).user_account.signer_bump,
            final(self).user == old(self).user,
            final(self).vault_address == old(self).vault_address,
            final(self).vault == old(self).vault,
            final(self).vault_token_account == old(self).vault_token_account,
    {
        if self.user_account.balance < amount {
            return Err(VaultError::InsufficientBalance);
        }
        let seeds = keyed_signer_seeds(
            vault_config_seed,
            &self.vault.administrator,
            self.vault.signer_bump,
        );
        let call = TokenCall {
            instruction: TokenInstruction::Approve {
                to: self.vault_token_account.address,
                delegate: self.user,
                authority: self.vault_address,
                amount,
            },
            signer_seeds: seeds,
        };
        self.user_account.balance = self.user_account.balance - amount;
        Ok(call)
    }
}

} // verus!
