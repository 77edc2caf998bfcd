//! A time-locked token escrow: the owner locks sell tokens in a vault; after
//! the lock period a taker pays the target amount of buy tokens to the owner
//! and receives the whole vault, which is then closed.

use crate::keys::Pubkey;
use crate::token::{
    TokenAccountData, TokenCall, TokenInstruction, escrow_seeds, escrow_signer_seeds, seeds_view,
    signed_by_user, signed_pair,
};
use vstd::prelude::*;

verus! {

/// Why a take is refused.
#[derive(Clone, Copy, Debug, PartialEq, Eq, Structural)]
pub enum CustomError {
    /// Action not permitted at this time.
    TimeLockActive,
    /// Token account mismatch detected.
    TokenAccountMismatch,
    /// Account ownership validation failed.
    OwnershipValidationFailed,
}

/// The escrow's stored state.
#[derive(Clone, Copy, Debug)]
pub struct Escrow {
    pub owner: Pubkey,
    pub sell_token: Pubkey,
    pub buy_token: Pubkey,
    pub offer_id: u64,
    pub target_amount: u64,
    pub created_time: i64,
    pub vault_bump: u8,
}

/// The accounts of a take, as plain values.
#[derive(Clone, Copy, Debug)]
pub struct Take {
    pub taker: Pubkey,
    pub owner: Pubkey,
    pub sell_token: Pubkey,
    pub buy_token: Pubkey,
    pub taker_ata_a: TokenAccountData,
    pub taker_ata_b: TokenAccountData,
    pub owner_ata_b: TokenAccountData,
    pub escrow_address: Pubkey,
    pub escrow: Escrow,
    pub vault: TokenAccountData,
    /// The cluster clock's unix timestamp.
    pub unix_timestamp: i64,
}

/// The outcome of the checks of a take: the first failing check names the
/// error, in the order ownership-then-mint for the taker's sell account, the
/// taker's buy account, the owner's buy account and the vault, then the lock.
pub open spec fn take_check(t: Take, lock_period: int) -> Result<(), CustomError> {
    if t.taker_ata_a.owner@ != t.taker@ {
        Err(CustomError::OwnershipValidationFailed)
    } else if t.taker_ata_a.mint@ != t.sell_token@ {
        Err(CustomError::TokenAccountMismatch)
    } else if t.taker_ata_b.owner@ != t.taker@ {
        Err(CustomError::OwnershipValidationFailed)
    } else if t.taker_ata_b.mint@ != t.buy_token@ {
        Err(CustomError::TokenAccountMismatch)
    } else if t.owner_ata_b.owner@ != t.owner@ {
        Err(CustomError::OwnershipValidationFailed)
    } else if t.owner_ata_b.mint@ != t.buy_token@ {
        Err(CustomError::TokenAccountMismatch)
    } else if t.vault.owner@ != t.escrow_address@ {
        Err(CustomError::OwnershipValidationFailed)
    } else if t.vault.mint@ != t.sell_token@ {
        Err(CustomError::TokenAccountMismatch)
    } else if t.unix_timestamp < t.escrow.created_time + lock_period {
        Err(CustomError::TimeLockActive)
    } else {
        Ok(())
    }
}

/// The payment of a take: the target amount from the taker's buy account to
/// the owner's buy account, signed by the taker.
pub open spec fn payment(t: Take) -> TokenInstruction {
    TokenInstruction::Transfer {
        from: t.taker_ata_b.address,
        to: t.owner_ata_b.address,
        authority: t.taker,
        amount: t.escrow.target_amount,
    }
}

/// The release of a take: the whole vault to the taker's sell account.
pub open spec fn release(t: Take) -> TokenInstruction {
    TokenInstruction::Transfer {
        from: t.vault.address,
        to: t.taker_ata_a.address,
        authority: t.escrow_address,
        amount: t.vault.amount,
    }
}

/// The closing of the vault, whose rent goes to the owner.
pub open spec fn close_vault(t: Take) -> TokenInstruction {
    TokenInstruction::CloseAccount {
        account: t.vault.address,
        destination: t.owner,
        authority: t.escrow_address,
    }
}

/// The seeds by which the escrow signs for its vault.
pub open spec fn take_seeds(t: Take, seed: Seq<u8>) -> Seq<Seq<u8>> {
    escrow_seeds(seed, t.escrow.owner, t.escrow.offer_id, t.escrow.vault_bump)
}

impl Take {
    /// Checks the accounts' owners and mints and that the lock period has
    /// passed since the escrow was created.
    pub fn verify_conditions(&self, lock_period: i64) -> (res: Result<(), CustomError>)
        requires
            i64::MIN <= self.escrow.created_time + lock_period <= i64::MAX,
        ensures
            res == take_check(*self, lock_period as int),
    {
        if !self.taker_ata_a.owner.key_eq(&self.taker) {
            return Err(CustomError::OwnershipValidationFailed);
        }
        if !self.taker_ata_a.mint.key_eq(&self.sell_token) {
            return Err(CustomError::TokenAccountMismatch);
        }
        if !self.taker_ata_b.owner.key_eq(&self.taker) {
            return Err(CustomError::OwnershipValidationFailed);
        }
        if !self.taker_ata_b.mint.key_eq(&self.buy_token) {
            return Err(CustomError::TokenAccountMismatch);
        }
        if !self.owner_ata_b.owner.key_eq(&self.owner) {
            return Err(CustomError::OwnershipValidationFailed);
        }
        if !self.owner_ata_b.mint.key_eq(&self.buy_token) {
            return Err(CustomError::TokenAccountMismatch);
        }
        if !self.vault.owner.key_eq(&self.escrow_address) {
            return Err(CustomError::OwnershipValidationFailed);
        }
        if !self.vault.mint.key_eq(&self.sell_token) {
            return Err(CustomError::TokenAccountMismatch);
        }
        if self.unix_timestamp < self.escrow.created_time + lock_period {
            return Err(CustomError::TimeLockActive);
        }
        Ok(())
    }

    /// The taker's payment of the target amount to the owner.
    pub fn transfer_payment(&self) -> (call: TokenCall)
        ensures
            call@ == (payment(*self), Seq::<Seq<u8>>::empty()),
    {
        signed_by_user(
            TokenInstruction::Transfer {
                from: self.taker_ata_b.address,
                to: self.owner_ata_b.address,
                authority: self.taker,
                amount: self.escrow.target_amount,
            },
        )
    }

    /// The release of the vault to the taker and its closing, both signed by
    /// the escrow's program address derived from `escrow_seed`.
    pub fn release_and_close(&self, escrow_seed: &[u8]) -> (calls: Vec<TokenCall>)
        ensures
            calls@.len() == 2,
            calls@[0]@ == (release(*self), take_seeds(*self, escrow_seed@)),
            calls@[1]@ == (close_vault(*self), take_seeds(*self, escrow_seed@)),
    {
        let seeds = escrow_signer_seeds(
            escrow_seed,
            &self.escrow.owner,
            self.escrow.offer_id,
            self.escrow.vault_bump,
        );
        signed_pair(
            TokenInstruction::Transfer {
                from: self.vault.address,
                to: self.taker_ata_a.address,
                authority: self.escrow_address,
                amount: self.vault.amount,
            },
            TokenInstruction::CloseAccount {
                account: self.vault.address,
                destination: self.owner,
                authority: self.escrow_address,
            },
            seeds,
        )
    }
}

/// What a take moves, whatever the vault holds and whatever the target
/// amount is: the taker pays the owner exactly the target amount; the
/// release moves the vault's whole amount from the vault to the taker, so
/// the vault holds nothing when it is then closed, its rent going to the
/// owner; the escrow signs for the vault.
pub proof fn law_take_empties_vault(t: Take)
    ensures
        payment(t) matches TokenInstruction::Transfer { from, to, authority, amount } && from
            == t.taker_ata_b.address && to == t.owner_ata_b.address && authority == t.taker
            && amount == t.escrow.target_amount,
        release(t) matches TokenInstruction::Transfer { from, to, authority, amount } && from
            == t.vault.address && to == t.taker_ata_a.address && authority == t.escrow_address
            && t.vault.amount - amount == 0,
        close_vault(t) matches TokenInstruction::CloseAccount { account, destination, authority }
            && account == t.vault.address && destination == t.owner && authority
            == t.escrow_address,
{
}

/// A take is accepted only once the lock period has passed since the
/// escrow's creation, and only with the taker's and owner's accounts of the
/// escrow's mints and the vault held by the escrow.
pub proof fn law_take_after_lock(t: Take, lock_period: int)
    requires
        take_check(t, lock_period) is Ok,
    ensures
        t.unix_timestamp >= t.escrow.created_time + lock_period,
        t.taker_ata_a.owner@ == t.taker@ && t.taker_ata_a.mint@ == t.sell_token@,
        t.taker_ata_b.owner@ == t.taker@ && t.taker_ata_b.mint@ == t.buy_token@,
        t.owner_ata_b.owner@ == t.owner@ && t.owner_ata_b.mint@ == t.buy_token@,
        t.vault.owner@ == t.escrow_address@ && t.vault.mint@ == t.sell_token@,
{
}

/// Before the lock period has passed a take is always refused.
pub proof fn law_take_refused_during_lock(t: Take, lock_period: int)
    requires
        t.unix_timestamp < t.escrow.created_time + lock_period,
    ensures
        take_check(t, lock_period) is Err,
{
}

/// Once a take is accepted it stays acceptable at every later time: the lock
/// does not close again.
pub proof fn law_lock_stays_open(t: Take, lock_period: int, later: i64)
    requires
        take_check(t, lock_period) is Ok,
        later >= t.unix_timestamp,
    ensures
        take_check(Take { unix_timestamp: later, ..t }, lock_period) is Ok,
{
}

/// A take: the checks, then the payment, the release and the closing of the
/// vault, in that order.
pub fn take(ctx: &Take, lock_period: i64, escrow_seed: &[u8]) -> (res: Result<
    Vec<TokenCall>,
    CustomError,
>)
    requires
        i64::MIN <= ctx.escrow.created_time + lock_period <= i64::MAX,
    ensures
        match res {
            Ok(calls) => {
                &&& take_check(*ctx, lock_period as int) is Ok
                &&& calls@.len() == 3
                &&& calls@[0]@ == (payment(*ctx), Seq::<Seq<u8>>::empty())
                &&& calls@[1]@ == (release(*ctx), take_seeds(*ctx, escrow_seed@))
                &&& calls@[2]@ == (close_vault(*ctx), take_seeds(*ctx, escrow_seed@))
            },
            Err(e) => take_check(*ctx, lock_period as int) == Err::<(), CustomError>(e),
        },
{
    ctx.verify_conditions(lock_period)?;
    let mut calls: Vec<TokenCall> = Vec::new();
    calls.push(ctx.transfer_payment());
    let mut rest = ctx.release_and_close(escrow_seed);
    calls.append(&mut rest);
    Ok(calls)
}

} // verus!
