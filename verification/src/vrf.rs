//! A per-user stored value that the user sets directly or that the
//! verifiable-random-function oracle sets from its randomness.

use crate::keys::{Pubkey, le_value};
use vstd::prelude::*;

verus! {

/// A user's account.
#[derive(Clone, Copy, Debug)]
pub struct UserData {
    pub owner: Pubkey,
    pub stored_value: u64,
    pub signer_bump: u8,
}

impl UserData {
    /// The space the account is created with.
    pub const INIT_SPACE: usize = 32 + 8 + 1 + 8;
}

/// The bytes of a 32-byte seed that make the `u64` the oracle draws from it:
/// bytes 0, 4, 8, ..., 28, least significant first.
pub open spec fn drawn_bytes(seed: Seq<u8>) -> Seq<u8> {
    seq![seed[0], seed[4], seed[8], seed[12], seed[16], seed[20], seed[24], seed[28]]
}

/// `ephemeral_vrf_sdk::rnd::random_u64`: the source builds the `u64` whose
/// little-endian bytes are bytes 0, 4, 8, ..., 28 of the seed, and this
/// contract states exactly that; the function does not panic.
#[verifier::external_body]
fn random_u64(randomness: &[u8; 32]) -> (value: u64)
    ensures
        value as nat == le_value(drawn_bytes(randomness@)),
{
    ephemeral_vrf_sdk::rnd::random_u64(randomness)
}

/// The bump found for a new user account.
#[derive(Clone, Copy, Debug)]
pub struct InitUserBumps {
    pub user_account: u8,
}

/// The accounts of creating a user account.
#[derive(Clone, Copy, Debug)]
pub struct InitUser {
    pub user: Pubkey,
    pub user_account: UserData,
}

impl InitUser {
    /// Initializes the user's account: owned by the user, value zero.
    pub fn initialize(&mut self, bumps: &InitUserBumps)
        ensures
            final(self).user_account == (UserData {
                owner: old(self).user,
                stored_value: 0,
                signer_bump: bumps.user_account,
            }),
            final(self).user == old(self).user,
    {
        self.user_account = UserData { owner: self.user, stored_value: 0, signer_bump: bumps.user_account };
    }
}

/// The accounts of a user setting their value.
#[derive(Clone, Copy, Debug)]
pub struct UpdateUser {
    pub user: Pubkey,
    pub user_account: UserData,
}

impl UpdateUser {
    /// Stores `new_value`.
    pub fn update(&mut self, new_value: u64)
        ensures
            final(self).user_account == (UserData {
                stored_value: new_value,
                ..old(self).user_account
            }),
            final(self).user == old(self).user,
    {
        self.user_account.stored_value = new_value;
    }
}

/// The accounts of the oracle's callback.
#[derive(Clone, Copy, Debug)]
pub struct ConsumeRandomnessCtx {
    pub vrf_program_identity: Pubkey,
    pub user_account: UserData,
}

impl ConsumeRandomnessCtx {
    /// Stores the `u64` drawn from the oracle's randomness.
    pub fn consume_randomness(&mut self, randomness: [u8; 32])
        ensures
            final(self).user_account.stored_value as nat == le_value(drawn_bytes(randomness@)),
            final(self).user_account.owner == old(self).user_account.owner,
            final(self).user_account.signer_bump == old(self).user_account.signer_bump,
            final(self).vrf_program_identity == old(self).vrf_program_identity,
    {
        let rnd_value = random_u64(&randomness);
        self.user_account.stored_value = rnd_value;
    }
}

} // verus!
