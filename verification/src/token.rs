//! Token accounts as the program logic reads them, and the token-program
//! instructions that the logic decides to issue.

use crate::keys::{Pubkey, bytes_to_vec, law_u64_le_bytes_injective, u64_le_bytes, u64_to_le_bytes};
use vstd::prelude::*;

verus! {

/// The fields of a token account that the programs read, with its address.
#[derive(Clone, Copy, Debug)]
pub struct TokenAccountData {
    pub address: Pubkey,
    pub owner: Pubkey,
    pub mint: Pubkey,
    pub amount: u64,
}

/// A token-program instruction issued by one of the programs.
#[derive(Clone, Copy, Debug)]
pub enum TokenInstruction {
    /// Move `amount` tokens from `from` to `to`, signed by `authority`.
    Transfer { from: Pubkey, to: Pubkey, authority: Pubkey, amount: u64 },
    /// Close `account`, sending its rent to `destination`, signed by `authority`.
    CloseAccount { account: Pubkey, destination: Pubkey, authority: Pubkey },
    /// Let `delegate` spend up to `amount` tokens of `to`, signed by `authority`.
    Approve { to: Pubkey, delegate: Pubkey, authority: Pubkey, amount: u64 },
}

/// An instruction together with the seeds of the program address that signs
/// it; the seeds are empty when the authority signs the transaction itself.
pub struct TokenCall {
    pub instruction: TokenInstruction,
    pub signer_seeds: Vec<Vec<u8>>,
}

/// The byte contents of a list of seeds.
pub open spec fn seeds_view(seeds: Seq<Vec<u8>>) -> Seq<Seq<u8>> {
    seeds.map_values(|s: Vec<u8>| s@)
}

impl View for TokenCall {
    type V = (TokenInstruction, Seq<Seq<u8>>);

    open spec fn view(&self) -> (TokenInstruction, Seq<Seq<u8>>) {
        (self.instruction, seeds_view(self.signer_seeds@))
    }
}

/// A call signed by the transaction's own signer.
pub fn signed_by_user(instruction: TokenInstruction) -> (call: TokenCall)
    ensures
        call@ == (instruction, Seq::<Seq<u8>>::empty()),
{
    let call = TokenCall { instruction, signer_seeds: Vec::new() };
    assert(seeds_view(call.signer_seeds@) =~= Seq::<Seq<u8>>::empty());
    call
}

/// The seeds `[seed, owner, offer_id as 8 little-endian bytes, [bump]]` of an
/// escrow's program address.
pub open spec fn escrow_seeds(seed: Seq<u8>, owner: Pubkey, offer_id: u64, bump: u8) -> Seq<
    Seq<u8>,
> {
    seq![seed, owner@, u64_le_bytes(offer_id), seq![bump]]
}

/// Two offers of one owner with distinct offer ids have distinct escrow
/// seeds, whatever their bumps, so no escrow can sign for another's vault.
pub proof fn law_escrow_seeds_distinct(
    seed: Seq<u8>,
    owner: Pubkey,
    offer_a: u64,
    bump_a: u8,
    offer_b: u64,
    bump_b: u8,
)
    requires
        offer_a != offer_b,
    ensures
        escrow_seeds(seed, owner, offer_a, bump_a) != escrow_seeds(seed, owner, offer_b, bump_b),
{
    law_u64_le_bytes_injective(offer_a, offer_b);
    assert(escrow_seeds(seed, owner, offer_a, bump_a)[2] == u64_le_bytes(offer_a));
    assert(escrow_seeds(seed, owner, offer_b, bump_b)[2] == u64_le_bytes(offer_b));
}

/// Builds the signer seeds of an escrow's program address.
pub fn escrow_signer_seeds(seed: &[u8], owner: &Pubkey, offer_id: u64, bump: u8) -> (out: Vec<
    Vec<u8>,
>)
    ensures
        seeds_view(out@) == escrow_seeds(seed@, *owner, offer_id, bump),
{
    let mut out: Vec<Vec<u8>> = Vec::new();
    out.push(bytes_to_vec(seed));
    out.push(owner.to_vec());
    out.push(u64_to_le_bytes(offer_id));
    let mut last: Vec<u8> = Vec::new();
    last.push(bump);
    out.push(last);
    assert(seeds_view(out@) =~= escrow_seeds(seed@, *owner, offer_id, bump));
    out
}

/// The seeds `[seed, key, [bump]]` of a program address derived from one key.
pub open spec fn keyed_seeds(seed: Seq<u8>, key: Pubkey, bump: u8) -> Seq<Seq<u8>> {
    seq![seed, key@, seq![bump]]
}

/// Builds the signer seeds of a program address derived from one key.
pub fn keyed_signer_seeds(seed: &[u8], key: &Pubkey, bump: u8) -> (out: Vec<Vec<u8>>)
    ensures
        seeds_view(out@) == keyed_seeds(seed@, *key, bump),
{
    let mut out: Vec<Vec<u8>> = Vec::new();
    out.push(bytes_to_vec(seed));
    out.push(key.to_vec());
    let mut last: Vec<u8> = Vec::new();
    last.push(bump);
    out.push(last);
    assert(seeds_view(out@) =~= keyed_seeds(seed@, *key, bump));
    out
}

/// Two token calls signed by the same program address, in order.
pub fn signed_pair(first: TokenInstruction, second: TokenInstruction, seeds: Vec<Vec<u8>>) -> (out:
    Vec<TokenCall>)
    ensures
        out@.len() == 2,
        out@[0]@ == (first, seeds_view(seeds@)),
        out@[1]@ == (second, seeds_view(seeds@)),
{
    let copy = clone_seeds(&seeds);
    let mut out: Vec<TokenCall> = Vec::new();
    out.push(TokenCall { instruction: first, signer_seeds: copy });
    out.push(TokenCall { instruction: second, signer_seeds: seeds });
    out
}

/// A copy of a list of seeds.
pub fn clone_seeds(seeds: &Vec<Vec<u8>>) -> (out: Vec<Vec<u8>>)
    ensures
        seeds_view(out@) == seeds_view(seeds@),
{
    let mut out: Vec<Vec<u8>> = Vec::new();
    let mut i: usize = 0;
    while i < seeds.len()
        invariant
            0 <= i <= seeds@.len(),
            out@.len() == i,
            forall|j: int| 0 <= j < i ==> out@[j]@ == seeds@[j]@,
        decreases seeds@.len() - i,
    {
        let piece = bytes_to_vec(seeds[i].as_slice());
        out.push(piece);
        i = i + 1;
    }
    assert(seeds_view(out@) =~= seeds_view(seeds@));
    out
}

} // verus!
