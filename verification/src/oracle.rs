//! The stored state and errors of the language-model oracle agent.

use crate::keys::Pubkey;
use vstd::prelude::*;

verus! {

/// Errors of the oracle agent program.
#[derive(Clone, Copy, Debug, PartialEq, Eq, Structural)]
pub enum OracleError {
    /// Invalid account configuration.
    InvalidAccountConfig,
    /// Unauthorized access attempt.
    UnauthorizedAccess,
}

/// The agent's account: the address of its model context and its bump.
#[derive(Clone, Copy, Debug)]
pub struct OracleAgent {
    pub llm_context_addr: Pubkey,
    pub signer_bump: u8,
}

} // verus!
