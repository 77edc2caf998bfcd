//! Verified core logic of a persistent FIFO todo queue and of a family of
//! on-chain token programs (escrows, a whitelisted vault and a VRF consumer).
//!
//! Every function here works on plain values; the program glue that reads
//! accounts, performs token instructions and touches the file system lives
//! outside this crate.

pub mod keys;
pub mod lock_escrow;
pub mod oracle;
pub mod parsing;
pub mod queue;
pub mod timed_escrow;
pub mod todo;
pub mod token;
pub mod vault;
pub mod vrf;
