//! An expiring token escrow: the initiator locks sell tokens in a vault for
//! a fixed time; before expiry a taker pays the requested amount of buy
//! tokens and receives the vault; the initiator can take the vault back with
//! a refund, and schedules an automatic refund at expiry with a task queue.

use crate::keys::Pubkey;
use crate::token::{
    TokenAccountData, TokenCall, TokenInstruction, escrow_seeds, escrow_signer_seeds, seeds_view,
    signed_by_user, signed_pair,
};
use anchor_lang::prelude::SolanaSysvar;
use anchor_lang::solana_program::instruction::{AccountMeta, Instruction};
use vstd::prelude::*;
use vstd::string::StringExecFns;

verus! {

/// A program error of the Solana runtime.
#[verifier::external_type_specification]
#[verifier::external_body]
pub struct ExProgramError(anchor_lang::prelude::ProgramError);

/// An error of the Anchor framework.
#[verifier::external_type_specification]
#[verifier::external_body]
pub struct ExAnchorError(anchor_lang::error::Error);

/// Errors of the escrow program.
#[derive(Debug)]
pub enum ErrorCode {
    /// The escrow has expired.
    EscrowExpired,
    /// The expiry time does not fit in an `i64`.
    ExpiryOverflow,
    /// The runtime refused to give the clock.
    Program(anchor_lang::prelude::ProgramError),
}

/// The escrow's stored state.
#[derive(Clone, Copy, Debug)]
pub struct Escrow {
    pub offer_id: u64,
    pub initiator: Pubkey,
    pub sell_mint: Pubkey,
    pub buy_mint: Pubkey,
    pub requested_amount: u64,
    pub start_time: i64,
    pub expiry_time: i64,
    pub vault_bump: u8,
}

/// The unix timestamp of the cluster clock.
///
/// `Clock::get` reads the clock sysvar from the runtime; what it returns
/// depends on when and where it runs, so nothing is stated of the result.
#[verifier::external_body]
fn clock_unix_timestamp() -> (res: Result<i64, anchor_lang::prelude::ProgramError>) {
    anchor_lang::prelude::Clock::get().map(|clock| clock.unix_timestamp)
}

/// The bump found for a new escrow.
#[derive(Clone, Copy, Debug)]
pub struct MakeBumps {
    pub escrow: u8,
}

/// The accounts of making an escrow.
#[derive(Clone, Copy, Debug)]
pub struct Make {
    pub initiator: Pubkey,
    pub sell_mint: Pubkey,
    pub buy_mint: Pubkey,
    pub initiator_ata_sell: TokenAccountData,
    pub escrow: Escrow,
    pub vault: TokenAccountData,
}

/// The escrow a make stores when started at `start_time` for `duration`.
pub open spec fn made_escrow(
    m: Make,
    offer_id: u64,
    requested_amount: u64,
    bump: u8,
    start_time: i64,
    duration: i64,
) -> Escrow {
    Escrow {
        offer_id,
        initiator: m.initiator,
        sell_mint: m.sell_mint,
        buy_mint: m.buy_mint,
        requested_amount,
        start_time,
        expiry_time: (start_time + duration) as i64,
        vault_bump: bump,
    }
}

impl Make {
    /// Stores the escrow's terms, started at `start_time` and expiring
    /// `duration` seconds later.
    pub fn init_escrow_at(
        &mut self,
        offer_id: u64,
        requested_amount: u64,
        bumps: &MakeBumps,
        duration: i64,
        start_time: i64,
    )
        requires
            i64::MIN <= start_time + duration <= i64::MAX,
        ensures
            final(self).escrow == made_escrow(
                *old(self),
                offer_id,
                requested_amount,
                bumps.escrow,
                start_time,
                duration,
            ),
            final(self).initiator == old(self).initiator,
            final(self).sell_mint == old(self).sell_mint,
            final(self).buy_mint == old(self).buy_mint,
            final(self).initiator_ata_sell == old(self).initiator_ata_sell,
            final(self).vault == old(self).vault,
    {
        self.escrow = Escrow {
            offer_id,
            initiator: self.initiator,
            sell_mint: self.sell_mint,
            buy_mint: self.buy_mint,
            requested_amount,
            start_time,
            expiry_time: start_time + duration,
            vault_bump: bumps.escrow,
        };
    }

    /// Stores the escrow's terms for the clock reading `clock`: a failed
    /// reading is passed on as `Program`; a start time whose expiry does not
    /// fit in an `i64` gives `ExpiryOverflow`; both leave the escrow as it was.
    pub fn init_escrow_with_clock(
        &mut self,
        offer_id: u64,
        requested_amount: u64,
        bumps: &MakeBumps,
        duration: i64,
        clock: Result<i64, anchor_lang::prelude::ProgramError>,
    ) -> (res: Result<(), ErrorCode>)
        ensures
            match clock {
                Ok(t) => if i64::MIN <= t + duration <= i64::MAX {
                    res is Ok && final(self).escrow == made_escrow(
                        *old(self),
                        offer_id,
                        requested_amount,
                        bumps.escrow,
                        t,
                        duration,
                    )
                } else {
                    res is Err && res->Err_0 is ExpiryOverflow && final(self).escrow == old(
                        self,
                    ).escrow
                },
                Err(e) => res == Err::<(), ErrorCode>(ErrorCode::Program(e)) && final(self).escrow
                    == old(self).escrow,
            },
            final(self).initiator == old(self).initiator,
            final(self).sell_mint == old(self).sell_mint,
            final(self).buy_mint == old(self).buy_mint,
            final(self).initiator_ata_sell == old(self).initiator_ata_sell,
            final(self).vault == old(self).vault,
    {
        let start_time = match clock {
            Ok(t) => t,
            Err(e) => return Err(ErrorCode::Program(e)),
        };
        if start_time.checked_add(duration).is_none() {
            return Err(ErrorCode::ExpiryOverflow);
        }
        self.init_escrow_at(offer_id, requested_amount, bumps, duration, start_time);
        Ok(())
    }

    /// Stores the escrow's terms, started now by the cluster clock and
    /// expiring `duration` seconds later (see `init_escrow_with_clock`, which
    /// it calls with the clock's reading).
    pub fn init_escrow(
        &mut self,
        offer_id: u64,
        requested_amount: u64,
        bumps: &MakeBumps,
        duration: i64,
    ) -> (res: Result<(), ErrorCode>)
        ensures
            match res {
                Ok(()) => exists|start: i64|
                    i64::MIN <= start + duration <= i64::MAX && final(self).escrow == made_escrow(
                        *old(self),
                        offer_id,
                        requested_amount,
                        bumps.escrow,
                        start,
                        duration,
                    ),
                Err(ErrorCode::ExpiryOverflow) => final(self).escrow == old(self).escrow
                    && duration != 0,
                Err(ErrorCode::Program(_)) => final(self).escrow == old(self).escrow,
                Err(ErrorCode::EscrowExpired) => false,
            },
            final(self).initiator == old(self).initiator,
            final(self).sell_mint == old(self).sell_mint,
            final(self).buy_mint == old(self).buy_mint,
            final(self).initiator_ata_sell == old(self).initiator_ata_sell,
            final(self).vault == old(self).vault,
    {
        let clock = clock_unix_timestamp();
        self.init_escrow_with_clock(offer_id, requested_amount, bumps, duration, clock)
    }

    /// The initiator's deposit of `deposit` sell tokens into the vault.
    pub fn deposit(&self, deposit: u64) -> (call: TokenCall)
        ensures
            call@ == (
                TokenInstruction::Transfer {
                    from: self.initiator_ata_sell.address,
                    to: self.vault.address,
                    authority: self.initiator,
                    amount: deposit,
                },
                Seq::<Seq<u8>>::empty(),
            ),
    {
        signed_by_user(
            TokenInstruction::Transfer {
                from: self.initiator_ata_sell.address,
                to: self.vault.address,
                authority: self.initiator,
                amount: deposit,
            },
        )
    }
}

/// The accounts of a refund.
#[derive(Clone, Copy, Debug)]
pub struct Refund {
    pub initiator: Pubkey,
    pub sell_mint: Pubkey,
    pub initiator_ata_sell: TokenAccountData,
    pub escrow_address: Pubkey,
    pub escrow: Escrow,
    pub vault: TokenAccountData,
}

impl Refund {
    /// The return of the whole vault to the initiator and the closing of the
    /// vault to the initiator, both signed by the escrow's program address.
    pub fn refund_and_close_vault(&self, escrow_seed: &[u8]) -> (calls: Vec<TokenCall>)
        ensures
            calls@.len() == 2,
            calls@[0]@ == (
                TokenInstruction::Transfer {
                    from: self.vault.address,
                    to: self.initiator_ata_sell.address,
                    authority: self.escrow_address,
                    amount: self.vault.amount,
                },
                escrow_seeds(escrow_seed@, self.initiator, self.escrow.offer_id, self.escrow.vault_bump),
            ),
            calls@[1]@ == (
                TokenInstruction::CloseAccount {
                    account: self.vault.address,
                    destination: self.initiator,
                    authority: self.escrow_address,
                },
                escrow_seeds(escrow_seed@, self.initiator, self.escrow.offer_id, self.escrow.vault_bump),
            ),
    {
        let seeds = escrow_signer_seeds(
            escrow_seed,
            &self.initiator,
            self.escrow.offer_id,
            self.escrow.vault_bump,
        );
        signed_pair(
            TokenInstruction::Transfer {
                from: self.vault.address,
                to: self.initiator_ata_sell.address,
                authority: self.escrow_address,
                amount: self.vault.amount,
            },
            TokenInstruction::CloseAccount {
                account: self.vault.address,
                destination: self.initiator,
                authority: self.escrow_address,
            },
            seeds,
        )
    }
}

/// The accounts of a take.
#[derive(Clone, Copy, Debug)]
pub struct Take {
    pub taker: Pubkey,
    pub initiator: Pubkey,
    pub sell_mint: Pubkey,
    pub buy_mint: Pubkey,
    pub taker_ata_sell: TokenAccountData,
    pub taker_ata_buy: TokenAccountData,
    pub initiator_ata_buy: TokenAccountData,
    pub escrow_address: Pubkey,
    pub escrow: Escrow,
    pub vault: TokenAccountData,
}

/// Whether a take at time `now` comes before the escrow's expiry.
pub open spec fn before_expiry(escrow: Escrow, now: i64) -> bool {
    now < escrow.expiry_time
}

/// An escrow made at `start_time` for `duration` can be taken exactly at the
/// times before `start_time + duration`; in particular it can be taken when
/// it is made if and only if the duration is positive.
pub proof fn law_take_window(
    m: Make,
    offer_id: u64,
    requested_amount: u64,
    bump: u8,
    start_time: i64,
    duration: i64,
    now: i64,
)
    requires
        i64::MIN <= start_time + duration <= i64::MAX,
    ensures
        before_expiry(made_escrow(m, offer_id, requested_amount, bump, start_time, duration), now)
            <==> now < start_time + duration,
        before_expiry(made_escrow(m, offer_id, requested_amount, bump, start_time, duration), start_time)
            <==> duration > 0,
{
}

/// Once an escrow has expired it stays expired: a take refused at some time
/// is refused at every later time.
pub proof fn law_expired_stays_expired(escrow: Escrow, now: i64, later: i64)
    requires
        !before_expiry(escrow, now),
        later >= now,
    ensures
        !before_expiry(escrow, later),
{
}

impl Take {
    /// Accepts a take at time `now` only before the escrow's expiry.
    pub fn validate_at(&self, now: i64) -> (res: Result<(), ErrorCode>)
        ensures
            before_expiry(self.escrow, now) ==> res is Ok,
            !before_expiry(self.escrow, now) ==> res is Err && res->Err_0 is EscrowExpired,
    {
        if now < self.escrow.expiry_time {
            Ok(())
        } else {
            Err(ErrorCode::EscrowExpired)
        }
    }

    /// Accepts a take for the clock reading `clock`: a failed reading is
    /// passed on as `Program`; otherwise as `validate_at` decides.
    pub fn validate_with_clock(&self, clock: Result<i64, anchor_lang::prelude::ProgramError>) -> (res:
        Result<(), ErrorCode>)
        ensures
            match clock {
                Ok(now) => if before_expiry(self.escrow, now) {
                    res is Ok
                } else {
                    res is Err && res->Err_0 is EscrowExpired
                },
                Err(e) => res == Err::<(), ErrorCode>(ErrorCode::Program(e)),
            },
    {
        match clock {
            Ok(now) => self.validate_at(now),
            Err(e) => Err(ErrorCode::Program(e)),
        }
    }

    /// Accepts a take only before the escrow's expiry by the cluster clock
    /// (see `validate_with_clock`, which it calls with the clock's reading).
    pub fn validate(&self) -> (res: Result<(), ErrorCode>)
        ensures
            match res {
                Ok(()) => exists|now: i64| before_expiry(self.escrow, now),
                Err(ErrorCode::EscrowExpired) => exists|now: i64| !before_expiry(self.escrow, now),
                Err(ErrorCode::ExpiryOverflow) => false,
                Err(ErrorCode::Program(_)) => true,
            },
    {
        let clock = clock_unix_timestamp();
        self.validate_with_clock(clock)
    }

    /// The taker's payment of the requested amount to the initiator.
    pub fn deposit(&self) -> (call: TokenCall)
        ensures
            call@ == (
                TokenInstruction::Transfer {
                    from: self.taker_ata_buy.address,
                    to: self.initiator_ata_buy.address,
                    authority: self.taker,
                    amount: self.escrow.requested_amount,
                },
                Seq::<Seq<u8>>::empty(),
            ),
    {
        signed_by_user(
            TokenInstruction::Transfer {
                from: self.taker_ata_buy.address,
                to: self.initiator_ata_buy.address,
                authority: self.taker,
                amount: self.escrow.requested_amount,
            },
        )
    }

    /// The release of the whole vault to the taker and the closing of the
    /// vault to the initiator, both signed by the escrow's program address.
    pub fn withdraw_and_close_vault(&self, escrow_seed: &[u8]) -> (calls: Vec<TokenCall>)
        ensures
            calls@.len() == 2,
            calls@[0]@ == (
                TokenInstruction::Transfer {
                    from: self.vault.address,
                    to: self.taker_ata_sell.address,
                    authority: self.escrow_address,
                    amount: self.vault.amount,
                },
                escrow_seeds(escrow_seed@, self.initiator, self.escrow.offer_id, self.escrow.vault_bump),
            ),
            calls@[1]@ == (
                TokenInstruction::CloseAccount {
                    account: self.vault.address,
                    destination: self.initiator,
                    authority: self.escrow_address,
                },
                escrow_seeds(escrow_seed@, self.initiator, self.escrow.offer_id, self.escrow.vault_bump),
            ),
    {
        let seeds = escrow_signer_seeds(
            escrow_seed,
            &self.initiator,
            self.escrow.offer_id,
            self.escrow.vault_bump,
        );
        signed_pair(
            TokenInstruction::Transfer {
                from: self.vault.address,
                to: self.taker_ata_sell.address,
                authority: self.escrow_address,
                amount: self.vault.amount,
            },
            TokenInstruction::CloseAccount {
                account: self.vault.address,
                destination: self.initiator,
                authority: self.escrow_address,
            },
            seeds,
        )
    }
}

/// An account an instruction names, and how it names it.
#[derive(Clone, Copy, Debug)]
pub struct AccountMetaData {
    pub pubkey: Pubkey,
    pub is_signer: bool,
    pub is_writable: bool,
}

/// An instruction: the program it calls, its accounts and its data.
pub struct InstructionData {
    pub program_id: Pubkey,
    pub accounts: Vec<AccountMetaData>,
    pub data: Vec<u8>,
}

impl View for InstructionData {
    type V = (Pubkey, Seq<AccountMetaData>, Seq<u8>);

    open spec fn view(&self) -> (Pubkey, Seq<AccountMetaData>, Seq<u8>) {
        (self.program_id, self.accounts@, self.data@)
    }
}

/// An instruction of a compiled transaction, naming its program and its
/// accounts by their indices in the transaction's account list.
pub struct CompiledInstruction {
    pub program_id_index: u8,
    pub accounts: Vec<u8>,
    pub data: Vec<u8>,
}

/// A transaction compiled for the task queue: its distinct accounts, writable
/// signers first, then read-only signers, then writable and then read-only
/// non-signers, with the size of the first three groups; its instructions;
/// and the extra signer seeds it asks for.
pub struct CompiledTransaction {
    pub num_rw_signers: u8,
    pub num_ro_signers: u8,
    pub num_rw: u8,
    pub accounts: Vec<Pubkey>,
    pub instructions: Vec<CompiledInstruction>,
    pub signer_seeds: Vec<Vec<Vec<u8>>>,
}

/// Whether some account of `metas` with the bytes `k` signs.
pub open spec fn names_signer(metas: Seq<AccountMetaData>, k: Seq<u8>) -> bool {
    exists|j: int| 0 <= j < metas.len() && #[trigger] metas[j].pubkey@ == k && metas[j].is_signer
}

/// Whether some account of `metas` with the bytes `k` is writable.
pub open spec fn names_writable(metas: Seq<AccountMetaData>, k: Seq<u8>) -> bool {
    exists|j: int| 0 <= j < metas.len() && #[trigger] metas[j].pubkey@ == k && metas[j].is_writable
}

/// The group of key `k` among an instruction's accounts: 0 for writable
/// signers, 1 for read-only signers, 2 for writable and 3 for read-only
/// non-signers.
pub open spec fn account_group(metas: Seq<AccountMetaData>, k: Seq<u8>) -> int {
    if names_signer(metas, k) && names_writable(metas, k) {
        0
    } else if names_signer(metas, k) {
        1
    } else if names_writable(metas, k) {
        2
    } else {
        3
    }
}

/// The group a compiled transaction's counters give position `a`.
pub open spec fn position_group(tx: CompiledTransaction, a: int) -> int {
    if a < tx.num_rw_signers {
        0
    } else if a < tx.num_rw_signers + tx.num_ro_signers {
        1
    } else if a < tx.num_rw_signers + tx.num_ro_signers + tx.num_rw {
        2
    } else {
        3
    }
}

/// `tx` is a compilation of the single instruction calling `program_id` with
/// the accounts `metas` and the data `data`, with no extra signer seeds: its
/// accounts are the distinct keys of the program and the instruction,
/// grouped as its counters say; its one instruction has the data and names
/// the program and each account by an index pointing at that key.
pub open spec fn compiled_from(
    tx: CompiledTransaction,
    program_id: Pubkey,
    metas: Seq<AccountMetaData>,
    data: Seq<u8>,
) -> bool {
    let keys = tx.accounts@;
    let ci = tx.instructions@[0];
    &&& tx.signer_seeds@.len() == 0
    &&& tx.instructions@.len() == 1
    &&& ci.data@ == data
    &&& (ci.program_id_index as int) < keys.len()
    &&& keys[ci.program_id_index as int]@ == program_id@
    &&& ci.accounts@.len() == metas.len()
    &&& forall|j: int|
        0 <= j < metas.len() ==> (#[trigger] ci.accounts@[j] as int) < keys.len() && keys[ci.accounts@[j] as int]@
            == metas[j].pubkey@
    &&& forall|a: int, b: int| 0 <= a < b < keys.len() ==> #[trigger] keys[a]@ != #[trigger] keys[b]@
    &&& forall|a: int|
        0 <= a < keys.len() ==> (#[trigger] keys[a])@ == program_id@ || exists|j: int|
            0 <= j < metas.len() && #[trigger] metas[j].pubkey@ == keys[a]@
    &&& forall|a: int|
        0 <= a < keys.len() ==> position_group(tx, a) == account_group(metas, (#[trigger] keys[a])@)
    &&& tx.num_rw_signers + tx.num_ro_signers + tx.num_rw <= keys.len()
}

/// `tuktuk_program::compile_transaction` on the one instruction `ix` and no
/// signer seeds, keeping the compiled transaction and converting it to plain
/// values. By its source it always returns `Ok`; with fewer than 255
/// accounts its `u8` counters and indices do not overflow; and its result is
/// a compilation of `ix` as `compiled_from` states. Which order accounts of
/// one group come in follows a hash map's iteration and is left unsaid.
#[verifier::external_body]
fn compile_single(ix: &InstructionData) -> (res: Result<CompiledTransaction, anchor_lang::error::Error>)
    requires
        ix.accounts@.len() < 255,
    ensures
        res is Ok,
        compiled_from(res->Ok_0, ix.program_id, ix.accounts@, ix.data@),
{
    let accounts = ix.accounts.iter().map(|m| AccountMeta { pubkey: m.pubkey.bytes.into(), is_signer: m.is_signer, is_writable: m.is_writable }).collect();
    let tx = tuktuk_program::compile_transaction(vec![Instruction { program_id: ix.program_id.bytes.into(), accounts, data: ix.data.clone() }], vec![])?.0;
    Ok(CompiledTransaction {
        num_rw_signers: tx.num_rw_signers, num_ro_signers: tx.num_ro_signers, num_rw: tx.num_rw,
        accounts: tx.accounts.iter().map(|k| Pubkey { bytes: k.to_bytes() }).collect(),
        instructions: tx.instructions.into_iter().map(|c| CompiledInstruction { program_id_index: c.program_id_index, accounts: c.accounts, data: c.data }).collect(),
        signer_seeds: tx.signer_seeds,
    })
}

/// The bump of the queue authority's program address.
#[derive(Clone, Copy, Debug)]
pub struct ScheduleBumps {
    pub queue_authority: u8,
}

/// The accounts of scheduling the automatic refund.
#[derive(Clone, Copy, Debug)]
pub struct Schedule {
    pub initiator: Pubkey,
    pub sell_mint: Pubkey,
    pub initiator_ata_sell: Pubkey,
    pub escrow_address: Pubkey,
    pub escrow: Escrow,
    pub vault: Pubkey,
    pub task_queue: Pubkey,
    pub task_queue_authority: Pubkey,
    pub task: Pubkey,
    pub queue_authority: Pubkey,
    pub token_program: Pubkey,
    pub system_program: Pubkey,
    pub tuktuk_program: Pubkey,
}

/// The accounts of the task queue's `queue_task_v0` instruction.
#[derive(Clone, Copy, Debug)]
pub struct QueueTaskAccounts {
    pub payer: Pubkey,
    pub queue_authority: Pubkey,
    pub task_queue: Pubkey,
    pub task_queue_authority: Pubkey,
    pub task: Pubkey,
    pub system_program: Pubkey,
}

/// A task to queue: the automatic refund, compiled, run at the escrow's
/// expiry, signed by the queue authority's program address.
pub struct QueueTask {
    pub tuktuk_program: Pubkey,
    pub accounts: QueueTaskAccounts,
    pub signer_seeds: Vec<Vec<u8>>,
    pub refund_instruction: InstructionData,
    pub transaction: CompiledTransaction,
    pub id: u16,
    pub trigger_timestamp: i64,
    pub crank_reward: Option<u64>,
    pub free_tasks: u8,
    pub description: String,
}

/// The lamports offered to the crank that runs the refund.
pub const CRANK_REWARD: u64 = 5_000_000;

/// The accounts of the refund instruction, in the refund's order: the
/// initiator, the sell mint (read only), the initiator's sell account, the
/// escrow, the vault, the token program and the system program (read only),
/// none of them signing.
pub open spec fn refund_accounts(s: Schedule) -> Seq<AccountMetaData> {
    seq![
        AccountMetaData { pubkey: s.initiator, is_signer: false, is_writable: true },
        AccountMetaData { pubkey: s.sell_mint, is_signer: false, is_writable: false },
        AccountMetaData { pubkey: s.initiator_ata_sell, is_signer: false, is_writable: true },
        AccountMetaData { pubkey: s.escrow_address, is_signer: false, is_writable: true },
        AccountMetaData { pubkey: s.vault, is_signer: false, is_writable: true },
        AccountMetaData { pubkey: s.token_program, is_signer: false, is_writable: false },
        AccountMetaData { pubkey: s.system_program, is_signer: false, is_writable: false },
    ]
}

impl Schedule {
    /// Queues the automatic refund of this escrow at its expiry as task
    /// `task_id`. The refund instruction calls `program_id` with the refund
    /// instruction's `auto_refund_discriminator` as data; the queueing is
    /// signed by the queue authority's address derived from
    /// `queue_authority_seed`.
    pub fn schedule(
        &self,
        task_id: u16,
        bumps: &ScheduleBumps,
        program_id: Pubkey,
        auto_refund_discriminator: &[u8],
        queue_authority_seed: &[u8],
    ) -> (task: QueueTask)
        ensures
            task.refund_instruction@ == (program_id, refund_accounts(*self), auto_refund_discriminator@),
            task.tuktuk_program == self.tuktuk_program,
            task.accounts == (QueueTaskAccounts {
                payer: self.initiator,
                queue_authority: self.queue_authority,
                task_queue: self.task_queue,
                task_queue_authority: self.task_queue_authority,
                task: self.task,
                system_program: self.system_program,
            }),
            seeds_view(task.signer_seeds@) == seq![queue_authority_seed@, seq![bumps.queue_authority]],
            task.id == task_id,
            task.trigger_timestamp == self.escrow.expiry_time,
            task.crank_reward == Some(CRANK_REWARD),
            task.free_tasks == 0,
            task.description@ == "escrow auto_refund on expiry"@,
            compiled_from(
                task.transaction,
                program_id,
                refund_accounts(*self),
                auto_refund_discriminator@,
            ),
    {
        let mut accounts: Vec<AccountMetaData> = Vec::new();
        accounts.push(AccountMetaData { pubkey: self.initiator, is_signer: false, is_writable: true });
        accounts.push(AccountMetaData { pubkey: self.sell_mint, is_signer: false, is_writable: false });
        accounts.push(
            AccountMetaData { pubkey: self.initiator_ata_sell, is_signer: false, is_writable: true },
        );
        accounts.push(AccountMetaData { pubkey: self.escrow_address, is_signer: false, is_writable: true });
        accounts.push(AccountMetaData { pubkey: self.vault, is_signer: false, is_writable: true });
        accounts.push(AccountMetaData { pubkey: self.token_program, is_signer: false, is_writable: false });
        accounts.push(AccountMetaData { pubkey: self.system_program, is_signer: false, is_writable: false });
        assert(accounts@ =~= refund_accounts(*self));
        let refund_instruction = InstructionData {
            program_id,
            accounts,
            data: crate::keys::bytes_to_vec(auto_refund_discriminator),
        };
        let transaction = compile_single(&refund_instruction).unwrap();
        let mut signer_seeds: Vec<Vec<u8>> = Vec::new();
        signer_seeds.push(crate::keys::bytes_to_vec(queue_authority_seed));
        let mut bump: Vec<u8> = Vec::new();
        bump.push(bumps.queue_authority);
        signer_seeds.push(bump);
        assert(seeds_view(signer_seeds@) =~= seq![queue_authority_seed@, seq![bumps.queue_authority]]);
        QueueTask {
            tuktuk_program: self.tuktuk_program,
            accounts: QueueTaskAccounts {
                payer: self.initiator,
                queue_authority: self.queue_authority,
                task_queue: self.task_queue,
                task_queue_authority: self.task_queue_authority,
                task: self.task,
                system_program: self.system_program,
            },
            signer_seeds,
            refund_instruction,
            transaction,
            id: task_id,
            trigger_timestamp: self.escrow.expiry_time,
            crank_reward: Some(CRANK_REWARD),
            free_tasks: 0,
            description: String::from_str("escrow auto_refund on expiry"),
        }
    }
}

} // verus!
