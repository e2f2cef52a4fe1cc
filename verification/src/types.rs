//! Data model of the batch execution engine: commands, environments,
//! per-transaction verdicts and the finalized-batch artifact.
//!
//! Values the engine receives from its collaborators (transactions,
//! environments) are held here as plain integers and vectors, so that the
//! engine's behaviour over them can be stated and proved exactly.

use vstd::prelude::*;

verus! {

/// Reason the virtual machine halted a transaction or the finalization
/// routine. Only the variants the engine interprets are named; every other
/// reason is carried through opaquely as `Other` with a numeric code.
#[derive(Clone, Copy, PartialEq, Eq, Structural, Debug)]
pub enum Halt {
    /// The transaction declared a gas limit above the configured ceiling.
    TooBigGasLimit,
    /// The finalization wrapper exhausted its fixed gas budget.
    BootloaderOutOfGas,
    /// The transaction's novel bytecode could not be published compressed.
    FailedToPublishCompressedBytecodes,
    /// Any halt reason the engine does not interpret.
    Other(u64),
}

/// Outcome of one run of the virtual machine: a transaction execution or a
/// block-tip finalization run.
#[derive(Clone, Copy, PartialEq, Eq, Structural, Debug)]
pub enum ExecutionResult {
    /// The run completed and its effects stand.
    Success,
    /// The run reverted; a reverted transaction is still applied and charged.
    Revert,
    /// The run halted; a halted transaction leaves no effects.
    Halt { reason: Halt },
}

/// How a transaction behaves when the virtual machine applies it, given
/// enough bootloader gas. The engine never inspects these fields except for
/// `gas_limit`; they parameterize the capability model deterministically.
#[derive(Debug)]
pub struct Transaction {
    /// Identifies this transaction's effects in the applied log.
    pub id: u64,
    /// Declared gas limit, checked against the engine's configured ceiling.
    pub gas_limit: u64,
    /// Bootloader gas the transaction consumes when applied.
    pub gas_used: u64,
    /// The verdict the virtual machine reaches for the transaction itself.
    pub outcome: TxOutcome,
    /// Whether publishing this transaction's bytecode compressed succeeds.
    pub compressible: bool,
    /// Novel bytecode identifiers the transaction declares for publication.
    pub bytecodes: Vec<u64>,
    /// Call-trace entries a tracer collects while the transaction runs.
    pub calls: Vec<u64>,
}

/// The virtual machine's own verdict for one transaction, independent of
/// gas budgeting and publication concerns.
#[derive(Clone, Copy, PartialEq, Eq, Structural, Debug)]
pub enum TxOutcome {
    /// Applies and completes.
    Succeeds,
    /// Applies but reverts; still included in the batch and charged.
    Reverts,
    /// Halts with the given reason; not applied.
    Halts(Halt),
}

/// Result of one virtual-machine run together with the gas it consumed.
#[derive(Clone, Copy, PartialEq, Eq, Structural, Debug)]
pub struct VmExecutionResult {
    pub result: ExecutionResult,
    pub gas_used: u64,
}

/// Measurements taken from one virtual-machine run.
#[derive(Clone, Copy, PartialEq, Eq, Structural, Debug)]
pub struct ExecutionMetrics {
    pub gas_used: u64,
}

/// Immutable parameters fixing the deterministic context of one batch.
#[derive(Clone, Copy, PartialEq, Eq, Structural, Debug)]
pub struct BatchEnv {
    pub number: u64,
    pub timestamp: u64,
    pub base_fee: u64,
    /// The first intra-batch sub-block the machine starts in.
    pub first_block: BlockEnv,
}

/// Parameters of one intra-batch sub-block boundary.
#[derive(Clone, Copy, PartialEq, Eq, Structural, Debug)]
pub struct BlockEnv {
    pub number: u64,
    pub timestamp: u64,
}

/// System-wide execution parameters for one batch: the bootloader's gas
/// budget and the fixed cost of the block-tip finalization routine.
#[derive(Clone, Copy, PartialEq, Eq, Structural, Debug)]
pub struct SystemEnv {
    /// Bootloader gas available to the whole batch.
    pub bootloader_gas_budget: u64,
    /// Gas the block-tip finalization routine consumes.
    pub finalization_gas_cost: u64,
}

impl SystemEnv {
    /// The budget always covers at least one finalization run, so an empty
    /// batch can be sealed.
    pub open spec fn wf(self) -> bool {
        self.finalization_gas_cost <= self.bootloader_gas_budget
    }
}

/// One request to the engine. The caller issues exactly one at a time and
/// receives exactly one reply per command before issuing the next.
#[derive(Debug)]
pub enum Command {
    /// Apply one transaction.
    ExecuteTx(Transaction),
    /// Undo the most recently applied transaction.
    RollbackLastTx,
    /// Advance the intra-batch sub-block boundary.
    StartNextMiniblock(BlockEnv),
    /// Run finalization and seal the batch.
    FinishBatch,
}

/// The engine's externally visible verdict for one transaction.
#[derive(Debug)]
pub enum TxExecutionResult {
    /// The transaction applied and the speculative block-tip dry run also
    /// succeeded; the dry run's effects were rolled back and only its
    /// measurements are carried here.
    Success {
        tx_result: VmExecutionResult,
        tx_metrics: ExecutionMetrics,
        bootloader_dry_run_result: VmExecutionResult,
        bootloader_dry_run_metrics: ExecutionMetrics,
        compressed_bytecodes: Vec<u64>,
        call_tracer_result: Vec<u64>,
        gas_remaining: u64,
    },
    /// The transaction did not apply; state is rolled back and the
    /// transaction must not be included in the batch.
    RejectedByVm { reason: Halt },
    /// The finalization wrapper ran out of its gas budget while processing
    /// this transaction; state is rolled back.
    BootloaderOutOfGasForTx,
    /// The transaction applied, but the speculative block-tip dry run ran
    /// out of the finalization budget: no more transactions fit in this
    /// batch, and the caller is expected to roll this one back and seal.
    BootloaderOutOfGasForBlockTip,
}

/// Captured virtual-machine state handed to downstream proof generation.
#[derive(Debug)]
pub struct WitnessBlockState {
    /// The storage the batch started from.
    pub storage: Vec<(u64, u64)>,
    /// Transactions applied over it, in order.
    pub applied: Vec<u64>,
    /// Bytecode published alongside, in order.
    pub published: Vec<u64>,
}

/// The artifact sealing one batch: the kept block-tip execution result plus
/// the optional captured witness state.
#[derive(Debug)]
pub struct FinishedBatch {
    pub block_tip_result: VmExecutionResult,
    pub witness_block_state: Option<WitnessBlockState>,
}

/// The engine's reply to one command.
#[derive(Debug)]
pub enum CommandReply {
    TxExecuted(TxExecutionResult),
    RolledBack,
    MiniblockStarted,
    BatchFinished(FinishedBatch),
}

} // verus!
