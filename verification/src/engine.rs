//! The batch execution engine: a state machine that owns one virtual
//! machine for the lifetime of exactly one batch and processes commands
//! one at a time, synchronously, to completion.
//!
//! Every command handler's contract is stated over `EngineState`, the
//! ghost abstraction of the machine: its observable state, its checkpoint
//! stack, and how many transaction runs it has made. The step functions
//! (`exec_step`, `rollback_step`, `block_step`, `finish_step`) say exactly
//! what each command does to that abstraction, and `exec_verdict_ok` pins
//! the reply returned for a transaction.

use vstd::prelude::*;

use crate::types::{
    BatchEnv, BlockEnv, Command, CommandReply, ExecutionMetrics, ExecutionResult, FinishedBatch,
    Halt, SystemEnv, Transaction, TxExecutionResult, VmExecutionResult,
};
use crate::vm::{
    apply_tip, apply_tx, publish_ok, tip_result, tx_applies, tx_exec_result, tx_gas_charged, Vm,
    VmObs,
};

verus! {

/// The ghost abstraction of one engine: the machine's observable state,
/// the states its unresolved checkpoints would restore (oldest first), and
/// the number of transaction runs made so far.
#[verifier::ext_equal]
pub ghost struct EngineState {
    pub obs: VmObs,
    pub stack: Seq<VmObs>,
    pub executions: nat,
}

/// The abstraction a machine presents at a command boundary.
pub open spec fn engine_state(vm: Vm) -> EngineState {
    EngineState { obs: vm.obs(), stack: vm.stack(), executions: vm.executions@ }
}

/// The engine for one batch. Processes commands until the batch is sealed;
/// once sealed, a new engine must be constructed for the next batch.
#[derive(Clone, Copy, PartialEq, Eq, Structural, Debug)]
pub struct CommandReceiver {
    /// Whether a call tracer is attached to every transaction run.
    pub save_call_traces: bool,
    /// Ceiling on a transaction's declared gas limit, enforced here even
    /// though the same check exists upstream.
    pub max_allowed_tx_gas_limit: u64,
    /// Whether failed bytecode compression falls back to an uncompressed
    /// retry (`true`) or rejects the transaction outright (`false`).
    pub optional_bytecode_compression: bool,
}

/// The engine's independent gas-limit check, ahead of any machine run.
pub open spec fn gas_limit_exceeded(cfg: CommandReceiver, tx: Transaction) -> bool {
    tx.gas_limit > cfg.max_allowed_tx_gas_limit
}

/// The authoritative result of the compression/retry protocol for one
/// transaction run from state `s`. With the fallback enabled a publication
/// failure is retried without compression, so the machine's own verdict
/// stands; without it, a publication failure rejects the transaction so
/// the initiator is not charged for bytecode that cannot be published.
pub open spec fn protocol_result(cfg: CommandReceiver, s: VmObs, tx: Transaction) -> ExecutionResult {
    if !cfg.optional_bytecode_compression && !tx.compressible {
        ExecutionResult::Halt { reason: Halt::FailedToPublishCompressedBytecodes }
    } else {
        tx_exec_result(s, tx)
    }
}

/// Whether `ExecuteTx` leaves the transaction applied in the machine,
/// with its pre-attempt checkpoint unresolved for a later rollback.
pub open spec fn tx_kept(cfg: CommandReceiver, s: VmObs, tx: Transaction) -> bool {
    !gas_limit_exceeded(cfg, tx) && !(protocol_result(cfg, s, tx) is Halt)
}

/// Observable state after a kept transaction. The engine never keeps a
/// publish-failed attempt, so publication has always succeeded here.
pub open spec fn kept_obs(s: VmObs, tx: Transaction) -> VmObs {
    apply_tx(s, tx, true)
}

/// How many machine runs one `ExecuteTx` makes: none when the gas-limit
/// check rejects the transaction, two when a publication failure forces
/// the uncompressed retry, one otherwise.
pub open spec fn execute_runs(cfg: CommandReceiver, tx: Transaction) -> nat {
    if gas_limit_exceeded(cfg, tx) {
        0
    } else if cfg.optional_bytecode_compression && !tx.compressible {
        2
    } else {
        1
    }
}

/// What `ExecuteTx` does to the engine abstraction.
pub open spec fn exec_step(cfg: CommandReceiver, cost: u64, s: EngineState, tx: Transaction) -> EngineState {
    if tx_kept(cfg, s.obs, tx) {
        EngineState {
            obs: kept_obs(s.obs, tx),
            stack: s.stack.push(s.obs),
            executions: s.executions + execute_runs(cfg, tx),
        }
    } else {
        EngineState { obs: s.obs, stack: s.stack, executions: s.executions + execute_runs(cfg, tx) }
    }
}

/// What `RollbackLastTx` does: resolve the newest checkpoint by rolling
/// back to it.
pub open spec fn rollback_step(s: EngineState) -> EngineState {
    EngineState { obs: s.stack.last(), stack: s.stack.drop_last(), executions: s.executions }
}

/// What `StartNextMiniblock` does: advance the sub-block boundary, with no
/// snapshot semantics.
pub open spec fn block_step(s: EngineState, env: BlockEnv) -> EngineState {
    EngineState { obs: VmObs { block: env, ..s.obs }, ..s }
}

/// What `FinishBatch` does: resolve every remaining checkpoint by
/// discarding it, then keep one finalization run.
pub open spec fn finish_step(s: EngineState, cost: u64) -> EngineState {
    EngineState { obs: apply_tip(s.obs, cost), stack: Seq::<VmObs>::empty(), executions: s.executions }
}

/// Pins the reply of `ExecuteTx` run from observable state `s`.
pub open spec fn exec_verdict_ok(
    cfg: CommandReceiver,
    cost: u64,
    s: VmObs,
    tx: Transaction,
    r: TxExecutionResult,
) -> bool {
    if gas_limit_exceeded(cfg, tx) {
        r == (TxExecutionResult::RejectedByVm { reason: Halt::TooBigGasLimit })
    } else {
        match protocol_result(cfg, s, tx) {
            ExecutionResult::Halt { reason } => if reason == Halt::BootloaderOutOfGas {
                r is BootloaderOutOfGasForTx
            } else {
                r == (TxExecutionResult::RejectedByVm { reason })
            },
            _ => {
                let s1 = kept_obs(s, tx);
                if tip_result(s1, cost) is Success {
                    &&& r matches TxExecutionResult::Success {
                        tx_result,
                        tx_metrics,
                        bootloader_dry_run_result,
                        bootloader_dry_run_metrics,
                        compressed_bytecodes,
                        call_tracer_result,
                        gas_remaining,
                    }
                    &&& tx_result.result == protocol_result(cfg, s, tx)
                    &&& tx_result.gas_used == tx.gas_used
                    &&& tx_metrics.gas_used == tx.gas_used
                    &&& bootloader_dry_run_result.result is Success
                    &&& bootloader_dry_run_result.gas_used == cost
                    &&& bootloader_dry_run_metrics.gas_used == cost
                    &&& compressed_bytecodes@ == (if tx.compressible {
                        tx.bytecodes@
                    } else {
                        Seq::<u64>::empty()
                    })
                    &&& call_tracer_result@ == (if cfg.save_call_traces {
                        tx.calls@
                    } else {
                        Seq::<u64>::empty()
                    })
                    &&& gas_remaining == s1.gas_remaining
                } else {
                    r is BootloaderOutOfGasForBlockTip
                }
            },
        }
    }
}

/// What one command does to the engine abstraction.
pub open spec fn cmd_step(cfg: CommandReceiver, cost: u64, s: EngineState, cmd: Command) -> EngineState {
    match cmd {
        Command::ExecuteTx(tx) => exec_step(cfg, cost, s, tx),
        Command::RollbackLastTx => rollback_step(s),
        Command::StartNextMiniblock(env) => block_step(s, env),
        Command::FinishBatch => finish_step(s, cost),
    }
}

/// When a command is acceptable: a rollback needs an unresolved
/// checkpoint to roll back to, and sealing needs the budget to cover the
/// finalization run — which every properly driven engine has, since each
/// included transaction passed a dry run proving it.
pub open spec fn cmd_ok(cfg: CommandReceiver, cost: u64, s: EngineState, cmd: Command) -> bool {
    match cmd {
        Command::RollbackLastTx => s.stack.len() > 0,
        Command::FinishBatch => s.obs.gas_remaining >= cost,
        _ => true,
    }
}

/// The abstraction a freshly constructed machine presents.
pub open spec fn init_state(l1_batch_params: BatchEnv, system_env: SystemEnv) -> EngineState {
    EngineState {
        obs: VmObs {
            applied: Seq::<u64>::empty(),
            published: Seq::<u64>::empty(),
            gas_remaining: system_env.bootloader_gas_budget,
            block: l1_batch_params.first_block,
            tip_executed: false,
        },
        stack: Seq::<VmObs>::empty(),
        executions: 0,
    }
}

/// The engine abstraction after the first `n` commands.
pub open spec fn run_state(
    cfg: CommandReceiver,
    cost: u64,
    s0: EngineState,
    cmds: Seq<Command>,
    n: int,
) -> EngineState
    decreases n,
{
    if n <= 0 {
        s0
    } else {
        cmd_step(cfg, cost, run_state(cfg, cost, s0, cmds, n - 1), cmds[n - 1])
    }
}

/// No command strictly before index `i` seals the batch; the engine is
/// still accepting commands when command `i` arrives.
pub open spec fn before_seal(cmds: Seq<Command>, i: int) -> bool {
    forall|j: int| 0 <= j < i ==> !((#[trigger] cmds[j]) is FinishBatch)
}

/// Pins the engine's reply to one command issued in state `s`.
pub open spec fn reply_ok(
    cfg: CommandReceiver,
    cost: u64,
    s: EngineState,
    cmd: Command,
    reply: CommandReply,
    upload_witness: bool,
    storage: Seq<(u64, u64)>,
) -> bool {
    match cmd {
        Command::ExecuteTx(tx) => reply matches CommandReply::TxExecuted(r)
            && exec_verdict_ok(cfg, cost, s.obs, tx, r),
        Command::RollbackLastTx => reply is RolledBack,
        Command::StartNextMiniblock(_) => reply is MiniblockStarted,
        Command::FinishBatch => reply matches CommandReply::BatchFinished(fb) && {
            &&& fb.block_tip_result.result is Success
            &&& fb.block_tip_result.gas_used == cost
            &&& match fb.witness_block_state {
                Some(w) => {
                    &&& upload_witness
                    &&& w.storage@ == storage
                    &&& w.applied@ == s.obs.applied
                    &&& w.published@ == s.obs.published
                },
                None => !upload_witness,
            }
        },
    }
}

/// Measurements taken from one run's result.
pub fn execution_metrics_for(result: &VmExecutionResult) -> (m: ExecutionMetrics)
    ensures
        m.gas_used == result.gas_used,
{
    ExecutionMetrics { gas_used: result.gas_used }
}

impl CommandReceiver {
    /// Applies one transaction: checkpoint, gas-limit check, the
    /// compression/retry protocol, and on an applied transaction the
    /// speculative block-tip dry run.
    ///
    /// A rejected transaction leaves the machine exactly as it was; a kept
    /// one leaves its pre-attempt checkpoint unresolved so that
    /// `RollbackLastTx` can undo it.
    pub fn execute_tx(&self, tx: &Transaction, vm: &mut Vm) -> (r: TxExecutionResult)
        requires
            old(vm).wf(),
        ensures
            final(vm).wf(),
            old(vm).same_batch(*final(vm)),
            engine_state(*final(vm)) == exec_step(
                *self,
                old(vm).finalization_gas_cost,
                engine_state(*old(vm)),
                *tx,
            ),
            exec_verdict_ok(
                *self,
                old(vm).finalization_gas_cost,
                old(vm).obs(),
                *tx,
                r,
            ),
    {
        let ghost s0 = engine_state(*old(vm));
        // Checkpoint before any attempt, so the whole attempt can be undone.
        vm.make_snapshot();

        // Reject transactions with too big gas limit before any machine
        // run: upstream admission also checks this, but a misbehaving
        // producer must not be able to bypass block gas accounting here.
        if tx.gas_limit > self.max_allowed_tx_gas_limit {
            vm.rollback_to_the_latest_snapshot();
            proof {
                assert(engine_state(*vm) =~~= exec_step(
                    *self,
                    old(vm).finalization_gas_cost,
                    s0,
                    *tx,
                ));
            }
            return TxExecutionResult::RejectedByVm { reason: Halt::TooBigGasLimit };
        }
        let (tx_result, compressed_bytecodes, call_tracer_result) =
            if self.optional_bytecode_compression {
            self.execute_tx_in_vm_with_optional_compression(tx, vm)
        } else {
            self.execute_tx_in_vm(tx, vm)
        };

        if let ExecutionResult::Halt { reason } = tx_result.result {
            // The transaction is not included: resolve the pre-attempt
            // checkpoint by rolling back to it.
            vm.rollback_to_the_latest_snapshot();
            proof {
                assert(engine_state(*vm) =~~= exec_step(
                    *self,
                    old(vm).finalization_gas_cost,
                    s0,
                    *tx,
                ));
            }
            return if reason == Halt::BootloaderOutOfGas {
                TxExecutionResult::BootloaderOutOfGasForTx
            } else {
                TxExecutionResult::RejectedByVm { reason }
            };
        }
        let tx_metrics = execution_metrics_for(&tx_result);
        let gas_remaining = vm.gas_remaining();
        let (bootloader_dry_run_result, bootloader_dry_run_metrics) = self.dryrun_block_tip(vm);
        proof {
            assert(engine_state(*vm) =~~= exec_step(
                *self,
                old(vm).finalization_gas_cost,
                s0,
                *tx,
            ));
        }
        match bootloader_dry_run_result.result {
            ExecutionResult::Success => TxExecutionResult::Success {
                tx_result,
                tx_metrics,
                bootloader_dry_run_result,
                bootloader_dry_run_metrics,
                compressed_bytecodes,
                call_tracer_result,
                gas_remaining,
            },
            // Finalization must only ever succeed or exhaust its own
            // budget; the capability's contract rules anything else out.
            ExecutionResult::Revert => unreached(),
            ExecutionResult::Halt { reason } => if reason == Halt::BootloaderOutOfGas {
                TxExecutionResult::BootloaderOutOfGasForBlockTip
            } else {
                unreached()
            },
        }
    }

    /// Rolls back the most recently applied transaction by resolving its
    /// pre-attempt checkpoint.
    ///
    /// Only valid while such a checkpoint is unresolved: rolling back an
    /// empty checkpoint stack has nothing well-defined to restore, so the
    /// caller issues this only after a kept transaction.
    pub fn rollback_last_tx(&self, vm: &mut Vm)
        requires
            old(vm).wf(),
            old(vm).snapshots@.len() > 0,
        ensures
            final(vm).wf(),
            old(vm).same_batch(*final(vm)),
            engine_state(*final(vm)) == rollback_step(engine_state(*old(vm))),
    {
        vm.rollback_to_the_latest_snapshot();
        proof {
            assert(engine_state(*vm) =~~= rollback_step(engine_state(*old(vm))));
        }
    }

    /// Advances the intra-batch sub-block boundary; forwarded directly to
    /// the machine, with no snapshot semantics.
    pub fn start_next_miniblock(&self, l2_block_env: BlockEnv, vm: &mut Vm)
        requires
            old(vm).wf(),
        ensures
            final(vm).wf(),
            old(vm).same_batch(*final(vm)),
            engine_state(*final(vm)) == block_step(engine_state(*old(vm)), l2_block_env),
    {
        vm.start_new_l2_block(l2_block_env);
        proof {
            assert(engine_state(*vm) =~~= block_step(engine_state(*old(vm)), l2_block_env));
        }
    }

    /// Seals the batch: resolves every remaining checkpoint by discarding
    /// it, then runs finalization for keeps and returns its result.
    ///
    /// Requires the remaining budget to cover the finalization run. Every
    /// included transaction passed a block-tip dry run proving exactly
    /// that, so sealing from any properly driven engine meets it; if real
    /// finalization could still fail, dry run and real run would have
    /// diverged, which the deterministic capability rules out.
    pub fn finish_batch(&self, vm: &mut Vm) -> (r: VmExecutionResult)
        requires
            old(vm).wf(),
            old(vm).gas_remaining >= old(vm).finalization_gas_cost,
        ensures
            final(vm).wf(),
            old(vm).same_batch(*final(vm)),
            engine_state(*final(vm)) == finish_step(
                engine_state(*old(vm)),
                old(vm).finalization_gas_cost,
            ),
            r.result is Success,
            r.gas_used == old(vm).finalization_gas_cost,
    {
        while vm.snapshot_count() > 0
            invariant
                vm.wf(),
                vm.obs() == old(vm).obs(),
                old(vm).same_batch(*vm),
                vm.executions@ == old(vm).executions@,
            decreases vm.snapshots@.len(),
        {
            vm.pop_snapshot_no_rollback();
        }
        let result = vm.execute_block_tip();
        proof {
            assert(engine_state(*vm) =~~= finish_step(
                engine_state(*old(vm)),
                old(vm).finalization_gas_cost,
            ));
        }
        if let ExecutionResult::Success = result.result {
            result
        } else {
            // By construction the budget covers this run; the capability
            // has no other failure mode for finalization.
            unreached()
        }
    }

    /// The compression/retry protocol. Runs the transaction with
    /// compression under a transient checkpoint; if publication fails,
    /// rolls back and re-runs without compression, whose outcome is
    /// authoritative. Never leaves a publish-failed attempt applied.
    pub fn execute_tx_in_vm_with_optional_compression(&self, tx: &Transaction, vm: &mut Vm) -> (r:
        (VmExecutionResult, Vec<u64>, Vec<u64>))
        requires
            old(vm).wf(),
        ensures
            final(vm).wf(),
            old(vm).same_batch(*final(vm)),
            r.0.result == tx_exec_result(old(vm).obs(), *tx),
            r.0.gas_used == tx_gas_charged(old(vm).obs(), *tx),
            final(vm).obs() == apply_tx(old(vm).obs(), *tx, true),
            final(vm).snapshots@.len() == old(vm).snapshots@.len(),
            final(vm).stack() == old(vm).stack(),
            final(vm).executions@ == old(vm).executions@ + (if tx.compressible {
                1nat
            } else {
                2nat
            }),
            r.1@ == (if tx.compressible && tx_applies(old(vm).obs(), *tx) {
                tx.bytecodes@
            } else {
                Seq::<u64>::empty()
            }),
            r.2@ == (if self.save_call_traces && tx_applies(old(vm).obs(), *tx) {
                tx.calls@
            } else {
                Seq::<u64>::empty()
            }),
    {
        // A transient checkpoint: publication failure must not waste the
        // batch's compressed-bytecode space on an attempt that is undone.
        vm.make_snapshot();
        let (published, result) = vm.inspect_transaction_with_bytecode_compression(
            tx,
            self.save_call_traces,
            true,
        );
        if published {
            let compressed_bytecodes = vm.get_last_tx_compressed_bytecodes();
            vm.pop_snapshot_no_rollback();
            let trace = vm.take_last_tx_trace();
            proof {
                assert(vm.stack() =~~= old(vm).stack());
            }
            return (result, compressed_bytecodes, trace);
        }
        // Publication failed: undo the attempt and re-run without
        // compression. The second attempt's publication cannot fail.
        vm.rollback_to_the_latest_snapshot();
        proof {
            assert(vm.stack() =~~= old(vm).stack());
            assert(vm.obs() =~~= old(vm).obs());
        }
        let (published_retry, result_retry) = vm.inspect_transaction_with_bytecode_compression(
            tx,
            self.save_call_traces,
            false,
        );
        assert(published_retry);
        let compressed_bytecodes = vm.get_last_tx_compressed_bytecodes();
        let trace = vm.take_last_tx_trace();
        (result_retry, compressed_bytecodes, trace)
    }

    /// One-shot execution when the fallback is disabled: compression is
    /// still attempted for measurement, but a publication failure rejects
    /// the transaction with `FailedToPublishCompressedBytecodes` so the
    /// initiator is not charged for bytecode that cannot be published.
    pub fn execute_tx_in_vm(&self, tx: &Transaction, vm: &mut Vm) -> (r: (
        VmExecutionResult,
        Vec<u64>,
        Vec<u64>,
    ))
        requires
            old(vm).wf(),
        ensures
            final(vm).wf(),
            old(vm).same_batch(*final(vm)),
            final(vm).snapshots@.len() == old(vm).snapshots@.len(),
            final(vm).stack() == old(vm).stack(),
            final(vm).executions@ == old(vm).executions@ + 1,
            tx.compressible ==> {
                &&& r.0.result == tx_exec_result(old(vm).obs(), *tx)
                &&& final(vm).obs() == apply_tx(old(vm).obs(), *tx, true)
                &&& r.1@ == (if tx_applies(old(vm).obs(), *tx) {
                    tx.bytecodes@
                } else {
                    Seq::<u64>::empty()
                })
                &&& r.2@ == (if self.save_call_traces && tx_applies(old(vm).obs(), *tx) {
                    tx.calls@
                } else {
                    Seq::<u64>::empty()
                })
            },
            !tx.compressible ==> {
                &&& r.0.result == (ExecutionResult::Halt {
                    reason: Halt::FailedToPublishCompressedBytecodes,
                })
                &&& final(vm).obs() == apply_tx(old(vm).obs(), *tx, false)
                &&& r.1@ == Seq::<u64>::empty()
                &&& r.2@ == Seq::<u64>::empty()
            },
            r.0.gas_used == tx_gas_charged(old(vm).obs(), *tx),
    {
        let (published, result) = vm.inspect_transaction_with_bytecode_compression(
            tx,
            self.save_call_traces,
            true,
        );
        if published {
            let compressed_bytecodes = vm.get_last_tx_compressed_bytecodes();
            let trace = vm.take_last_tx_trace();
            (result, compressed_bytecodes, trace)
        } else {
            let overridden = VmExecutionResult {
                result: ExecutionResult::Halt { reason: Halt::FailedToPublishCompressedBytecodes },
                gas_used: result.gas_used,
            };
            (overridden, Vec::new(), Vec::new())
        }
    }

    /// The speculative block-tip dry run: checkpoint, run finalization,
    /// measure, and roll back regardless of outcome, so only the
    /// measurement is kept and the state is left exactly as found.
    pub fn dryrun_block_tip(&self, vm: &mut Vm) -> (r: (VmExecutionResult, ExecutionMetrics))
        requires
            old(vm).wf(),
        ensures
            final(vm).wf(),
            old(vm).same_batch(*final(vm)),
            engine_state(*final(vm)) == engine_state(*old(vm)),
            r.0.result == tip_result(old(vm).obs(), old(vm).finalization_gas_cost),
            r.0.gas_used == (if r.0.result is Success {
                old(vm).finalization_gas_cost
            } else {
                0
            }),
            r.1.gas_used == r.0.gas_used,
    {
        vm.make_snapshot();
        let block_tip_result = vm.execute_block_tip();
        let metrics = execution_metrics_for(&block_tip_result);
        vm.rollback_to_the_latest_snapshot();
        proof {
            assert(engine_state(*vm) =~~= engine_state(*old(vm)));
        }
        (block_tip_result, metrics)
    }

    /// Drives one whole batch: builds the machine over the given storage,
    /// processes the commands strictly in order, one reply each, and stops
    /// after the first `FinishBatch` (the engine is single-use) or when
    /// the commands run out, leaving the batch unfinished by design.
    ///
    /// Each reply is pinned by `reply_ok` at the engine state the command
    /// found, and that state is `run_state` of the processed prefix.
    #[verifier::loop_isolation(false)]
    pub fn run(
        self,
        storage: Vec<(u64, u64)>,
        l1_batch_params: BatchEnv,
        system_env: SystemEnv,
        upload_witness_inputs_to_gcs: bool,
        commands: Vec<Command>,
    ) -> (replies: Vec<CommandReply>)
        requires
            system_env.wf(),
            forall|i: int|
                0 <= i < commands@.len() && before_seal(commands@, i) ==> cmd_ok(
                    self,
                    system_env.finalization_gas_cost,
                    run_state(
                        self,
                        system_env.finalization_gas_cost,
                        init_state(l1_batch_params, system_env),
                        commands@,
                        i,
                    ),
                    commands@[i],
                ),
        ensures
            replies@.len() <= commands@.len(),
            forall|i: int| 0 <= i < replies@.len() ==> before_seal(commands@, i),
            replies@.len() < commands@.len() ==> commands@[replies@.len() - 1] is FinishBatch,
            forall|i: int|
                0 <= i < replies@.len() ==> reply_ok(
                    self,
                    system_env.finalization_gas_cost,
                    run_state(
                        self,
                        system_env.finalization_gas_cost,
                        init_state(l1_batch_params, system_env),
                        commands@,
                        i,
                    ),
                    commands@[i],
                    replies@[i],
                    upload_witness_inputs_to_gcs,
                    storage@,
                ),
    {
        let ghost cost = system_env.finalization_gas_cost;
        let ghost s_init = init_state(l1_batch_params, system_env);
        let mut vm = Vm::new(storage, l1_batch_params, system_env);
        proof {
            assert(engine_state(vm) =~~= s_init);
        }
        let mut replies: Vec<CommandReply> = Vec::new();
        let mut i: usize = 0;
        while i < commands.len()
            invariant
                i <= commands@.len(),
                replies@.len() == i as int,
                vm.wf(),
                vm.storage@ == storage@,
                vm.finalization_gas_cost == cost,
                engine_state(vm) == run_state(self, cost, s_init, commands@, i as int),
                before_seal(commands@, i as int),
                forall|k: int| 0 <= k < i as int ==> !((#[trigger] commands@[k]) is FinishBatch),
                forall|k: int|
                    0 <= k < i as int ==> reply_ok(
                        self,
                        cost,
                        run_state(self, cost, s_init, commands@, k),
                        commands@[k],
                        replies@[k],
                        upload_witness_inputs_to_gcs,
                        storage@,
                    ),
            decreases commands@.len() - i,
        {
            match &commands[i] {
                Command::ExecuteTx(tx) => {
                    let result = self.execute_tx(tx, &mut vm);
                    replies.push(CommandReply::TxExecuted(result));
                },
                Command::RollbackLastTx => {
                    proof {
                        assert(cmd_ok(
                            self,
                            cost,
                            run_state(self, cost, s_init, commands@, i as int),
                            commands@[i as int],
                        ));
                    }
                    self.rollback_last_tx(&mut vm);
                    replies.push(CommandReply::RolledBack);
                },
                Command::StartNextMiniblock(l2_block_env) => {
                    self.start_next_miniblock(*l2_block_env, &mut vm);
                    replies.push(CommandReply::MiniblockStarted);
                },
                Command::FinishBatch => {
                    proof {
                        assert(cmd_ok(
                            self,
                            cost,
                            run_state(self, cost, s_init, commands@, i as int),
                            commands@[i as int],
                        ));
                    }
                    let block_tip_result = self.finish_batch(&mut vm);
                    let witness_block_state = if upload_witness_inputs_to_gcs {
                        Some(vm.witness_block_state())
                    } else {
                        None
                    };
                    replies.push(
                        CommandReply::BatchFinished(
                            FinishedBatch { block_tip_result, witness_block_state },
                        ),
                    );
                    // The batch is sealed; the engine is single-use and
                    // accepts nothing further.
                    return replies;
                },
            }
            i = i + 1;
        }
        replies
    }
}

} // verus!
