//! A verified model of the Execution Capability the engine drives: a
//! deterministic, gas-metered virtual machine with a LIFO snapshot stack.
//!
//! The real capability is opaque to this crate; this model states, as a
//! checkable program, exactly the contract the engine relies on: execution
//! is deterministic in the machine's observable state, snapshots are
//! strictly nested, and rolling back restores the observable state to the
//! checkpoint byte for byte. The engine in `crate::engine` is proved
//! against these contracts alone.

use vstd::prelude::*;

use crate::types::{
    BatchEnv, BlockEnv, ExecutionResult, Halt, SystemEnv, Transaction, TxOutcome,
    VmExecutionResult, WitnessBlockState,
};

verus! {

/// The observable state of the machine: everything a rollback restores.
///
/// Query artifacts of the last run (compressed-bytecode metadata, traces)
/// are deliberately not part of it; they describe the last attempt, not the
/// chain state.
#[verifier::ext_equal]
pub ghost struct VmObs {
    /// Identifiers of the transactions applied so far, in order.
    pub applied: Seq<u64>,
    /// Identifiers of the bytecodes published so far, in order.
    pub published: Seq<u64>,
    /// Bootloader gas left in the batch's budget.
    pub gas_remaining: u64,
    /// The current intra-batch sub-block.
    pub block: BlockEnv,
    /// Whether the block-tip finalization bookkeeping has been kept.
    pub tip_executed: bool,
}

/// Whether publication of the transaction's bytecode succeeds for a run.
/// Publication can only fail when compression is attempted; without it the
/// bytecode is published raw, which always succeeds.
pub open spec fn publish_ok(tx: Transaction, with_compression: bool) -> bool {
    !with_compression || tx.compressible
}

/// The machine's verdict for one transaction run from state `s`: the
/// enclosing bootloader budget is checked first, then the transaction's
/// own behaviour decides.
pub open spec fn tx_exec_result(s: VmObs, tx: Transaction) -> ExecutionResult {
    if s.gas_remaining < tx.gas_used {
        ExecutionResult::Halt { reason: Halt::BootloaderOutOfGas }
    } else {
        match tx.outcome {
            TxOutcome::Succeeds => ExecutionResult::Success,
            TxOutcome::Reverts => ExecutionResult::Revert,
            TxOutcome::Halts(reason) => ExecutionResult::Halt { reason },
        }
    }
}

/// A transaction is applied exactly when its run does not halt; a reverted
/// transaction is still applied and charged.
pub open spec fn tx_applies(s: VmObs, tx: Transaction) -> bool {
    !(tx_exec_result(s, tx) is Halt)
}

/// Gas one transaction run charges against the bootloader budget.
pub open spec fn tx_gas_charged(s: VmObs, tx: Transaction) -> u64 {
    if tx_applies(s, tx) {
        tx.gas_used
    } else {
        0
    }
}

/// Observable state after one transaction run; `publish` says whether the
/// run's bytecode publication succeeded.
pub open spec fn apply_tx(s: VmObs, tx: Transaction, publish: bool) -> VmObs {
    if tx_applies(s, tx) {
        VmObs {
            applied: s.applied.push(tx.id),
            published: if publish {
                s.published + tx.bytecodes@
            } else {
                s.published
            },
            gas_remaining: (s.gas_remaining - tx.gas_used) as u64,
            ..s
        }
    } else {
        s
    }
}

/// Verdict of the block-tip finalization routine run from state `s`: it
/// succeeds whenever its fixed cost fits in the remaining budget, and
/// never fails in any other way.
pub open spec fn tip_result(s: VmObs, cost: u64) -> ExecutionResult {
    if s.gas_remaining >= cost {
        ExecutionResult::Success
    } else {
        ExecutionResult::Halt { reason: Halt::BootloaderOutOfGas }
    }
}

/// Observable state after one block-tip finalization run.
pub open spec fn apply_tip(s: VmObs, cost: u64) -> VmObs {
    if s.gas_remaining >= cost {
        VmObs {
            gas_remaining: (s.gas_remaining - cost) as u64,
            tip_executed: true,
            ..s
        }
    } else {
        s
    }
}

/// One checkpoint on the snapshot stack. Effects are append-only between a
/// checkpoint and its resolution, so prefixes plus the scalar registers
/// restore the observable state exactly.
#[derive(Clone, Copy, PartialEq, Eq, Structural, Debug)]
pub struct Snapshot {
    pub applied_len: usize,
    pub published_len: usize,
    pub gas_remaining: u64,
    pub block: BlockEnv,
    pub tip_executed: bool,
}

/// The model machine. One instance executes exactly one batch.
pub struct Vm {
    /// The storage the batch starts from; read-only for the model.
    pub storage: Vec<(u64, u64)>,
    /// Identifiers of the transactions applied so far, in order.
    pub applied: Vec<u64>,
    /// Identifiers of the bytecodes published so far, in order.
    pub published: Vec<u64>,
    /// Bootloader gas left in the batch's budget.
    pub gas_remaining: u64,
    /// The current intra-batch sub-block.
    pub block: BlockEnv,
    /// Whether block-tip finalization bookkeeping has been kept.
    pub tip_executed: bool,
    /// The LIFO checkpoint stack.
    pub snapshots: Vec<Snapshot>,
    /// The batch's immutable environment.
    pub batch_env: BatchEnv,
    /// Fixed gas cost of the block-tip finalization routine.
    pub finalization_gas_cost: u64,
    /// Compressed-bytecode metadata of the last transaction run.
    pub last_compressed: Vec<u64>,
    /// Call trace collected during the last transaction run.
    pub last_trace: Vec<u64>,
    /// Instrumentation: how many transaction runs the machine has made.
    pub executions: Ghost<nat>,
}

impl Vm {
    /// Checkpoints never reach past the current logs, and are nested: an
    /// older checkpoint never records a longer prefix than a newer one.
    pub open spec fn wf(self) -> bool {
        &&& forall|i: int|
            0 <= i < self.snapshots@.len() ==> (#[trigger] self.snapshots@[i]).applied_len
                <= self.applied@.len() && self.snapshots@[i].published_len
                <= self.published@.len()
        &&& forall|i: int, j: int|
            0 <= i <= j < self.snapshots@.len()
                ==> (#[trigger] self.snapshots@[i]).applied_len
                <= (#[trigger] self.snapshots@[j]).applied_len
                && self.snapshots@[i].published_len <= self.snapshots@[j].published_len
    }

    /// The machine's observable state.
    pub open spec fn obs(self) -> VmObs {
        VmObs {
            applied: self.applied@,
            published: self.published@,
            gas_remaining: self.gas_remaining,
            block: self.block,
            tip_executed: self.tip_executed,
        }
    }

    /// The observable state checkpoint `i` restores.
    pub open spec fn snapshot_target(self, i: int) -> VmObs {
        VmObs {
            applied: self.applied@.take(self.snapshots@[i].applied_len as int),
            published: self.published@.take(self.snapshots@[i].published_len as int),
            gas_remaining: self.snapshots@[i].gas_remaining,
            block: self.snapshots@[i].block,
            tip_executed: self.snapshots@[i].tip_executed,
        }
    }

    /// The checkpoint stack as the sequence of states it would restore,
    /// oldest first.
    pub open spec fn stack(self) -> Seq<VmObs> {
        Seq::new(self.snapshots@.len(), |i: int| self.snapshot_target(i))
    }

    /// Parameters fixed at construction and never changed by any run.
    pub open spec fn same_batch(self, other: Vm) -> bool {
        &&& other.storage@ == self.storage@
        &&& other.batch_env == self.batch_env
        &&& other.finalization_gas_cost == self.finalization_gas_cost
    }

    /// Builds the machine for one batch over the given storage.
    ///
    /// The system environment's well-formedness (the budget covers at least
    /// one finalization run) is what lets an empty batch always be sealed.
    pub fn new(storage: Vec<(u64, u64)>, l1_batch_params: BatchEnv, system_env: SystemEnv) -> (vm:
        Vm)
        requires
            system_env.wf(),
        ensures
            vm.wf(),
            vm.storage@ == storage@,
            vm.batch_env == l1_batch_params,
            vm.finalization_gas_cost == system_env.finalization_gas_cost,
            vm.applied@ == Seq::<u64>::empty(),
            vm.published@ == Seq::<u64>::empty(),
            vm.gas_remaining == system_env.bootloader_gas_budget,
            vm.gas_remaining >= vm.finalization_gas_cost,
            vm.block == l1_batch_params.first_block,
            !vm.tip_executed,
            vm.snapshots@.len() == 0,
            vm.executions@ == 0,
    {
        Vm {
            storage,
            applied: Vec::new(),
            published: Vec::new(),
            gas_remaining: system_env.bootloader_gas_budget,
            block: l1_batch_params.first_block,
            tip_executed: false,
            snapshots: Vec::new(),
            batch_env: l1_batch_params,
            finalization_gas_cost: system_env.finalization_gas_cost,
            last_compressed: Vec::new(),
            last_trace: Vec::new(),
            executions: Ghost(0nat),
        }
    }

    /// Pushes a checkpoint of the current observable state.
    pub fn make_snapshot(&mut self)
        requires
            old(self).wf(),
        ensures
            final(self).wf(),
            final(self).snapshots@.len() == old(self).snapshots@.len() + 1,
            final(self).obs() == old(self).obs(),
            final(self).stack() == old(self).stack().push(old(self).obs()),
            final(self).last_compressed@ == old(self).last_compressed@,
            final(self).last_trace@ == old(self).last_trace@,
            final(self).executions@ == old(self).executions@,
            old(self).same_batch(*final(self)),
    {
        let snap = Snapshot {
            applied_len: self.applied.len(),
            published_len: self.published.len(),
            gas_remaining: self.gas_remaining,
            block: self.block,
            tip_executed: self.tip_executed,
        };
        self.snapshots.push(snap);
        proof {
            assert(self.applied@.take(self.applied@.len() as int) =~= self.applied@);
            assert(self.published@.take(self.published@.len() as int) =~= self.published@);
            assert(self.stack() =~~= old(self).stack().push(old(self).obs()));
        }
    }

    /// Pops the newest checkpoint and restores the observable state it
    /// recorded.
    pub fn rollback_to_the_latest_snapshot(&mut self)
        requires
            old(self).wf(),
            old(self).snapshots@.len() > 0,
        ensures
            final(self).wf(),
            final(self).snapshots@.len() == old(self).snapshots@.len() - 1,
            final(self).obs() == old(self).stack().last(),
            final(self).stack() == old(self).stack().drop_last(),
            final(self).last_compressed@ == old(self).last_compressed@,
            final(self).last_trace@ == old(self).last_trace@,
            final(self).executions@ == old(self).executions@,
            old(self).same_batch(*final(self)),
    {
        let i = self.snapshots.len() - 1;
        let snap = self.snapshots[i];
        self.snapshots.pop();
        self.applied.truncate(snap.applied_len);
        self.published.truncate(snap.published_len);
        self.gas_remaining = snap.gas_remaining;
        self.block = snap.block;
        self.tip_executed = snap.tip_executed;
        proof {
            let pre = *old(self);
            assert(self.applied@ =~= pre.applied@.take(snap.applied_len as int));
            assert(self.published@ =~= pre.published@.take(snap.published_len as int));
            assert(self.obs() =~= pre.stack().last());
            assert forall|k: int| 0 <= k < self.snapshots@.len() implies self.snapshot_target(k)
                == pre.snapshot_target(k) by {
                assert(pre.snapshots@[k].applied_len <= snap.applied_len);
                assert(pre.snapshots@[k].published_len <= snap.published_len);
                assert(self.applied@.take(self.snapshots@[k].applied_len as int)
                    =~= pre.applied@.take(pre.snapshots@[k].applied_len as int));
                assert(self.published@.take(self.snapshots@[k].published_len as int)
                    =~= pre.published@.take(pre.snapshots@[k].published_len as int));
            }
            assert(self.stack() =~~= pre.stack().drop_last());
        }
    }

    /// Pops the newest checkpoint without restoring anything: the effects
    /// made since the checkpoint are kept.
    pub fn pop_snapshot_no_rollback(&mut self)
        requires
            old(self).wf(),
            old(self).snapshots@.len() > 0,
        ensures
            final(self).wf(),
            final(self).snapshots@.len() == old(self).snapshots@.len() - 1,
            final(self).obs() == old(self).obs(),
            final(self).stack() == old(self).stack().drop_last(),
            final(self).last_compressed@ == old(self).last_compressed@,
            final(self).last_trace@ == old(self).last_trace@,
            final(self).executions@ == old(self).executions@,
            old(self).same_batch(*final(self)),
    {
        self.snapshots.pop();
        proof {
            assert(self.stack() =~~= old(self).stack().drop_last());
        }
    }

    /// Advances the intra-batch sub-block boundary.
    pub fn start_new_l2_block(&mut self, l2_block_env: BlockEnv)
        requires
            old(self).wf(),
        ensures
            final(self).wf(),
            final(self).snapshots@ == old(self).snapshots@,
            final(self).obs() == (VmObs { block: l2_block_env, ..old(self).obs() }),
            final(self).stack() == old(self).stack(),
            final(self).last_compressed@ == old(self).last_compressed@,
            final(self).last_trace@ == old(self).last_trace@,
            final(self).executions@ == old(self).executions@,
            old(self).same_batch(*final(self)),
    {
        self.block = l2_block_env;
        proof {
            assert(self.stack() =~~= old(self).stack());
        }
    }

    /// Bootloader gas left in the batch's budget.
    pub fn gas_remaining(&self) -> (r: u64)
        ensures
            r == self.gas_remaining,
    {
        self.gas_remaining
    }

    /// Compressed-bytecode metadata produced by the last transaction run.
    pub fn get_last_tx_compressed_bytecodes(&self) -> (r: Vec<u64>)
        ensures
            r@ == self.last_compressed@,
    {
        copy_u64s(&self.last_compressed)
    }

    /// Call trace collected during the last transaction run.
    pub fn take_last_tx_trace(&self) -> (r: Vec<u64>)
        ensures
            r@ == self.last_trace@,
    {
        copy_u64s(&self.last_trace)
    }

    /// Runs one transaction, attempting bytecode compression and call
    /// tracing as asked. Returns whether bytecode publication succeeded,
    /// paired with the run's result.
    pub fn inspect_transaction_with_bytecode_compression(
        &mut self,
        tx: &Transaction,
        with_traces: bool,
        with_compression: bool,
    ) -> (r: (bool, VmExecutionResult))
        requires
            old(self).wf(),
        ensures
            final(self).wf(),
            r.0 == publish_ok(*tx, with_compression),
            r.1.result == tx_exec_result(old(self).obs(), *tx),
            r.1.gas_used == tx_gas_charged(old(self).obs(), *tx),
            final(self).obs() == apply_tx(
                old(self).obs(),
                *tx,
                publish_ok(*tx, with_compression),
            ),
            final(self).snapshots@ == old(self).snapshots@,
            final(self).stack() == old(self).stack(),
            final(self).last_compressed@ == (if with_compression && tx.compressible
                && tx_applies(old(self).obs(), *tx) {
                tx.bytecodes@
            } else {
                Seq::<u64>::empty()
            }),
            final(self).last_trace@ == (if with_traces && tx_applies(old(self).obs(), *tx) {
                tx.calls@
            } else {
                Seq::<u64>::empty()
            }),
            final(self).executions@ == old(self).executions@ + 1,
            old(self).same_batch(*final(self)),
    {
        self.executions = Ghost(self.executions@ + 1);
        let publish = !with_compression || tx.compressible;
        let result: VmExecutionResult;
        if self.gas_remaining < tx.gas_used {
            self.last_compressed = Vec::new();
            self.last_trace = Vec::new();
            result = VmExecutionResult {
                result: ExecutionResult::Halt { reason: Halt::BootloaderOutOfGas },
                gas_used: 0,
            };
        } else {
            match tx.outcome {
                TxOutcome::Halts(reason) => {
                    self.last_compressed = Vec::new();
                    self.last_trace = Vec::new();
                    result = VmExecutionResult {
                        result: ExecutionResult::Halt { reason },
                        gas_used: 0,
                    };
                },
                TxOutcome::Succeeds => {
                    self.apply_transaction_effects(tx, with_traces, with_compression);
                    result = VmExecutionResult {
                        result: ExecutionResult::Success,
                        gas_used: tx.gas_used,
                    };
                },
                TxOutcome::Reverts => {
                    self.apply_transaction_effects(tx, with_traces, with_compression);
                    result = VmExecutionResult {
                        result: ExecutionResult::Revert,
                        gas_used: tx.gas_used,
                    };
                },
            }
        }
        proof {
            lemma_stack_stable(*old(self), *self);
        }
        (publish, result)
    }

    /// Shared effect of an applied (successful or reverted) transaction:
    /// logs its identifier, publishes its bytecode if publication
    /// succeeded, charges its gas, and records the run's artifacts.
    fn apply_transaction_effects(&mut self, tx: &Transaction, with_traces: bool,
        with_compression: bool)
        requires
            old(self).wf(),
            old(self).gas_remaining >= tx.gas_used,
        ensures
            final(self).wf(),
            final(self).applied@ == old(self).applied@.push(tx.id),
            final(self).published@ == (if !with_compression || tx.compressible {
                old(self).published@ + tx.bytecodes@
            } else {
                old(self).published@
            }),
            final(self).gas_remaining == old(self).gas_remaining - tx.gas_used,
            final(self).block == old(self).block,
            final(self).tip_executed == old(self).tip_executed,
            final(self).snapshots@ == old(self).snapshots@,
            final(self).last_compressed@ == (if with_compression && tx.compressible {
                tx.bytecodes@
            } else {
                Seq::<u64>::empty()
            }),
            final(self).last_trace@ == (if with_traces {
                tx.calls@
            } else {
                Seq::<u64>::empty()
            }),
            final(self).executions@ == old(self).executions@,
            old(self).same_batch(*final(self)),
    {
        self.applied.push(tx.id);
        if !with_compression || tx.compressible {
            append_u64s(&mut self.published, &tx.bytecodes);
        }
        self.gas_remaining = self.gas_remaining - tx.gas_used;
        if with_compression && tx.compressible {
            self.last_compressed = copy_u64s(&tx.bytecodes);
        } else {
            self.last_compressed = Vec::new();
        }
        if with_traces {
            self.last_trace = copy_u64s(&tx.calls);
        } else {
            self.last_trace = Vec::new();
        }
    }

    /// Runs the block-tip finalization routine: the per-batch bookkeeping
    /// executed at the end of a batch. It succeeds exactly when its fixed
    /// cost fits in the remaining budget; it has no other failure mode.
    pub fn execute_block_tip(&mut self) -> (r: VmExecutionResult)
        requires
            old(self).wf(),
        ensures
            final(self).wf(),
            r.result == tip_result(old(self).obs(), old(self).finalization_gas_cost),
            r.gas_used == (if r.result is Success {
                old(self).finalization_gas_cost
            } else {
                0
            }),
            final(self).obs() == apply_tip(old(self).obs(), old(self).finalization_gas_cost),
            final(self).snapshots@ == old(self).snapshots@,
            final(self).stack() == old(self).stack(),
            final(self).last_compressed@ == old(self).last_compressed@,
            final(self).last_trace@ == old(self).last_trace@,
            final(self).executions@ == old(self).executions@,
            old(self).same_batch(*final(self)),
    {
        let r: VmExecutionResult;
        if self.gas_remaining >= self.finalization_gas_cost {
            self.gas_remaining = self.gas_remaining - self.finalization_gas_cost;
            self.tip_executed = true;
            r = VmExecutionResult {
                result: ExecutionResult::Success,
                gas_used: self.finalization_gas_cost,
            };
        } else {
            r = VmExecutionResult {
                result: ExecutionResult::Halt { reason: Halt::BootloaderOutOfGas },
                gas_used: 0,
            };
        }
        proof {
            lemma_stack_stable(*old(self), *self);
        }
        r
    }

    /// Captures the machine's state for downstream proof generation. Only
    /// safe to read once the engine has stopped running transactions.
    pub fn witness_block_state(&self) -> (w: WitnessBlockState)
        ensures
            w.storage@ == self.storage@,
            w.applied@ == self.applied@,
            w.published@ == self.published@,
    {
        WitnessBlockState {
            storage: copy_pairs(&self.storage),
            applied: copy_u64s(&self.applied),
            published: copy_u64s(&self.published),
        }
    }

    /// How many checkpoints are unresolved; exposed so that an unverified
    /// caller can test a rollback's precondition before asking for one.
    pub fn snapshot_count(&self) -> (n: usize)
        ensures
            n == self.snapshots@.len(),
    {
        self.snapshots.len()
    }
}

/// When the checkpoint entries are unchanged and the effect logs only
/// grew, every checkpoint still restores the same state.
proof fn lemma_stack_stable(pre: Vm, post: Vm)
    requires
        pre.wf(),
        post.snapshots@ == pre.snapshots@,
        pre.applied@.is_prefix_of(post.applied@),
        pre.published@.is_prefix_of(post.published@),
    ensures
        post.stack() == pre.stack(),
{
    assert forall|k: int| 0 <= k < post.snapshots@.len() implies post.snapshot_target(k)
        == pre.snapshot_target(k) by {
        assert(post.applied@.take(post.snapshots@[k].applied_len as int) =~= pre.applied@.take(
            pre.snapshots@[k].applied_len as int,
        ));
        assert(post.published@.take(post.snapshots@[k].published_len as int)
            =~= pre.published@.take(pre.snapshots@[k].published_len as int));
    }
    assert(post.stack() =~~= pre.stack());
}

/// Copies a vector of identifiers.
pub(crate) fn copy_u64s(src: &Vec<u64>) -> (r: Vec<u64>)
    ensures
        r@ == src@,
{
    let mut r: Vec<u64> = Vec::new();
    let mut i: usize = 0;
    proof {
        assert(r@ =~= src@.take(0));
    }
    while i < src.len()
        invariant
            i <= src.len(),
            r@ == src@.take(i as int),
        decreases src.len() - i,
    {
        r.push(src[i]);
        proof {
            assert(src@.take(i as int).push(src@[i as int]) =~= src@.take(i as int + 1));
        }
        i = i + 1;
    }
    proof {
        assert(src@.take(src@.len() as int) =~= src@);
    }
    r
}

/// Copies a vector of key-value pairs.
pub(crate) fn copy_pairs(src: &Vec<(u64, u64)>) -> (r: Vec<(u64, u64)>)
    ensures
        r@ == src@,
{
    let mut r: Vec<(u64, u64)> = Vec::new();
    let mut i: usize = 0;
    proof {
        assert(r@ =~= src@.take(0));
    }
    while i < src.len()
        invariant
            i <= src.len(),
            r@ == src@.take(i as int),
        decreases src.len() - i,
    {
        r.push(src[i]);
        proof {
            assert(src@.take(i as int).push(src@[i as int]) =~= src@.take(i as int + 1));
        }
        i = i + 1;
    }
    proof {
        assert(src@.take(src@.len() as int) =~= src@);
    }
    r
}

/// Appends every element of `src` to `dst`, in order.
pub(crate) fn append_u64s(dst: &mut Vec<u64>, src: &Vec<u64>)
    ensures
        final(dst)@ == old(dst)@ + src@,
{
    let mut i: usize = 0;
    proof {
        assert(dst@ =~= old(dst)@ + src@.take(0));
    }
    while i < src.len()
        invariant
            i <= src.len(),
            dst@ == old(dst)@ + src@.take(i as int),
        decreases src.len() - i,
    {
        dst.push(src[i]);
        proof {
            assert(old(dst)@ + src@.take(i as int).push(src@[i as int]) =~= old(dst)@ + src@.take(
                i as int + 1,
            ));
        }
        i = i + 1;
    }
    proof {
        assert(old(dst)@ + src@.take(src@.len() as int) =~= old(dst)@ + src@);
    }
}

} // verus!
