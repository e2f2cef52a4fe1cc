//! The engine's guarantees, stated and proved as laws over the command
//! step functions. Each law is phrased over the same `EngineState`
//! abstraction and the same step/verdict functions that the engine
//! methods' own contracts use, so together with those contracts each law
//! holds of the executable engine.

use vstd::prelude::*;

use crate::engine::{
    cmd_ok, exec_step, exec_verdict_ok, finish_step, kept_obs, protocol_result, rollback_step,
    run_state, tx_kept, CommandReceiver, EngineState,
};
use crate::types::{Command, Halt, Transaction, TxExecutionResult};
use crate::vm::{apply_tx, publish_ok, tip_result, tx_exec_result, VmObs};

verus! {

/// When one `ExecuteTx` returns the `Success` verdict — the transaction
/// is kept and the block-tip dry run from the resulting state succeeds.
pub open spec fn exec_success(cfg: CommandReceiver, cost: u64, s: VmObs, tx: Transaction) -> bool {
    tx_kept(cfg, s, tx) && tip_result(kept_obs(s, tx), cost) is Success
}

/// The `Success` verdict of `ExecuteTx` coincides with `exec_success` at
/// the state the command found: the reply pinned by `exec_verdict_ok` is
/// `Success` exactly when the transaction was kept and its dry run
/// succeeded.
pub proof fn lemma_success_verdict_characterized(
    cfg: CommandReceiver,
    cost: u64,
    s: VmObs,
    tx: Transaction,
    r: TxExecutionResult,
)
    requires
        exec_verdict_ok(cfg, cost, s, tx, r),
    ensures
        r is Success <==> exec_success(cfg, cost, s, tx),
{
}

/// A transaction whose declared gas limit exceeds the configured ceiling
/// is rejected with `TooBigGasLimit` without invoking the machine at all:
/// the verdict is pinned, and the engine abstraction — observable state,
/// checkpoint stack, and the count of machine runs — is left unchanged.
pub proof fn lemma_oversized_gas_limit_rejected(
    cfg: CommandReceiver,
    cost: u64,
    s: EngineState,
    tx: Transaction,
    r: TxExecutionResult,
)
    requires
        tx.gas_limit > cfg.max_allowed_tx_gas_limit,
        exec_verdict_ok(cfg, cost, s.obs, tx, r),
    ensures
        r == (TxExecutionResult::RejectedByVm { reason: Halt::TooBigGasLimit }),
        exec_step(cfg, cost, s, tx) == s,
{
    assert(exec_step(cfg, cost, s, tx) =~~= s);
}

/// `ExecuteTx` immediately followed by `RollbackLastTx` leaves the
/// observable state identical to the state before the `ExecuteTx`: a kept
/// transaction leaves exactly one new checkpoint whose resolution
/// restores the pre-attempt state, and a rejected transaction has already
/// left the state untouched when its verdict is returned.
pub proof fn lemma_execute_then_rollback(
    cfg: CommandReceiver,
    cost: u64,
    s: EngineState,
    tx: Transaction,
)
    ensures
        tx_kept(cfg, s.obs, tx) ==> {
            &&& exec_step(cfg, cost, s, tx).stack.len() == s.stack.len() + 1
            &&& rollback_step(exec_step(cfg, cost, s, tx)).obs == s.obs
            &&& rollback_step(exec_step(cfg, cost, s, tx)).stack == s.stack
        },
        !tx_kept(cfg, s.obs, tx) ==> {
            &&& exec_step(cfg, cost, s, tx).obs == s.obs
            &&& exec_step(cfg, cost, s, tx).stack == s.stack
        },
{
    if tx_kept(cfg, s.obs, tx) {
        assert(rollback_step(exec_step(cfg, cost, s, tx)).stack =~~= s.stack);
    }
}

/// A `Success` verdict proves the dry run's effects were rolled back: the
/// machine is left exactly in the applied-transaction state — only the
/// transaction's own gas is charged, no finalization bookkeeping is kept —
/// and a real `FinishBatch` issued now reproduces the outcome the dry run
/// reported: it succeeds.
pub proof fn lemma_success_dry_run_left_no_artifacts(
    cfg: CommandReceiver,
    cost: u64,
    s: EngineState,
    tx: Transaction,
    r: TxExecutionResult,
)
    requires
        exec_verdict_ok(cfg, cost, s.obs, tx, r),
        r is Success,
    ensures
        tx_kept(cfg, s.obs, tx),
        exec_step(cfg, cost, s, tx).obs == kept_obs(s.obs, tx),
        kept_obs(s.obs, tx).tip_executed == s.obs.tip_executed,
        kept_obs(s.obs, tx).gas_remaining == s.obs.gas_remaining - tx.gas_used,
        tip_result(exec_step(cfg, cost, s, tx).obs, cost) is Success,
        cmd_ok(cfg, cost, exec_step(cfg, cost, s, tx), Command::FinishBatch),
        finish_step(exec_step(cfg, cost, s, tx), cost).obs.tip_executed,
{
}

/// The engine abstraction after a straight sequence of `ExecuteTx`
/// commands.
pub open spec fn exec_seq_state(
    cfg: CommandReceiver,
    cost: u64,
    s: EngineState,
    txs: Seq<Transaction>,
) -> EngineState
    decreases txs.len(),
{
    if txs.len() == 0 {
        s
    } else {
        exec_step(cfg, cost, exec_seq_state(cfg, cost, s, txs.drop_last()), txs.last())
    }
}

/// A batch whose transactions all returned `Success` can always be
/// sealed: from the resulting state, `FinishBatch` is acceptable and its
/// finalization run succeeds — it neither reverts nor exhausts the
/// budget — because each included transaction individually passed a
/// block-tip dry run proving exactly that.
pub proof fn lemma_all_success_batch_seals(
    cfg: CommandReceiver,
    cost: u64,
    s: EngineState,
    txs: Seq<Transaction>,
)
    requires
        s.obs.gas_remaining >= cost,
        forall|i: int|
            0 <= i < txs.len() ==> exec_success(
                cfg,
                cost,
                exec_seq_state(cfg, cost, s, txs.take(i)).obs,
                txs[i],
            ),
    ensures
        exec_seq_state(cfg, cost, s, txs).obs.gas_remaining >= cost,
        tip_result(exec_seq_state(cfg, cost, s, txs).obs, cost) is Success,
        cmd_ok(cfg, cost, exec_seq_state(cfg, cost, s, txs), Command::FinishBatch),
{
    if txs.len() > 0 {
        let n = txs.len() as int;
        assert(exec_success(cfg, cost, exec_seq_state(cfg, cost, s, txs.take(n - 1)).obs, txs[n - 1]));
        assert(txs.take(n - 1) =~= txs.drop_last());
        assert(txs[n - 1] == txs.last());
    }
}

/// The compression retry protocol is conservative: a transaction whose
/// compressed-bytecode publication fails ends, after the one rollback and
/// uncompressed retry, with the verdict the machine itself reached and in
/// exactly the applied state that running it with compression disabled
/// from the start would produce — publication included, since without
/// compression it always succeeds. Only the count of machine runs shows
/// the retry.
pub proof fn lemma_compression_fallback_equivalence(
    cfg: CommandReceiver,
    cost: u64,
    s: EngineState,
    tx: Transaction,
)
    requires
        cfg.optional_bytecode_compression,
        !tx.compressible,
        tx.gas_limit <= cfg.max_allowed_tx_gas_limit,
    ensures
        protocol_result(cfg, s.obs, tx) == tx_exec_result(s.obs, tx),
        publish_ok(tx, false),
        tx_kept(cfg, s.obs, tx) ==> exec_step(cfg, cost, s, tx).obs == apply_tx(
            s.obs,
            tx,
            publish_ok(tx, false),
        ),
        !tx_kept(cfg, s.obs, tx) ==> exec_step(cfg, cost, s, tx).obs == s.obs,
        exec_step(cfg, cost, s, tx).executions == s.executions + 2,
{
}

/// Under the commands `[ExecuteTx(A), ExecuteTx(B), RollbackLastTx,
/// FinishBatch]`, the sealed batch carries exactly A's effects and none
/// of B's: the applied log is the prior log plus A alone, and the
/// published bytecode is the prior log plus A's alone.
pub proof fn lemma_rollback_excludes_last_tx(
    cfg: CommandReceiver,
    cost: u64,
    s: EngineState,
    a: Transaction,
    b: Transaction,
)
    requires
        exec_success(cfg, cost, s.obs, a),
        tx_kept(cfg, exec_step(cfg, cost, s, a).obs, b),
    ensures
        ({
            let cmds = seq![
                Command::ExecuteTx(a),
                Command::ExecuteTx(b),
                Command::RollbackLastTx,
                Command::FinishBatch,
            ];
            let sealed = run_state(cfg, cost, s, cmds, 4);
            &&& cmd_ok(cfg, cost, run_state(cfg, cost, s, cmds, 2), Command::RollbackLastTx)
            &&& cmd_ok(cfg, cost, run_state(cfg, cost, s, cmds, 3), Command::FinishBatch)
            &&& sealed.obs.applied == s.obs.applied.push(a.id)
            &&& sealed.obs.published == s.obs.published + a.bytecodes@
            &&& sealed.obs.tip_executed
        }),
{
    let cmds = seq![
        Command::ExecuteTx(a),
        Command::ExecuteTx(b),
        Command::RollbackLastTx,
        Command::FinishBatch,
    ];
    let s1 = exec_step(cfg, cost, s, a);
    let s2 = exec_step(cfg, cost, s1, b);
    let s3 = rollback_step(s2);
    assert(cmds[0] == Command::ExecuteTx(a));
    assert(cmds[1] == Command::ExecuteTx(b));
    assert(cmds[2] == Command::RollbackLastTx);
    assert(cmds[3] == Command::FinishBatch);
    assert(run_state(cfg, cost, s, cmds, 0) == s);
    assert(run_state(cfg, cost, s, cmds, 1) == s1);
    assert(run_state(cfg, cost, s, cmds, 2) == s2);
    assert(run_state(cfg, cost, s, cmds, 3) == s3);
    assert(s2.stack == s1.stack.push(s1.obs));
    assert(s3.obs == s1.obs);
    assert(s1.obs == kept_obs(s.obs, a));
}

} // verus!
