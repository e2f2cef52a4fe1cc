//! Scenario tests driving the engine through whole batches.

use batch_executor::engine::CommandReceiver;
use batch_executor::types::{
    BatchEnv, BlockEnv, Command, CommandReply, ExecutionResult, Halt, SystemEnv, Transaction,
    TxExecutionResult, TxOutcome,
};
use batch_executor::vm::Vm;

fn batch_env() -> BatchEnv {
    BatchEnv {
        number: 7,
        timestamp: 1_700_000_000,
        base_fee: 250,
        first_block: BlockEnv { number: 100, timestamp: 1_700_000_000 },
    }
}

fn system_env(budget: u64, tip_cost: u64) -> SystemEnv {
    SystemEnv { bootloader_gas_budget: budget, finalization_gas_cost: tip_cost }
}

fn receiver(max_gas_limit: u64, optional_compression: bool) -> CommandReceiver {
    CommandReceiver {
        save_call_traces: true,
        max_allowed_tx_gas_limit: max_gas_limit,
        optional_bytecode_compression: optional_compression,
    }
}

fn plain_tx(id: u64, gas_used: u64) -> Transaction {
    Transaction {
        id,
        gas_limit: 500,
        gas_used,
        outcome: TxOutcome::Succeeds,
        compressible: true,
        bytecodes: vec![],
        calls: vec![],
    }
}

#[test]
fn oversized_gas_limit_rejected_without_vm_run() {
    let cfg = receiver(1_000, true);
    let mut vm = Vm::new(vec![], batch_env(), system_env(10_000, 100));
    let tx = Transaction { gas_limit: 1_001, ..plain_tx(1, 50) };
    let gas_before = vm.gas_remaining();
    let result = cfg.execute_tx(&tx, &mut vm);
    match result {
        TxExecutionResult::RejectedByVm { reason } => assert_eq!(reason, Halt::TooBigGasLimit),
        _ => panic!("expected RejectedByVm"),
    }
    // Nothing ran and nothing changed: no checkpoint left, no gas charged.
    assert_eq!(vm.gas_remaining(), gas_before);
    assert_eq!(vm.snapshot_count(), 0);
    assert_eq!(vm.applied.len(), 0);
}

#[test]
fn rejected_tx_then_empty_batch_seals() {
    // A batch whose single transaction is rejected still seals, empty.
    let cfg = receiver(1_000, true);
    let tx = Transaction { gas_limit: 2_000, ..plain_tx(1, 50) };
    let replies = cfg.run(
        vec![(5, 55)],
        batch_env(),
        system_env(10_000, 100),
        true,
        vec![Command::ExecuteTx(tx), Command::FinishBatch],
    );
    assert_eq!(replies.len(), 2);
    match &replies[0] {
        CommandReply::TxExecuted(TxExecutionResult::RejectedByVm { reason }) => {
            assert_eq!(*reason, Halt::TooBigGasLimit)
        }
        _ => panic!("expected a rejection"),
    }
    match &replies[1] {
        CommandReply::BatchFinished(fb) => {
            assert_eq!(fb.block_tip_result.result, ExecutionResult::Success);
            assert_eq!(fb.block_tip_result.gas_used, 100);
            let witness = fb.witness_block_state.as_ref().expect("witness requested");
            assert_eq!(witness.applied, Vec::<u64>::new());
            assert_eq!(witness.published, Vec::<u64>::new());
            assert_eq!(witness.storage, vec![(5, 55)]);
        }
        _ => panic!("expected a finished batch"),
    }
}

#[test]
fn execute_then_rollback_restores_state() {
    let cfg = receiver(1_000, true);
    let mut vm = Vm::new(vec![], batch_env(), system_env(10_000, 100));
    let gas_before = vm.gas_remaining();
    let tx = Transaction { bytecodes: vec![41, 42], ..plain_tx(9, 600) };
    let result = cfg.execute_tx(&tx, &mut vm);
    assert!(matches!(result, TxExecutionResult::Success { .. }));
    assert_eq!(vm.gas_remaining(), gas_before - 600);
    assert_eq!(vm.applied, vec![9]);
    assert_eq!(vm.published, vec![41, 42]);
    assert_eq!(vm.snapshot_count(), 1);
    cfg.rollback_last_tx(&mut vm);
    // Observably identical to the state before the ExecuteTx.
    assert_eq!(vm.gas_remaining(), gas_before);
    assert_eq!(vm.applied, Vec::<u64>::new());
    assert_eq!(vm.published, Vec::<u64>::new());
    assert_eq!(vm.snapshot_count(), 0);
}

#[test]
fn success_carries_dry_run_measurements_only() {
    // The dry run is measured but rolled back: after a Success the gas
    // spent is the transaction's alone, and the finalization bookkeeping
    // is not yet kept.
    let cfg = receiver(1_000, true);
    let mut vm = Vm::new(vec![], batch_env(), system_env(10_000, 100));
    let tx = Transaction { calls: vec![7, 8, 9], ..plain_tx(3, 500) };
    let result = cfg.execute_tx(&tx, &mut vm);
    match result {
        TxExecutionResult::Success {
            tx_result,
            tx_metrics,
            bootloader_dry_run_result,
            bootloader_dry_run_metrics,
            compressed_bytecodes,
            call_tracer_result,
            gas_remaining,
        } => {
            assert_eq!(tx_result.result, ExecutionResult::Success);
            assert_eq!(tx_result.gas_used, 500);
            assert_eq!(tx_metrics.gas_used, 500);
            assert_eq!(bootloader_dry_run_result.result, ExecutionResult::Success);
            assert_eq!(bootloader_dry_run_result.gas_used, 100);
            assert_eq!(bootloader_dry_run_metrics.gas_used, 100);
            assert_eq!(compressed_bytecodes, Vec::<u64>::new());
            assert_eq!(call_tracer_result, vec![7, 8, 9]);
            assert_eq!(gas_remaining, 10_000 - 500);
        }
        _ => panic!("expected Success"),
    }
    // Only the transaction's gas is gone; the dry run's tip cost is not.
    assert_eq!(vm.gas_remaining(), 10_000 - 500);
    assert!(!vm.tip_executed);
    // Re-running finalization for real reflects the real outcome.
    let tip = cfg.finish_batch(&mut vm);
    assert_eq!(tip.result, ExecutionResult::Success);
    assert_eq!(vm.gas_remaining(), 10_000 - 500 - 100);
    assert!(vm.tip_executed);
}

#[test]
fn batch_of_successes_seals_successfully() {
    let cfg = receiver(1_000, true);
    let commands = vec![
        Command::ExecuteTx(plain_tx(1, 300)),
        Command::ExecuteTx(plain_tx(2, 300)),
        Command::StartNextMiniblock(BlockEnv { number: 101, timestamp: 1_700_000_010 }),
        Command::ExecuteTx(plain_tx(3, 300)),
        Command::FinishBatch,
    ];
    let replies = cfg.run(vec![], batch_env(), system_env(10_000, 100), true, commands);
    assert_eq!(replies.len(), 5);
    for reply in &replies[0..2] {
        assert!(matches!(
            reply,
            CommandReply::TxExecuted(TxExecutionResult::Success { .. })
        ));
    }
    assert!(matches!(replies[2], CommandReply::MiniblockStarted));
    assert!(matches!(
        replies[3],
        CommandReply::TxExecuted(TxExecutionResult::Success { .. })
    ));
    match &replies[4] {
        CommandReply::BatchFinished(fb) => {
            assert_eq!(fb.block_tip_result.result, ExecutionResult::Success);
            let witness = fb.witness_block_state.as_ref().expect("witness requested");
            assert_eq!(witness.applied, vec![1, 2, 3]);
        }
        _ => panic!("expected a finished batch"),
    }
}

#[test]
fn command_ordering_rollback_excludes_second_tx() {
    // [ExecuteTx(A), ExecuteTx(B), RollbackLastTx, FinishBatch]: the
    // sealed batch includes only A's effects, not B's.
    let cfg = receiver(1_000, true);
    let a = Transaction { bytecodes: vec![11], ..plain_tx(1, 400) };
    let b = Transaction { bytecodes: vec![22], ..plain_tx(2, 400) };
    let replies = cfg.run(
        vec![],
        batch_env(),
        system_env(10_000, 100),
        true,
        vec![
            Command::ExecuteTx(a),
            Command::ExecuteTx(b),
            Command::RollbackLastTx,
            Command::FinishBatch,
        ],
    );
    assert_eq!(replies.len(), 4);
    assert!(matches!(replies[2], CommandReply::RolledBack));
    match &replies[3] {
        CommandReply::BatchFinished(fb) => {
            let witness = fb.witness_block_state.as_ref().expect("witness requested");
            assert_eq!(witness.applied, vec![1]);
            assert_eq!(witness.published, vec![11]);
        }
        _ => panic!("expected a finished batch"),
    }
}

#[test]
fn block_tip_out_of_gas_then_rollback_and_seal() {
    // A succeeds; B applies but leaves too little gas for the block tip,
    // so the engine answers BootloaderOutOfGasForBlockTip; the caller
    // rolls B back and seals the prior batch successfully.
    let cfg = receiver(1_000, true);
    let mut vm = Vm::new(vec![], batch_env(), system_env(1_000, 100));
    let a = plain_tx(1, 500);
    let b = plain_tx(2, 450);
    assert!(matches!(
        cfg.execute_tx(&a, &mut vm),
        TxExecutionResult::Success { .. }
    ));
    // 1000 - 500 - 450 = 50 < 100: the dry run runs out of budget.
    assert!(matches!(
        cfg.execute_tx(&b, &mut vm),
        TxExecutionResult::BootloaderOutOfGasForBlockTip
    ));
    // B is still applied until the caller rolls it back.
    assert_eq!(vm.applied, vec![1, 2]);
    cfg.rollback_last_tx(&mut vm);
    assert_eq!(vm.applied, vec![1]);
    assert_eq!(vm.gas_remaining(), 500);
    let tip = cfg.finish_batch(&mut vm);
    assert_eq!(tip.result, ExecutionResult::Success);
}

#[test]
fn bootloader_out_of_gas_for_tx_rolls_back() {
    // The transaction itself exhausts the bootloader budget: the verdict
    // is BootloaderOutOfGasForTx and the state is rolled back.
    let cfg = receiver(1_000, true);
    let mut vm = Vm::new(vec![], batch_env(), system_env(400, 100));
    let tx = plain_tx(1, 500);
    assert!(matches!(
        cfg.execute_tx(&tx, &mut vm),
        TxExecutionResult::BootloaderOutOfGasForTx
    ));
    assert_eq!(vm.applied, Vec::<u64>::new());
    assert_eq!(vm.gas_remaining(), 400);
    assert_eq!(vm.snapshot_count(), 0);
}

#[test]
fn halted_tx_rejected_with_its_reason() {
    let cfg = receiver(1_000, true);
    let mut vm = Vm::new(vec![], batch_env(), system_env(10_000, 100));
    let tx = Transaction { outcome: TxOutcome::Halts(Halt::Other(77)), ..plain_tx(1, 50) };
    match cfg.execute_tx(&tx, &mut vm) {
        TxExecutionResult::RejectedByVm { reason } => assert_eq!(reason, Halt::Other(77)),
        _ => panic!("expected RejectedByVm"),
    }
    assert_eq!(vm.applied, Vec::<u64>::new());
    assert_eq!(vm.snapshot_count(), 0);
}

#[test]
fn reverted_tx_is_still_included() {
    // A revert is a properly processed transaction: it is applied,
    // charged, and included in the batch.
    let cfg = receiver(1_000, true);
    let mut vm = Vm::new(vec![], batch_env(), system_env(10_000, 100));
    let tx = Transaction { outcome: TxOutcome::Reverts, ..plain_tx(6, 250) };
    match cfg.execute_tx(&tx, &mut vm) {
        TxExecutionResult::Success { tx_result, .. } => {
            assert_eq!(tx_result.result, ExecutionResult::Revert);
            assert_eq!(tx_result.gas_used, 250);
        }
        _ => panic!("expected Success carrying the revert"),
    }
    assert_eq!(vm.applied, vec![6]);
    assert_eq!(vm.gas_remaining(), 10_000 - 250);
}

#[test]
fn miniblock_boundary_is_forwarded() {
    let cfg = receiver(1_000, true);
    let mut vm = Vm::new(vec![], batch_env(), system_env(10_000, 100));
    assert_eq!(vm.block.number, 100);
    cfg.start_next_miniblock(BlockEnv { number: 101, timestamp: 1_700_000_060 }, &mut vm);
    assert_eq!(vm.block.number, 101);
    assert_eq!(vm.block.timestamp, 1_700_000_060);
    // No snapshot semantics: nothing to roll back was created.
    assert_eq!(vm.snapshot_count(), 0);
}

#[test]
fn full_batch_with_tip_overflow_recovers_via_rollback() {
    // The P8 flow through the command loop: the second transaction fits
    // but leaves no room for the block tip; the caller rolls it back and
    // the sealed batch carries only the first transaction.
    let cfg = receiver(1_000, true);
    let replies = cfg.run(
        vec![],
        batch_env(),
        system_env(1_000, 100),
        true,
        vec![
            Command::ExecuteTx(plain_tx(1, 500)),
            Command::ExecuteTx(plain_tx(2, 450)),
            Command::RollbackLastTx,
            Command::FinishBatch,
        ],
    );
    assert_eq!(replies.len(), 4);
    assert!(matches!(
        replies[0],
        CommandReply::TxExecuted(TxExecutionResult::Success { .. })
    ));
    assert!(matches!(
        replies[1],
        CommandReply::TxExecuted(TxExecutionResult::BootloaderOutOfGasForBlockTip)
    ));
    assert!(matches!(replies[2], CommandReply::RolledBack));
    match &replies[3] {
        CommandReply::BatchFinished(fb) => {
            assert_eq!(fb.block_tip_result.result, ExecutionResult::Success);
            let witness = fb.witness_block_state.as_ref().expect("witness requested");
            assert_eq!(witness.applied, vec![1]);
        }
        _ => panic!("expected a finished batch"),
    }
}

#[test]
fn tx_halting_with_bootloader_out_of_gas_maps_to_out_of_gas_for_tx() {
    // The machine's own BootloaderOutOfGas halt — not just an exhausted
    // budget — maps to the dedicated BootloaderOutOfGasForTx reply.
    let cfg = receiver(1_000, true);
    let mut vm = Vm::new(vec![], batch_env(), system_env(10_000, 100));
    let tx = Transaction {
        outcome: TxOutcome::Halts(Halt::BootloaderOutOfGas),
        ..plain_tx(4, 50)
    };
    assert!(matches!(
        cfg.execute_tx(&tx, &mut vm),
        TxExecutionResult::BootloaderOutOfGasForTx
    ));
    assert_eq!(vm.applied, Vec::<u64>::new());
    assert_eq!(vm.gas_remaining(), 10_000);
}

#[test]
fn run_stops_after_finish_batch() {
    // The engine is single-use: commands after FinishBatch get no reply.
    let cfg = receiver(1_000, true);
    let replies = cfg.run(
        vec![],
        batch_env(),
        system_env(10_000, 100),
        false,
        vec![
            Command::FinishBatch,
            Command::ExecuteTx(plain_tx(1, 10)),
        ],
    );
    assert_eq!(replies.len(), 1);
    match &replies[0] {
        CommandReply::BatchFinished(fb) => {
            assert_eq!(fb.block_tip_result.result, ExecutionResult::Success);
            assert!(fb.witness_block_state.is_none());
        }
        _ => panic!("expected a finished batch"),
    }
}
