//! Tests of the bytecode-compression retry protocol and the factory.

use batch_executor::engine::CommandReceiver;
use batch_executor::executor::MainBatchExecutor;
use batch_executor::types::{
    BatchEnv, BlockEnv, ExecutionResult, Halt, SystemEnv, Transaction, TxExecutionResult,
    TxOutcome,
};
use batch_executor::vm::Vm;

fn batch_env() -> BatchEnv {
    BatchEnv {
        number: 1,
        timestamp: 1_700_000_000,
        base_fee: 10,
        first_block: BlockEnv { number: 1, timestamp: 1_700_000_000 },
    }
}

fn system_env() -> SystemEnv {
    SystemEnv { bootloader_gas_budget: 10_000, finalization_gas_cost: 100 }
}

fn incompressible_tx() -> Transaction {
    Transaction {
        id: 5,
        gas_limit: 500,
        gas_used: 300,
        outcome: TxOutcome::Succeeds,
        compressible: false,
        bytecodes: vec![91, 92],
        calls: vec![4],
    }
}

#[test]
fn compressible_tx_publishes_compressed() {
    let cfg = CommandReceiver {
        save_call_traces: true,
        max_allowed_tx_gas_limit: 1_000,
        optional_bytecode_compression: true,
    };
    let mut vm = Vm::new(vec![], batch_env(), system_env());
    let tx = Transaction { compressible: true, ..incompressible_tx() };
    match cfg.execute_tx(&tx, &mut vm) {
        TxExecutionResult::Success { compressed_bytecodes, .. } => {
            assert_eq!(compressed_bytecodes, vec![91, 92]);
        }
        _ => panic!("expected Success"),
    }
    assert_eq!(vm.published, vec![91, 92]);
}

#[test]
fn failed_publication_retries_uncompressed() {
    // With the fallback enabled, a publication failure is retried without
    // compression; the applied state matches a plain run exactly, and the
    // reply carries no compressed-bytecode metadata.
    let cfg = CommandReceiver {
        save_call_traces: true,
        max_allowed_tx_gas_limit: 1_000,
        optional_bytecode_compression: true,
    };
    let mut vm = Vm::new(vec![], batch_env(), system_env());
    let tx = incompressible_tx();
    match cfg.execute_tx(&tx, &mut vm) {
        TxExecutionResult::Success { tx_result, compressed_bytecodes, gas_remaining, .. } => {
            assert_eq!(tx_result.result, ExecutionResult::Success);
            assert_eq!(compressed_bytecodes, Vec::<u64>::new());
            assert_eq!(gas_remaining, 10_000 - 300);
        }
        _ => panic!("expected Success after the retry"),
    }

    // The same transaction run with compression never attempted gives the
    // identical applied state: same log, same publication, same gas.
    let mut plain_vm = Vm::new(vec![], batch_env(), system_env());
    let (published, plain_result) =
        plain_vm.inspect_transaction_with_bytecode_compression(&tx, true, false);
    assert!(published);
    assert_eq!(plain_result.result, ExecutionResult::Success);
    assert_eq!(plain_vm.applied, vm.applied);
    assert_eq!(plain_vm.published, vm.published);
    assert_eq!(plain_vm.gas_remaining(), vm.gas_remaining());
    assert_eq!(vm.published, vec![91, 92]);
}

#[test]
fn disabled_fallback_rejects_unpublishable_bytecode() {
    // Without the fallback, a publication failure rejects the transaction
    // cleanly so the initiator is not charged.
    let cfg = CommandReceiver {
        save_call_traces: false,
        max_allowed_tx_gas_limit: 1_000,
        optional_bytecode_compression: false,
    };
    let mut vm = Vm::new(vec![], batch_env(), system_env());
    match cfg.execute_tx(&incompressible_tx(), &mut vm) {
        TxExecutionResult::RejectedByVm { reason } => {
            assert_eq!(reason, Halt::FailedToPublishCompressedBytecodes)
        }
        _ => panic!("expected a rejection"),
    }
    // The attempt was rolled back entirely.
    assert_eq!(vm.applied, Vec::<u64>::new());
    assert_eq!(vm.published, Vec::<u64>::new());
    assert_eq!(vm.gas_remaining(), 10_000);
    assert_eq!(vm.snapshot_count(), 0);
}

#[test]
fn traces_collected_only_when_enabled() {
    let mut vm = Vm::new(vec![], batch_env(), system_env());
    let tx = Transaction { compressible: true, ..incompressible_tx() };
    let untraced = CommandReceiver {
        save_call_traces: false,
        max_allowed_tx_gas_limit: 1_000,
        optional_bytecode_compression: true,
    };
    match untraced.execute_tx(&tx, &mut vm) {
        TxExecutionResult::Success { call_tracer_result, .. } => {
            assert_eq!(call_tracer_result, Vec::<u64>::new())
        }
        _ => panic!("expected Success"),
    }
    let traced = CommandReceiver { save_call_traces: true, ..untraced };
    match traced.execute_tx(&tx, &mut vm) {
        TxExecutionResult::Success { call_tracer_result, .. } => {
            assert_eq!(call_tracer_result, vec![4])
        }
        _ => panic!("expected Success"),
    }
}

#[test]
fn factory_builds_handle_unless_stopped() {
    let factory = MainBatchExecutor::new(vec![(1, 10)], 777, true, false, true);
    assert!(factory.init_batch(batch_env(), system_env(), true).is_none());
    let handle = factory
        .init_batch(batch_env(), system_env(), false)
        .expect("no stop was requested");
    assert_eq!(handle.receiver.max_allowed_tx_gas_limit, 777);
    assert!(handle.receiver.save_call_traces);
    assert!(handle.receiver.optional_bytecode_compression);
    assert!(!handle.upload_witness_inputs_to_gcs);
    assert_eq!(handle.storage, vec![(1, 10)]);
    assert_eq!(handle.l1_batch_params.number, 1);
    assert_eq!(handle.system_env.bootloader_gas_budget, 10_000);
}

#[test]
fn dry_run_leaves_measurement_only() {
    let cfg = CommandReceiver {
        save_call_traces: false,
        max_allowed_tx_gas_limit: 1_000,
        optional_bytecode_compression: true,
    };
    let mut vm = Vm::new(vec![], batch_env(), system_env());
    let (result, metrics) = cfg.dryrun_block_tip(&mut vm);
    assert_eq!(result.result, ExecutionResult::Success);
    assert_eq!(result.gas_used, 100);
    assert_eq!(metrics.gas_used, 100);
    // Rolled back: no gas spent, no bookkeeping kept, no checkpoint left.
    assert_eq!(vm.gas_remaining(), 10_000);
    assert!(!vm.tip_executed);
    assert_eq!(vm.snapshot_count(), 0);
}
