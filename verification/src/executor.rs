//! The engine factory: holds the batch-independent configuration and, per
//! batch, acquires storage access and hands out a single-use engine.
//!
//! The real system spawns the engine's command loop on an execution
//! context of its own, segregated from the caller's cooperative
//! scheduler, and talks to it over a capacity-one command queue; that
//! plumbing carries no decisions and stays outside this crate. What the
//! factory decides — whether a handle is produced at all, and with which
//! configuration and storage — is verified here.

use vstd::prelude::*;

use crate::engine::CommandReceiver;
use crate::types::{BatchEnv, SystemEnv};
use crate::vm::copy_pairs;

verus! {

/// Everything a caller needs to drive one batch: the engine, the storage
/// it executes over, the batch's environments, and whether the sealed
/// batch captures witness state.
pub struct BatchExecutorHandle {
    pub receiver: CommandReceiver,
    pub storage: Vec<(u64, u64)>,
    pub l1_batch_params: BatchEnv,
    pub system_env: SystemEnv,
    pub upload_witness_inputs_to_gcs: bool,
}

/// The batch executor factory. One factory serves many batches; each call
/// to `init_batch` yields a fresh single-use engine.
pub struct MainBatchExecutor {
    /// The storage batches execute over.
    pub storage: Vec<(u64, u64)>,
    /// Ceiling on a transaction's declared gas limit.
    pub max_allowed_tx_gas_limit: u64,
    /// Whether a call tracer is attached to every transaction run.
    pub save_call_traces: bool,
    /// Whether the sealed batch captures witness state for proving.
    pub upload_witness_inputs_to_gcs: bool,
    /// Whether failed bytecode compression falls back to an uncompressed
    /// retry instead of rejecting the transaction.
    pub optional_bytecode_compression: bool,
}

impl MainBatchExecutor {
    pub fn new(
        storage: Vec<(u64, u64)>,
        max_allowed_tx_gas_limit: u64,
        save_call_traces: bool,
        upload_witness_inputs_to_gcs: bool,
        optional_bytecode_compression: bool,
    ) -> (e: MainBatchExecutor)
        ensures
            e.storage@ == storage@,
            e.max_allowed_tx_gas_limit == max_allowed_tx_gas_limit,
            e.save_call_traces == save_call_traces,
            e.upload_witness_inputs_to_gcs == upload_witness_inputs_to_gcs,
            e.optional_bytecode_compression == optional_bytecode_compression,
    {
        MainBatchExecutor {
            storage,
            save_call_traces,
            max_allowed_tx_gas_limit,
            upload_witness_inputs_to_gcs,
            optional_bytecode_compression,
        }
    }

    /// Prepares one batch: acquires storage access and bundles a fresh
    /// engine with everything its command loop needs. Storage acquisition
    /// honours the external stop signal: when a shutdown was requested, no
    /// storage — and so no handle — is produced, and the batch is simply
    /// never started.
    pub fn init_batch(
        &self,
        l1_batch_params: BatchEnv,
        system_env: SystemEnv,
        stop_requested: bool,
    ) -> (r: Option<BatchExecutorHandle>)
        ensures
            stop_requested <==> r is None,
            r matches Some(h) ==> {
                &&& h.receiver.save_call_traces == self.save_call_traces
                &&& h.receiver.max_allowed_tx_gas_limit == self.max_allowed_tx_gas_limit
                &&& h.receiver.optional_bytecode_compression == self.optional_bytecode_compression
                &&& h.storage@ == self.storage@
                &&& h.l1_batch_params == l1_batch_params
                &&& h.system_env == system_env
                &&& h.upload_witness_inputs_to_gcs == self.upload_witness_inputs_to_gcs
            },
    {
        if stop_requested {
            return None;
        }
        let receiver = CommandReceiver {
            save_call_traces: self.save_call_traces,
            max_allowed_tx_gas_limit: self.max_allowed_tx_gas_limit,
            optional_bytecode_compression: self.optional_bytecode_compression,
        };
        Some(
            BatchExecutorHandle {
                receiver,
                storage: copy_pairs(&self.storage),
                l1_batch_params,
                system_env,
                upload_witness_inputs_to_gcs: self.upload_witness_inputs_to_gcs,
            },
        )
    }
}

} // verus!
