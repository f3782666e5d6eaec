//! What the execution of one transaction leaves behind: the record that a
//! batch executor returns, and the record that is kept and reported.

use crate::call::{text_view, Call, CallView};
use crate::metrics::{VmExecutionMetrics, VmExecutionResultAndLogs};
use crate::outcome::{ExecutionResult, TxExecutionStatus};
use crate::primitives::{H256, U256};
use vstd::prelude::*;

verus! {

/// Why the bytecodes that a transaction uses could not be compressed.
#[derive(Debug, Clone, Copy, PartialEq, Eq, Structural)]
pub enum BytecodeCompressionError {
    BytecodeCompressionFailed,
}

/// Output of one transaction's execution, as a batch executor returns it.
#[derive(Debug)]
pub struct BatchTransactionExecutionResult {
    /// Result of the virtual machine.
    pub tx_result: Box<VmExecutionResultAndLogs>,
    /// Whether the bytecodes used by the transaction were compressed.
    pub compression_result: Result<(), BytecodeCompressionError>,
    /// Call traces, if they were asked for; otherwise, empty.
    pub call_traces: Vec<Call>,
}

impl BatchTransactionExecutionResult {
    /// Whether the virtual machine stopped the execution.
    pub fn was_halted(&self) -> (r: bool)
        ensures
            r == (self.tx_result.result is Halt),
    {
        match self.tx_result.result {
            ExecutionResult::Halt { .. } => true,
            _ => false,
        }
    }
}

/// Output of one transaction's execution, as a oneshot executor returns it.
pub type OneshotTransactionExecutionResult = BatchTransactionExecutionResult;

/// What a transaction asks the virtual machine to do.
#[derive(Debug, Clone, PartialEq)]
pub struct Execute {
    /// Input of the call.
    pub calldata: Vec<u8>,
    /// Value transferred with the call.
    pub value: U256,
}

/// A transaction, as far as its trace depends on it.
#[derive(Debug, Clone, PartialEq)]
pub struct Transaction {
    /// Gas that the transaction may use at most.
    pub gas_limit: U256,
    pub execute: Execute,
}

/// Result of one transaction's execution, as it is kept and reported.
#[derive(Debug, Clone, PartialEq)]
pub struct TransactionExecutionResult {
    pub transaction: Transaction,
    pub hash: H256,
    pub execution_info: VmExecutionMetrics,
    pub execution_status: TxExecutionStatus,
    pub refunded_gas: u64,
    /// Calls that were traced for the transaction, if any were asked for.
    pub call_traces: Vec<Call>,
    pub revert_reason: Option<String>,
}

impl TransactionExecutionResult {
    /// Whether the trace of the transaction can be given a root: nothing was
    /// traced, or the gas limit fits 64 bits and covers the refund.
    pub open spec fn call_trace_defined(&self) -> bool {
        self.call_traces@.len() > 0 ==> {
            &&& self.transaction.gas_limit@ <= u64::MAX
            &&& self.refunded_gas <= self.transaction.gas_limit@
        }
    }

    /// The root of the transaction's trace: the call that stands for the
    /// transaction, with all its gas limit as gas and what was not refunded
    /// as gas used, above the calls that were traced.
    pub open spec fn spec_call_trace(&self) -> CallView {
        CallView::high_level(
            self.transaction.gas_limit@ as u64,
            (self.transaction.gas_limit@ - self.refunded_gas) as u64,
            self.transaction.execute.value,
            self.transaction.execute.calldata@,
            text_view(self.revert_reason),
            self.call_traces.deep_view(),
        )
    }

    /// Tells whether [`Self::call_trace`] may be called.
    pub fn has_call_trace_defined(&self) -> (r: bool)
        ensures
            r == self.call_trace_defined(),
    {
        self.call_traces.len() == 0 || (self.transaction.gas_limit.fits_u64()
            && self.refunded_gas <= self.transaction.gas_limit.as_u64())
    }

    /// The trace of the transaction under one root; no trace where no call
    /// was traced.
    pub fn call_trace(&self) -> (r: Option<Call>)
        requires
            self.call_trace_defined(),
        ensures
            match r {
                Some(root) => self.call_traces@.len() > 0 && root@ == self.spec_call_trace(),
                None => self.call_traces@.len() == 0,
            },
    {
        if self.call_traces.len() == 0 {
            None
        } else {
            let gas_limit = self.transaction.gas_limit.as_u64();
            let calls = self.call_traces.clone();
            assert(calls.deep_view() =~= self.call_traces.deep_view());
            Some(
                Call::new_high_level(
                    gas_limit,
                    gas_limit - self.refunded_gas,
                    self.transaction.execute.value,
                    self.transaction.execute.calldata.clone(),
                    self.revert_reason.clone(),
                    calls,
                ),
            )
        }
    }
}

} // verus!
