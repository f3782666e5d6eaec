//! Verified model of what a virtual machine hands back after executing a
//! transaction: the outcome, the logs, the messages and bytecodes recovered
//! from the event log, the metrics derived from them, and the call trace.
//!
//! Every executable function carries a contract over mathematical values
//! (sequences of bytes, views of the records), and is proved to meet it. What
//! is taken on trust is named where it stands: the decoder of `ethabi`, the
//! bytecode hash of `zksync_basic_types`, and the constants of
//! `zksync_system_constants`.

pub mod abi;
pub mod bytecode;
pub mod call;
pub mod event;
pub mod logs;
pub mod metrics;
pub mod outcome;
pub mod primitives;
pub mod system;
pub mod transaction;

pub use crate::call::{
    far_call_type_from_u8, far_call_type_to_u8, Call, CallType, FarCallOpcode,
    InvalidFarCallOpcode,
};
pub use crate::event::VmEvent;
pub use crate::logs::{
    L2ToL1Log, StorageLog, StorageLogKind, StorageLogWithPreviousValue, SystemL2ToL1Log,
    UserL2ToL1Log, VmExecutionLogs,
};
pub use crate::metrics::{
    CircuitStatistic, VmExecutionMetrics, VmExecutionResultAndLogs, VmExecutionStatistics,
};
pub use crate::outcome::{ExecutionResult, Halt, Refunds, TxExecutionStatus, VmRevertReason};
pub use crate::primitives::{Address, L1BatchNumber, H256, U256};
pub use crate::transaction::{
    BatchTransactionExecutionResult, BytecodeCompressionError, Execute,
    OneshotTransactionExecutionResult, Transaction, TransactionExecutionResult,
};
