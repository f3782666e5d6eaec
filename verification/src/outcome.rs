//! How an execution ended, and what it gave back to the user.

use vstd::prelude::*;

verus! {

/// Why a contract reverted.
#[derive(Debug, Clone, PartialEq)]
pub enum VmRevertReason {
    /// The contract reverted with a message.
    General { msg: String, data: Vec<u8> },
    /// The transaction itself failed inside the bootloader.
    InnerTxError,
    /// The virtual machine failed.
    VmError,
    /// The contract reverted with data of an unknown shape.
    Unknown { function_selector: Vec<u8>, data: Vec<u8> },
}

/// Why the virtual machine stopped an execution before it could end.
#[derive(Debug, Clone, PartialEq)]
pub enum Halt {
    /// Account validation failed.
    ValidationFailed(VmRevertReason),
    /// Paymaster validation failed.
    PaymasterValidationFailed(VmRevertReason),
    /// The preparation before the paymaster's call failed.
    PrePaymasterPreparationFailed(VmRevertReason),
    /// The account could not pay for the transaction.
    PayForTxFailed(VmRevertReason),
    /// The fee could not be charged.
    FailedToChargeFee(VmRevertReason),
    /// The sender is not an account.
    FromIsNotAnAccount,
    /// The transaction itself failed inside the bootloader.
    InnerTxError,
    /// A failure of an unknown kind.
    Unknown(VmRevertReason),
    /// The bootloader ran out of gas.
    BootloaderOutOfGas,
    /// Validation ran out of gas.
    ValidationOutOfGas,
    /// The gas limit of the transaction is too big.
    TooBigGasLimit,
    /// The transaction did not provide enough gas.
    NotEnoughGasProvided,
    /// The virtual machine panicked.
    VMPanic,
    /// A tracer stopped the execution, with its reason.
    TracerCustom(String),
}

/// Outcome of an execution: exactly one of the three.
#[allow(inconsistent_fields)]
#[derive(Debug, Clone, PartialEq)]
pub enum ExecutionResult {
    /// Returned successfully.
    Success { output: Vec<u8> },
    /// Reverted by contract.
    Revert { output: VmRevertReason },
    /// Stopped by the virtual machine.
    Halt { reason: Halt },
}

impl ExecutionResult {
    /// Returns `true` if the execution failed: it reverted or halted.
    pub fn is_failed(&self) -> (r: bool)
        ensures
            r == !(self is Success),
            r == (self is Revert || self is Halt),
    {
        match self {
            ExecutionResult::Success { .. } => false,
            ExecutionResult::Revert { .. } => true,
            ExecutionResult::Halt { .. } => true,
        }
    }
}

/// Whether a transaction succeeded, as reported downstream.
#[derive(Debug, Clone, Copy, PartialEq, Eq, Structural)]
pub enum TxExecutionStatus {
    Success,
    Failure,
}

impl TxExecutionStatus {
    /// The status of an execution that has failed or has not.
    pub fn from_has_failed(has_failed: bool) -> (r: Self)
        ensures
            r == if has_failed {
                TxExecutionStatus::Failure
            } else {
                TxExecutionStatus::Success
            },
    {
        if has_failed {
            Self::Failure
        } else {
            Self::Success
        }
    }
}

/// Refunds produced for the user.
#[derive(Debug, Clone, Copy, PartialEq, Eq, Structural)]
pub struct Refunds {
    pub gas_refunded: u64,
    pub operator_suggested_refund: u64,
}

impl Default for Refunds {
    fn default() -> (r: Self)
        ensures
            r == (Refunds { gas_refunded: 0, operator_suggested_refund: 0 }),
    {
        Refunds { gas_refunded: 0, operator_suggested_refund: 0 }
    }
}

} // verus!
