//! What an execution wrote down: storage accesses, events, and the logs that
//! go out to the settlement layer.

use crate::event::{VmEvent, VmEventView};
use crate::primitives::{Address, H256};
use vstd::prelude::*;

verus! {

/// How an execution touched a storage slot.
#[derive(Debug, Clone, Copy, PartialEq, Eq, Structural)]
pub enum StorageLogKind {
    Read,
    InitialWrite,
    RepeatedWrite,
}

/// One access to a storage slot.
#[derive(Debug, Clone, Copy, PartialEq)]
pub struct StorageLog {
    pub kind: StorageLogKind,
    /// Account that owns the slot.
    pub address: Address,
    /// Key of the slot within the account.
    pub key: H256,
    /// Value read or written.
    pub value: H256,
}

/// A storage access, with the value that the slot held before it.
#[derive(Debug, Clone, Copy, PartialEq)]
pub struct StorageLogWithPreviousValue {
    pub log: StorageLog,
    pub previous_value: H256,
}

/// A log that goes out to the settlement layer.
#[derive(Debug, Clone, Copy, PartialEq)]
pub struct L2ToL1Log {
    pub shard_id: u8,
    pub is_service: bool,
    pub tx_number_in_block: u16,
    pub sender: Address,
    pub key: H256,
    pub value: H256,
}

/// An outbound log that a user's transaction caused.
#[derive(Debug, Clone, Copy, PartialEq)]
pub struct UserL2ToL1Log(pub L2ToL1Log);

/// An outbound log that the system itself wrote.
#[derive(Debug, Clone, Copy, PartialEq)]
pub struct SystemL2ToL1Log(pub L2ToL1Log);

/// Events, storage logs and outbound logs created within an execution.
#[derive(Debug, Clone, PartialEq)]
pub struct VmExecutionLogs {
    pub storage_logs: Vec<StorageLogWithPreviousValue>,
    pub events: Vec<VmEvent>,
    /// Outbound logs of users. Where a virtual machine does not tell the two
    /// kinds apart, all its outbound logs are here.
    pub user_l2_to_l1_logs: Vec<UserL2ToL1Log>,
    pub system_l2_to_l1_logs: Vec<SystemL2ToL1Log>,
    /// Number of log queries, kept beside the one in the statistics.
    pub total_log_queries_count: usize,
}

/// The logs of an execution as a mathematical value.
pub struct VmExecutionLogsView {
    pub storage_logs: Seq<StorageLogWithPreviousValue>,
    pub events: Seq<VmEventView>,
    pub user_l2_to_l1_logs: Seq<UserL2ToL1Log>,
    pub system_l2_to_l1_logs: Seq<SystemL2ToL1Log>,
    pub total_log_queries_count: usize,
}

impl View for VmExecutionLogs {
    type V = VmExecutionLogsView;

    open spec fn view(&self) -> VmExecutionLogsView {
        VmExecutionLogsView {
            storage_logs: self.storage_logs@,
            events: self.events.deep_view(),
            user_l2_to_l1_logs: self.user_l2_to_l1_logs@,
            system_l2_to_l1_logs: self.system_l2_to_l1_logs@,
            total_log_queries_count: self.total_log_queries_count,
        }
    }
}

impl VmExecutionLogsView {
    /// The logs of an execution that wrote nothing down.
    pub open spec fn empty() -> VmExecutionLogsView {
        VmExecutionLogsView {
            storage_logs: Seq::empty(),
            events: Seq::empty(),
            user_l2_to_l1_logs: Seq::empty(),
            system_l2_to_l1_logs: Seq::empty(),
            total_log_queries_count: 0,
        }
    }

    /// Number of outbound logs of both kinds.
    pub open spec fn total_l2_to_l1_logs_count(self) -> nat {
        self.user_l2_to_l1_logs.len() + self.system_l2_to_l1_logs.len()
    }
}

impl Default for VmExecutionLogs {
    fn default() -> (r: Self)
        ensures
            r@ == VmExecutionLogsView::empty(),
    {
        let r = VmExecutionLogs {
            storage_logs: Vec::new(),
            events: Vec::new(),
            user_l2_to_l1_logs: Vec::new(),
            system_l2_to_l1_logs: Vec::new(),
            total_log_queries_count: 0,
        };
        assert(r.events.deep_view() =~= Seq::empty());
        r
    }
}

impl VmExecutionLogs {
    /// Number of outbound logs of both kinds. The number has to fit the
    /// machine's word.
    pub fn total_l2_to_l1_logs_count(&self) -> (r: usize)
        requires
            self@.total_l2_to_l1_logs_count() <= usize::MAX,
        ensures
            r == self@.total_l2_to_l1_logs_count(),
    {
        self.user_l2_to_l1_logs.len() + self.system_l2_to_l1_logs.len()
    }
}

} // verus!
