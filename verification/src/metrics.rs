//! The result of an execution with its logs, and the metrics derived from it:
//! how many bytes its long messages and published bytecodes take, and how
//! many logs, events and bytecode markings it produced.

use crate::abi;
use crate::bytecode;
use crate::event::{
    bytecodes_marked_as_known, lemma_extraction_of_one_more_event, long_l2_to_l1_messages,
    long_messages_well_formed, published_bytecodes, VmEvent, VmEventView,
};
use crate::logs::{VmExecutionLogs, VmExecutionLogsView};
use crate::outcome::{ExecutionResult, Refunds};
use crate::primitives::H256;
use crate::system;
use std::collections::HashMap;
use vstd::prelude::*;

verus! {

/// How much of each circuit an execution used. The library hands the figures
/// on as it got them: each is kept as the 32 bits of a single-precision number.
#[derive(Debug, Clone, Copy, PartialEq, Eq, Structural)]
pub struct CircuitStatistic {
    pub main_vm: u32,
    pub ram_permutation: u32,
    pub storage_application: u32,
    pub storage_sorter: u32,
    pub code_decommitter: u32,
    pub code_decommitter_sorter: u32,
    pub log_demuxer: u32,
    pub events_sorter: u32,
    pub keccak256: u32,
    pub ecrecover: u32,
    pub sha256: u32,
    pub secp256k1_verify: u32,
    pub transient_storage: u32,
}

impl Default for CircuitStatistic {
    fn default() -> (r: Self)
        ensures
            r == CircuitStatistic::spec_zero(),
    {
        CircuitStatistic {
            main_vm: 0,
            ram_permutation: 0,
            storage_application: 0,
            storage_sorter: 0,
            code_decommitter: 0,
            code_decommitter_sorter: 0,
            log_demuxer: 0,
            events_sorter: 0,
            keccak256: 0,
            ecrecover: 0,
            sha256: 0,
            secp256k1_verify: 0,
            transient_storage: 0,
        }
    }
}

impl CircuitStatistic {
    /// The statistic of an execution that used no circuit.
    pub open spec fn spec_zero() -> CircuitStatistic {
        CircuitStatistic {
            main_vm: 0,
            ram_permutation: 0,
            storage_application: 0,
            storage_sorter: 0,
            code_decommitter: 0,
            code_decommitter_sorter: 0,
            log_demuxer: 0,
            events_sorter: 0,
            keccak256: 0,
            ecrecover: 0,
            sha256: 0,
            secp256k1_verify: 0,
            transient_storage: 0,
        }
    }
}

/// Counters that the virtual machine kept during an execution.
#[derive(Debug, Clone, Copy, PartialEq, Eq, Structural)]
pub struct VmExecutionStatistics {
    /// Number of contracts used by the execution.
    pub contracts_used: usize,
    /// Cycles used by the execution.
    pub cycles_used: u32,
    /// Gas used by the execution, refunds not counted.
    pub gas_used: u64,
    /// Gas used for computation.
    pub computational_gas_used: u32,
    /// Number of log queries.
    pub total_log_queries: usize,
    /// Bytes of pubdata published.
    pub pubdata_published: u32,
    pub circuit_statistic: CircuitStatistic,
}

impl VmExecutionStatistics {
    /// The counters of an execution that did nothing.
    pub open spec fn spec_zero() -> VmExecutionStatistics {
        VmExecutionStatistics {
            contracts_used: 0,
            cycles_used: 0,
            gas_used: 0,
            computational_gas_used: 0,
            total_log_queries: 0,
            pubdata_published: 0,
            circuit_statistic: CircuitStatistic::spec_zero(),
        }
    }
}

impl Default for VmExecutionStatistics {
    fn default() -> (r: Self)
        ensures
            r == VmExecutionStatistics::spec_zero(),
    {
        VmExecutionStatistics {
            contracts_used: 0,
            cycles_used: 0,
            gas_used: 0,
            computational_gas_used: 0,
            total_log_queries: 0,
            pubdata_published: 0,
            circuit_statistic: CircuitStatistic::default(),
        }
    }
}

/// Metrics of an execution, as fee accounting and reporting take them.
#[derive(Debug, Clone, Copy, PartialEq, Eq, Structural)]
pub struct VmExecutionMetrics {
    pub gas_used: usize,
    pub published_bytecode_bytes: usize,
    pub l2_l1_long_messages: usize,
    pub l2_to_l1_logs: usize,
    pub user_l2_to_l1_logs: usize,
    pub contracts_used: usize,
    pub contract_deployment_count: usize,
    pub vm_events: usize,
    pub storage_logs: usize,
    pub total_log_queries: usize,
    pub cycles_used: u32,
    pub computational_gas_used: u32,
    pub pubdata_published: u32,
    pub circuit_statistic: CircuitStatistic,
}

/// The sum of the numbers in `s`.
pub open spec fn sum(s: Seq<nat>) -> nat
    decreases s.len(),
{
    if s.len() == 0 {
        0
    } else {
        sum(s.drop_last()) + s.last()
    }
}

/// The bytes that `messages` take when each is published as an encoded byte
/// array.
pub open spec fn long_messages_bytes(messages: Seq<Seq<u8>>) -> nat {
    sum(messages.map_values(|m: Seq<u8>| abi::encoded_len(m.len())))
}

/// Whether each of `hashes` carries a known marker, so that it tells the
/// length of its bytecode.
pub open spec fn bytecode_hashes_valid(hashes: Seq<H256>) -> bool {
    forall|i: int| 0 <= i < hashes.len() ==> bytecode::len_in_bytes(#[trigger] hashes[i]) is Some
}

/// The bytes charged for publishing the bytecode that `hash` stands for: its
/// length and the fixed overhead.
pub open spec fn published_bytecode_cost(hash: H256) -> nat {
    bytecode::len_in_bytes(hash).unwrap() + system::PUBLISH_OVERHEAD as nat
}

/// The bytes charged for publishing the bytecodes that `hashes` stand for,
/// each as often as it occurs.
pub open spec fn published_bytecode_bytes(hashes: Seq<H256>) -> nat {
    sum(hashes.map_values(|h: H256| published_bytecode_cost(h)))
}

/// The sum of a sequence with one more number is the sum of the sequence and
/// that number.
pub proof fn lemma_sum_push(s: Seq<nat>, x: nat)
    ensures
        sum(s.push(x)) == sum(s) + x,
{
    assert(s.push(x).drop_last() =~= s);
}

/// The sum of the first `n` numbers of a sequence is at most the sum of all.
pub proof fn lemma_sum_of_prefix(s: Seq<nat>, n: int)
    requires
        0 <= n <= s.len(),
    ensures
        sum(s.take(n)) <= sum(s),
    decreases s.len() - n,
{
    if n == s.len() {
        assert(s.take(n) =~= s);
    } else {
        assert(s.take(n + 1) =~= s.take(n).push(s[n]));
        lemma_sum_push(s.take(n), s[n]);
        lemma_sum_of_prefix(s, n + 1);
    }
}

/// A single long message of length `len` takes `len` rounded up to a multiple
/// of 32, and 64 more bytes.
pub proof fn lemma_single_long_message_bytes(message: Seq<u8>)
    ensures
        long_messages_bytes(seq![message]) == (message.len() + 31) / 32 * 32 + 64,
{
    let costs = seq![message].map_values(|m: Seq<u8>| abi::encoded_len(m.len()));
    assert(costs =~= Seq::<nat>::empty().push(abi::encoded_len(message.len())));
    lemma_sum_push(Seq::empty(), abi::encoded_len(message.len()));
}

/// Where the events of a result are a single announcement of a message of
/// length `len`, the result's metrics count `len` rounded up to a multiple of
/// 32, and 64 more bytes, for long messages.
pub proof fn lemma_metrics_of_single_long_message(
    result: VmExecutionResultAndLogs,
    message: Seq<u8>,
)
    requires
        result.logs@.events.len() == 1,
        result.logs@.events[0].is_long_message(),
        abi::decoded_bytes(result.logs@.events[0].value) == Some(message),
        (message.len() + 31) / 32 * 32 + 64 <= usize::MAX,
    ensures
        result.execution_metrics().l2_l1_long_messages == (message.len() + 31) / 32 * 32 + 64,
{
    let events = result.logs@.events;
    assert(events =~= Seq::<VmEventView>::empty().push(events[0]));
    lemma_extraction_of_one_more_event(Seq::empty(), events[0]);
    assert(long_l2_to_l1_messages(events) =~= seq![message]);
    lemma_single_long_message_bytes(message);
}

/// The bytes that a byte array of length `len` takes when encoded; `None` if
/// that number does not fit the machine's word.
fn checked_encoded_len(len: usize) -> (r: Option<usize>)
    ensures
        match r {
            Some(n) => n == abi::encoded_len(len as nat),
            None => abi::encoded_len(len as nat) > usize::MAX,
        },
{
    let rounded = match len.checked_add(31) {
        Some(x) => x / 32 * 32,
        None => {
            return None;
        },
    };
    rounded.checked_add(64)
}

/// The bytes that `messages` take when published; `None` if that number does
/// not fit the machine's word.
fn checked_long_messages_bytes(messages: &Vec<Vec<u8>>) -> (r: Option<usize>)
    ensures
        match r {
            Some(n) => n == long_messages_bytes(messages.deep_view()),
            None => long_messages_bytes(messages.deep_view()) > usize::MAX,
        },
{
    let ghost costs = messages.deep_view().map_values(|m: Seq<u8>| abi::encoded_len(m.len()));
    let mut total: usize = 0;
    let mut i: usize = 0;
    while i < messages.len()
        invariant
            i <= messages.len(),
            costs == messages.deep_view().map_values(|m: Seq<u8>| abi::encoded_len(m.len())),
            total == sum(costs.take(i as int)),
        decreases messages.len() - i,
    {
        let cost = checked_encoded_len(messages[i].len());
        proof {
            assert(costs.take(i + 1) =~= costs.take(i as int).push(costs[i as int]));
            lemma_sum_push(costs.take(i as int), costs[i as int]);
            lemma_sum_of_prefix(costs, i + 1);
            assert(messages.deep_view()[i as int].len() == messages@[i as int].len());
        }
        let next = match cost {
            Some(c) => total.checked_add(c),
            None => None,
        };
        match next {
            Some(n) => {
                total = n;
            },
            None => {
                return None;
            },
        }
        i += 1;
    }
    assert(costs.take(i as int) =~= costs);
    Some(total)
}

/// The bytes charged for publishing `hashes`; `None` if one of them carries
/// no known marker, or if that number does not fit the machine's word.
fn checked_published_bytecode_bytes(hashes: &Vec<H256>) -> (r: Option<usize>)
    ensures
        match r {
            Some(n) => bytecode_hashes_valid(hashes@) && n == published_bytecode_bytes(hashes@),
            None => !bytecode_hashes_valid(hashes@) || published_bytecode_bytes(hashes@)
                > usize::MAX,
        },
{
    let overhead = system::publish_bytecode_overhead();
    let ghost costs = hashes@.map_values(|h: H256| published_bytecode_cost(h));
    let mut total: usize = 0;
    let mut i: usize = 0;
    while i < hashes.len()
        invariant
            i <= hashes.len(),
            overhead == system::PUBLISH_OVERHEAD,
            costs == hashes@.map_values(|h: H256| published_bytecode_cost(h)),
            bytecode_hashes_valid(hashes@.take(i as int)),
            total == sum(costs.take(i as int)),
        decreases hashes.len() - i,
    {
        proof {
            assert(costs.take(i + 1) =~= costs.take(i as int).push(costs[i as int]));
            lemma_sum_push(costs.take(i as int), costs[i as int]);
            lemma_sum_of_prefix(costs, i + 1);
        }
        let len = match bytecode::bytecode_len_in_bytes(&hashes[i]) {
            Some(len) => len,
            None => {
                return None;
            },
        };
        let next = match len.checked_add(overhead) {
            Some(cost) => total.checked_add(cost),
            None => None,
        };
        match next {
            Some(n) => {
                total = n;
            },
            None => {
                return None;
            },
        }
        assert(hashes@.take(i + 1) =~= hashes@.take(i as int).push(hashes@[i as int]));
        i += 1;
    }
    assert(costs.take(i as int) =~= costs);
    assert(hashes@.take(i as int) =~= hashes@);
    Some(total)
}

/// Result and logs of an execution.
#[derive(Debug, Clone)]
pub struct VmExecutionResultAndLogs {
    pub result: ExecutionResult,
    pub logs: VmExecutionLogs,
    pub statistics: VmExecutionStatistics,
    pub refunds: Refunds,
    /// Bytecodes that the execution made known and that were neither in the
    /// storage when it began nor among the dependencies of its transactions,
    /// by their hashes.
    pub dynamic_factory_deps: HashMap<H256, Vec<u8>>,
}

impl VmExecutionResultAndLogs {
    /// Whether the metrics of this result can be computed: the long messages
    /// are well formed, the hashes of the published bytecodes carry known
    /// markers, and the byte counts and the number of outbound logs fit the
    /// machine's word.
    pub open spec fn metrics_computable(&self) -> bool {
        let events = self.logs@.events;
        &&& long_messages_well_formed(events)
        &&& long_messages_bytes(long_l2_to_l1_messages(events)) <= usize::MAX
        &&& bytecode_hashes_valid(published_bytecodes(events))
        &&& published_bytecode_bytes(published_bytecodes(events)) <= usize::MAX
        &&& self.logs@.total_l2_to_l1_logs_count() <= usize::MAX
    }

    /// The metrics of this result.
    pub open spec fn execution_metrics(&self) -> VmExecutionMetrics {
        let logs = self.logs@;
        VmExecutionMetrics {
            gas_used: self.statistics.gas_used as usize,
            published_bytecode_bytes: published_bytecode_bytes(published_bytecodes(logs.events))
                as usize,
            l2_l1_long_messages: long_messages_bytes(long_l2_to_l1_messages(logs.events))
                as usize,
            l2_to_l1_logs: logs.total_l2_to_l1_logs_count() as usize,
            user_l2_to_l1_logs: logs.user_l2_to_l1_logs.len() as usize,
            contracts_used: self.statistics.contracts_used,
            contract_deployment_count: bytecodes_marked_as_known(logs.events).len() as usize,
            vm_events: logs.events.len() as usize,
            storage_logs: logs.storage_logs.len() as usize,
            total_log_queries: self.statistics.total_log_queries,
            cycles_used: self.statistics.cycles_used,
            computational_gas_used: self.statistics.computational_gas_used,
            pubdata_published: self.statistics.pubdata_published,
            circuit_statistic: self.statistics.circuit_statistic,
        }
    }

    /// Creates a full result around `result`: no logs, all counters and
    /// refunds zero, no bytecodes.
    pub fn mock(result: ExecutionResult) -> (r: Self)
        ensures
            r.result == result,
            r.logs@ == VmExecutionLogsView::empty(),
            r.statistics == VmExecutionStatistics::spec_zero(),
            r.refunds == (Refunds { gas_refunded: 0, operator_suggested_refund: 0 }),
            r.dynamic_factory_deps@ == Map::<H256, Vec<u8>>::empty(),
    {
        Self {
            result,
            logs: VmExecutionLogs::default(),
            statistics: VmExecutionStatistics::default(),
            refunds: Refunds::default(),
            dynamic_factory_deps: HashMap::new(),
        }
    }

    /// Creates a full result of a successful execution with no output.
    pub fn mock_success() -> (r: Self)
        ensures
            r.result matches ExecutionResult::Success { output } && output@ == Seq::<u8>::empty(),
            r.logs@ == VmExecutionLogsView::empty(),
            r.statistics == VmExecutionStatistics::spec_zero(),
            r.refunds == (Refunds { gas_refunded: 0, operator_suggested_refund: 0 }),
            r.dynamic_factory_deps@ == Map::<H256, Vec<u8>>::empty(),
    {
        Self::mock(ExecutionResult::Success { output: Vec::new() })
    }

    /// Tells whether the metrics of this result can be computed.
    pub fn can_compute_metrics(&self) -> (r: bool)
        ensures
            r == self.metrics_computable(),
    {
        if !VmEvent::has_well_formed_long_messages(self.logs.events.as_slice()) {
            return false;
        }
        let messages = VmEvent::extract_long_l2_to_l1_messages(self.logs.events.as_slice());
        if checked_long_messages_bytes(&messages).is_none() {
            return false;
        }
        let hashes = VmEvent::extract_published_bytecodes(self.logs.events.as_slice());
        if checked_published_bytecode_bytes(&hashes).is_none() {
            return false;
        }
        self.logs.user_l2_to_l1_logs.len().checked_add(
            self.logs.system_l2_to_l1_logs.len(),
        ).is_some()
    }

    /// Computes the metrics of this result.
    ///
    /// The messenger and the known-codes storage emit only what is well
    /// formed, so the events have to be: see [`Self::metrics_computable`].
    pub fn get_execution_metrics(&self) -> (r: VmExecutionMetrics)
        requires
            self.metrics_computable(),
        ensures
            r == self.execution_metrics(),
    {
        let events = self.logs.events.as_slice();
        // A long message is published as an encoded byte array: its length
        // rounded up to a multiple of 32, a word for the offset and a word
        // for the length.
        let messages = VmEvent::extract_long_l2_to_l1_messages(events);
        let l2_l1_long_messages = checked_long_messages_bytes(&messages).unwrap();

        let hashes = VmEvent::extract_published_bytecodes(events);
        let published_bytecode_bytes = checked_published_bytecode_bytes(&hashes).unwrap();

        // Counts every bytecode marked as known, whether it is to be
        // published or not.
        let contract_deployment_count = VmEvent::extract_bytecodes_marked_as_known(events).len();

        VmExecutionMetrics {
            gas_used: #[verifier::truncate]
            (self.statistics.gas_used as usize),
            published_bytecode_bytes,
            l2_l1_long_messages,
            l2_to_l1_logs: self.logs.total_l2_to_l1_logs_count(),
            user_l2_to_l1_logs: self.logs.user_l2_to_l1_logs.len(),
            contracts_used: self.statistics.contracts_used,
            vm_events: self.logs.events.len(),
            storage_logs: self.logs.storage_logs.len(),
            total_log_queries: self.statistics.total_log_queries,
            cycles_used: self.statistics.cycles_used,
            computational_gas_used: self.statistics.computational_gas_used,
            pubdata_published: self.statistics.pubdata_published,
            circuit_statistic: self.statistics.circuit_statistic,
            contract_deployment_count,
        }
    }

    /// Computes the metrics of this result; `None` if they cannot be
    /// computed.
    pub fn try_get_execution_metrics(&self) -> (r: Option<VmExecutionMetrics>)
        ensures
            r == if self.metrics_computable() {
                Some(self.execution_metrics())
            } else {
                None
            },
    {
        if self.can_compute_metrics() {
            Some(self.get_execution_metrics())
        } else {
            None
        }
    }
}

} // verus!
