use vm_interface::{
    Address, CircuitStatistic, ExecutionResult, L1BatchNumber, L2ToL1Log, Refunds, StorageLog,
    StorageLogKind, StorageLogWithPreviousValue, SystemL2ToL1Log, UserL2ToL1Log, VmEvent,
    VmExecutionLogs, VmExecutionMetrics, VmExecutionResultAndLogs, VmExecutionStatistics, H256,
};
use zksync_basic_types::bytecode::BytecodeHash;
use zksync_basic_types::ethabi;
use zksync_system_constants::{
    KNOWN_CODES_STORAGE_ADDRESS, L1_MESSENGER_ADDRESS, PUBLISH_BYTECODE_OVERHEAD,
};

fn long_message(message: &[u8]) -> VmEvent {
    VmEvent {
        location: (L1BatchNumber(0), 0),
        address: Address(L1_MESSENGER_ADDRESS.0),
        indexed_topics: vec![
            H256(VmEvent::L1_MESSAGE_EVENT_SIGNATURE),
            H256([0; 32]),
            H256([0; 32]),
        ],
        value: ethabi::encode(&[ethabi::Token::Bytes(message.to_vec())]),
    }
}

fn marking(bytecode: H256, publish: bool) -> VmEvent {
    VmEvent {
        location: (L1BatchNumber(0), 0),
        address: Address(KNOWN_CODES_STORAGE_ADDRESS.0),
        indexed_topics: vec![
            H256(VmEvent::PUBLISHED_BYTECODE_SIGNATURE),
            bytecode,
            H256([publish as u8; 32]),
        ],
        value: vec![],
    }
}

fn bytecode_hash(marker: u8, raw_len: u16) -> H256 {
    let mut bytes = [0xabu8; 32];
    bytes[0] = marker;
    bytes[1] = 0;
    bytes[2..4].copy_from_slice(&raw_len.to_be_bytes());
    H256(bytes)
}

fn with_events(events: Vec<VmEvent>) -> VmExecutionResultAndLogs {
    let mut result = VmExecutionResultAndLogs::mock_success();
    result.logs.events = events;
    result
}

fn log() -> L2ToL1Log {
    L2ToL1Log {
        shard_id: 0,
        is_service: false,
        tx_number_in_block: 0,
        sender: Address([1; 20]),
        key: H256([2; 32]),
        value: H256([3; 32]),
    }
}

fn storage_log() -> StorageLogWithPreviousValue {
    StorageLogWithPreviousValue {
        log: StorageLog {
            kind: StorageLogKind::InitialWrite,
            address: Address([1; 20]),
            key: H256([2; 32]),
            value: H256([3; 32]),
        },
        previous_value: H256([0; 32]),
    }
}

#[test]
fn long_message_of_one_byte_takes_96() {
    let result = with_events(vec![long_message(&[1])]);
    assert_eq!(result.get_execution_metrics().l2_l1_long_messages, 96);
}

#[test]
fn long_message_of_32_bytes_takes_96() {
    let result = with_events(vec![long_message(&[1; 32])]);
    assert_eq!(result.get_execution_metrics().l2_l1_long_messages, 96);
}

#[test]
fn long_message_of_33_bytes_takes_128() {
    let result = with_events(vec![long_message(&[1; 33])]);
    assert_eq!(result.get_execution_metrics().l2_l1_long_messages, 128);
}

#[test]
fn empty_long_message_takes_64() {
    let result = with_events(vec![long_message(&[])]);
    assert_eq!(result.get_execution_metrics().l2_l1_long_messages, 64);
}

#[test]
fn long_message_bytes_follow_the_formula() {
    for len in [0usize, 1, 2, 31, 32, 33, 63, 64, 65, 255, 1024, 4097] {
        let result = with_events(vec![long_message(&vec![0x5a; len])]);
        assert_eq!(
            result.get_execution_metrics().l2_l1_long_messages,
            ((len + 31) / 32) * 32 + 64
        );
    }
}

#[test]
fn long_message_bytes_add_up() {
    let result = with_events(vec![
        long_message(&[1]),
        marking(bytecode_hash(1, 1), true),
        long_message(&[1; 33]),
        long_message(&[]),
    ]);
    assert_eq!(
        result.get_execution_metrics().l2_l1_long_messages,
        96 + 128 + 64
    );
}

#[test]
fn published_bytecode_takes_its_length_and_the_overhead() {
    // Native bytecode: the length is counted in words of 32 bytes.
    let result = with_events(vec![marking(bytecode_hash(1, 3), true)]);
    assert_eq!(
        result.get_execution_metrics().published_bytecode_bytes,
        3 * 32 + 100
    );
    // Emulated bytecode: the length is counted in bytes.
    let result = with_events(vec![marking(bytecode_hash(2, 3), true)]);
    assert_eq!(result.get_execution_metrics().published_bytecode_bytes, 3 + 100);
}

#[test]
fn published_bytecode_length_is_big_endian() {
    let result = with_events(vec![marking(bytecode_hash(1, 0x0102), true)]);
    assert_eq!(
        result.get_execution_metrics().published_bytecode_bytes,
        0x0102 * 32 + 100
    );
    let result = with_events(vec![marking(bytecode_hash(2, 0xffff), true)]);
    assert_eq!(
        result.get_execution_metrics().published_bytecode_bytes,
        0xffff + 100
    );
    let result = with_events(vec![marking(bytecode_hash(1, 0xffff), true)]);
    assert_eq!(
        result.get_execution_metrics().published_bytecode_bytes,
        0xffff * 32 + 100
    );
}

#[test]
fn published_bytecode_bytes_agree_with_the_hash_of_a_bytecode() {
    let native = BytecodeHash::for_bytecode(&[0; 96]);
    let emulated = BytecodeHash::for_raw_evm_bytecode(&[1; 40]);
    let result = with_events(vec![
        marking(H256(native.value().0), true),
        marking(H256(emulated.value().0), true),
    ]);
    let overhead = PUBLISH_BYTECODE_OVERHEAD as usize;
    assert_eq!(overhead, 100);
    assert_eq!(
        result.get_execution_metrics().published_bytecode_bytes,
        native.len_in_bytes() + overhead + emulated.len_in_bytes() + overhead
    );
    assert_eq!(
        result.get_execution_metrics().published_bytecode_bytes,
        96 + 100 + 40 + 100
    );
}

#[test]
fn published_bytecode_bytes_count_duplicates_and_skip_unpublished() {
    let result = with_events(vec![
        marking(bytecode_hash(1, 1), true),
        marking(bytecode_hash(1, 5), false),
        marking(bytecode_hash(1, 1), true),
    ]);
    let metrics = result.get_execution_metrics();
    assert_eq!(metrics.published_bytecode_bytes, 2 * (32 + 100));
    assert_eq!(metrics.contract_deployment_count, 3);
}

#[test]
fn unpublished_bytecode_needs_no_valid_hash() {
    let result = with_events(vec![marking(bytecode_hash(9, 1), false)]);
    assert!(result.can_compute_metrics());
    let metrics = result.get_execution_metrics();
    assert_eq!(metrics.published_bytecode_bytes, 0);
    assert_eq!(metrics.contract_deployment_count, 1);
}

#[test]
fn unknown_bytecode_marker_is_reported() {
    for marker in [0u8, 3, 0xff] {
        let result = with_events(vec![
            marking(bytecode_hash(1, 1), true),
            marking(bytecode_hash(marker, 1), true),
        ]);
        assert!(!result.can_compute_metrics());
        assert_eq!(result.try_get_execution_metrics(), None);
    }
}

#[test]
fn malformed_long_message_makes_metrics_incomputable() {
    let mut bad = long_message(&[1, 2, 3]);
    bad.value.pop();
    bad.value.truncate(64);
    let result = with_events(vec![bad]);
    assert!(!result.can_compute_metrics());
    assert_eq!(result.try_get_execution_metrics(), None);
}

#[test]
fn deployment_count_counts_markings_not_deployments() {
    let deployed = VmEvent {
        location: (L1BatchNumber(0), 0),
        address: Address([0x80; 20]),
        indexed_topics: vec![H256(VmEvent::DEPLOY_EVENT_SIGNATURE)],
        value: vec![],
    };
    let result = with_events(vec![deployed.clone(), deployed]);
    let metrics = result.get_execution_metrics();
    assert_eq!(metrics.contract_deployment_count, 0);
    assert_eq!(metrics.vm_events, 2);
}

#[test]
fn counters_pass_through() {
    let statistics = VmExecutionStatistics {
        contracts_used: 11,
        cycles_used: 12,
        gas_used: 13,
        computational_gas_used: 14,
        total_log_queries: 15,
        pubdata_published: 16,
        circuit_statistic: CircuitStatistic {
            main_vm: 1,
            keccak256: 0x3f80_0000,
            ..CircuitStatistic::default()
        },
    };
    let result = VmExecutionResultAndLogs {
        result: ExecutionResult::Success { output: vec![1] },
        logs: VmExecutionLogs {
            storage_logs: vec![storage_log(); 4],
            events: vec![long_message(&[1]), marking(bytecode_hash(2, 7), true)],
            user_l2_to_l1_logs: vec![UserL2ToL1Log(log()); 2],
            system_l2_to_l1_logs: vec![SystemL2ToL1Log(log()); 3],
            total_log_queries_count: 99,
        },
        statistics,
        refunds: Refunds {
            gas_refunded: 5,
            operator_suggested_refund: 6,
        },
        dynamic_factory_deps: Default::default(),
    };
    let expected = VmExecutionMetrics {
        gas_used: 13,
        published_bytecode_bytes: 107,
        l2_l1_long_messages: 96,
        l2_to_l1_logs: 5,
        user_l2_to_l1_logs: 2,
        contracts_used: 11,
        contract_deployment_count: 1,
        vm_events: 2,
        storage_logs: 4,
        total_log_queries: 15,
        cycles_used: 12,
        computational_gas_used: 14,
        pubdata_published: 16,
        circuit_statistic: statistics.circuit_statistic,
    };
    assert!(result.can_compute_metrics());
    assert_eq!(result.get_execution_metrics(), expected);
    assert_eq!(result.try_get_execution_metrics(), Some(expected));
}

#[test]
fn metrics_of_a_mock_are_zero() {
    let metrics = VmExecutionResultAndLogs::mock_success().get_execution_metrics();
    assert_eq!(
        metrics,
        VmExecutionMetrics {
            gas_used: 0,
            published_bytecode_bytes: 0,
            l2_l1_long_messages: 0,
            l2_to_l1_logs: 0,
            user_l2_to_l1_logs: 0,
            contracts_used: 0,
            contract_deployment_count: 0,
            vm_events: 0,
            storage_logs: 0,
            total_log_queries: 0,
            cycles_used: 0,
            computational_gas_used: 0,
            pubdata_published: 0,
            circuit_statistic: CircuitStatistic::default(),
        }
    );
}

#[test]
fn total_outbound_logs_are_counted() {
    let logs = VmExecutionLogs {
        user_l2_to_l1_logs: vec![UserL2ToL1Log(log()); 3],
        system_l2_to_l1_logs: vec![SystemL2ToL1Log(log()); 4],
        ..VmExecutionLogs::default()
    };
    assert_eq!(logs.total_l2_to_l1_logs_count(), 7);
    assert_eq!(VmExecutionLogs::default().total_l2_to_l1_logs_count(), 0);
}

#[test]
fn default_logs_are_empty() {
    let logs = VmExecutionLogs::default();
    assert!(logs.storage_logs.is_empty());
    assert!(logs.events.is_empty());
    assert!(logs.user_l2_to_l1_logs.is_empty());
    assert!(logs.system_l2_to_l1_logs.is_empty());
    assert_eq!(logs.total_log_queries_count, 0);
}

#[test]
fn default_refunds_are_zero() {
    let refunds = Refunds::default();
    assert_eq!(refunds.gas_refunded, 0);
    assert_eq!(refunds.operator_suggested_refund, 0);
}

#[test]
fn default_statistics_are_zero() {
    let statistics = VmExecutionStatistics::default();
    assert_eq!(statistics.contracts_used, 0);
    assert_eq!(statistics.cycles_used, 0);
    assert_eq!(statistics.gas_used, 0);
    assert_eq!(statistics.computational_gas_used, 0);
    assert_eq!(statistics.total_log_queries, 0);
    assert_eq!(statistics.pubdata_published, 0);
    assert_eq!(statistics.circuit_statistic.main_vm, 0);
    assert_eq!(statistics.circuit_statistic.transient_storage, 0);
}

#[test]
fn mock_wraps_the_result_in_empty_records() {
    let result = VmExecutionResultAndLogs::mock(ExecutionResult::Success {
        output: vec![1, 2, 3],
    });
    assert_eq!(
        result.result,
        ExecutionResult::Success {
            output: vec![1, 2, 3]
        }
    );
    assert_eq!(result.logs, VmExecutionLogs::default());
    assert_eq!(result.statistics, VmExecutionStatistics::default());
    assert_eq!(result.refunds, Refunds::default());
    assert!(result.dynamic_factory_deps.is_empty());
}

#[test]
fn mock_success_has_no_output() {
    let result = VmExecutionResultAndLogs::mock_success();
    assert_eq!(result.result, ExecutionResult::Success { output: vec![] });
    assert!(!result.result.is_failed());
    assert!(result.dynamic_factory_deps.is_empty());
}

#[test]
fn published_bytecode_bytes_agree_with_the_bytecode_hash_for_every_marker() {
    for marker in 0..=255u8 {
        for raw_len in [0u16, 1, 2, 255, 256, 257, 0x1234, 0xffff] {
            for second in [0u8, 1, 0xff] {
                let mut hash = bytecode_hash(marker, raw_len);
                hash.0[1] = second;
                let result = with_events(vec![marking(hash, true)]);
                match BytecodeHash::try_from(zksync_basic_types::H256(hash.0)) {
                    Ok(parsed) => {
                        assert!(result.can_compute_metrics());
                        assert_eq!(
                            result.get_execution_metrics().published_bytecode_bytes,
                            parsed.len_in_bytes() + PUBLISH_BYTECODE_OVERHEAD as usize
                        );
                    }
                    Err(_) => {
                        assert!(!result.can_compute_metrics());
                        assert_eq!(result.try_get_execution_metrics(), None);
                    }
                }
            }
        }
    }
}
