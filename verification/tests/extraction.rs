use vm_interface::{Address, L1BatchNumber, VmEvent, H256};
use zksync_basic_types::ethabi;
use zksync_system_constants::{KNOWN_CODES_STORAGE_ADDRESS, L1_MESSENGER_ADDRESS};

fn hash(fill: u8) -> H256 {
    H256([fill; 32])
}

fn event(address: Address, topics: Vec<H256>, value: Vec<u8>) -> VmEvent {
    VmEvent {
        location: (L1BatchNumber(1), 0),
        address,
        indexed_topics: topics,
        value,
    }
}

fn messenger() -> Address {
    Address(L1_MESSENGER_ADDRESS.0)
}

fn known_codes() -> Address {
    Address(KNOWN_CODES_STORAGE_ADDRESS.0)
}

fn message_event(message: &[u8]) -> VmEvent {
    event(
        messenger(),
        vec![H256(VmEvent::L1_MESSAGE_EVENT_SIGNATURE), hash(1), hash(2)],
        ethabi::encode(&[ethabi::Token::Bytes(message.to_vec())]),
    )
}

fn marking_event(bytecode: H256, publish: bool) -> VmEvent {
    let mut flag = [0u8; 32];
    if publish {
        flag[31] = 1;
    }
    event(
        known_codes(),
        vec![H256(VmEvent::PUBLISHED_BYTECODE_SIGNATURE), bytecode, H256(flag)],
        vec![],
    )
}

#[test]
fn system_addresses_are_those_of_the_protocol() {
    let mut expected = [0u8; 20];
    expected[18] = 0x80;
    expected[19] = 0x08;
    assert_eq!(messenger(), Address(expected));
    expected[19] = 0x04;
    assert_eq!(known_codes(), Address(expected));
}

#[test]
fn long_message_is_extracted() {
    let events = vec![message_event(b"hello")];
    assert_eq!(
        VmEvent::extract_long_l2_to_l1_messages(&events),
        vec![b"hello".to_vec()]
    );
    assert_eq!(
        VmEvent::try_extract_long_l2_to_l1_messages(&events),
        Some(vec![b"hello".to_vec()])
    );
}

#[test]
fn long_messages_keep_the_order_of_the_events() {
    let events = vec![
        message_event(b"first"),
        marking_event(hash(9), true),
        message_event(b""),
        message_event(&[7u8; 100]),
        message_event(b"first"),
    ];
    assert_eq!(
        VmEvent::extract_long_l2_to_l1_messages(&events),
        vec![b"first".to_vec(), vec![], vec![7u8; 100], b"first".to_vec()]
    );
}

#[test]
fn long_message_from_another_address_is_skipped() {
    let mut other = message_event(b"hello");
    other.address = known_codes();
    let mut nearly = message_event(b"hello");
    nearly.address.0[0] = 1;
    let events = vec![other, nearly];
    assert!(VmEvent::extract_long_l2_to_l1_messages(&events).is_empty());
}

#[test]
fn long_message_with_wrong_topic_count_is_skipped() {
    let mut two = message_event(b"hello");
    two.indexed_topics.pop();
    let mut four = message_event(b"hello");
    four.indexed_topics.push(hash(3));
    let mut none = message_event(b"hello");
    none.indexed_topics.clear();
    let events = vec![two, four, none];
    assert!(VmEvent::extract_long_l2_to_l1_messages(&events).is_empty());
}

#[test]
fn long_message_with_wrong_signature_is_skipped() {
    let mut wrong = message_event(b"hello");
    wrong.indexed_topics[0] = H256(VmEvent::PUBLISHED_BYTECODE_SIGNATURE);
    let mut nearly = message_event(b"hello");
    nearly.indexed_topics[0].0[31] ^= 1;
    let mut moved = message_event(b"hello");
    moved.indexed_topics.swap(0, 1);
    let events = vec![wrong, nearly, moved];
    assert!(VmEvent::extract_long_l2_to_l1_messages(&events).is_empty());
}

#[test]
fn skipped_events_need_no_well_formed_payload() {
    let mut other = message_event(b"hello");
    other.address = known_codes();
    other.value = vec![1, 2, 3];
    let events = vec![other, message_event(b"kept")];
    assert!(VmEvent::has_well_formed_long_messages(&events));
    assert_eq!(
        VmEvent::try_extract_long_l2_to_l1_messages(&events),
        Some(vec![b"kept".to_vec()])
    );
}

#[test]
fn malformed_long_message_is_reported() {
    let mut bad = message_event(b"hello");
    bad.value.truncate(40);
    let events = vec![message_event(b"fine"), bad];
    assert!(!VmEvent::has_well_formed_long_messages(&events));
    assert_eq!(VmEvent::try_extract_long_l2_to_l1_messages(&events), None);
}

#[test]
fn no_events_no_messages() {
    assert!(VmEvent::has_well_formed_long_messages(&[]));
    assert!(VmEvent::extract_long_l2_to_l1_messages(&[]).is_empty());
    assert!(VmEvent::extract_published_bytecodes(&[]).is_empty());
    assert!(VmEvent::extract_bytecodes_marked_as_known(&[]).is_empty());
    assert!(!VmEvent::contains_contract_deployment(&[]));
    assert_eq!(VmEvent::next_bytecode_marked_as_known(&[], 0), None);
}

#[test]
fn published_bytecode_needs_a_nonzero_third_topic() {
    let events = vec![marking_event(hash(5), true)];
    assert_eq!(VmEvent::extract_published_bytecodes(&events), vec![hash(5)]);
    let events = vec![marking_event(hash(5), false)];
    assert!(VmEvent::extract_published_bytecodes(&events).is_empty());
}

#[test]
fn any_nonzero_third_topic_asks_for_publication() {
    let mut event = marking_event(hash(5), false);
    event.indexed_topics[2].0[0] = 0x80;
    assert_eq!(VmEvent::extract_published_bytecodes(&[event]), vec![hash(5)]);
}

#[test]
fn marked_as_known_does_not_look_at_the_third_topic() {
    let events = vec![marking_event(hash(5), true), marking_event(hash(6), false)];
    assert_eq!(
        VmEvent::extract_bytecodes_marked_as_known(&events),
        vec![hash(5), hash(6)]
    );
    assert_eq!(VmEvent::extract_published_bytecodes(&events), vec![hash(5)]);
}

#[test]
fn published_bytecodes_keep_order_and_duplicates() {
    let events = vec![
        marking_event(hash(3), true),
        message_event(b"between"),
        marking_event(hash(1), true),
        marking_event(hash(3), true),
        marking_event(hash(2), false),
    ];
    assert_eq!(
        VmEvent::extract_published_bytecodes(&events),
        vec![hash(3), hash(1), hash(3)]
    );
    assert_eq!(
        VmEvent::extract_bytecodes_marked_as_known(&events),
        vec![hash(3), hash(1), hash(3), hash(2)]
    );
}

#[test]
fn marking_from_another_contract_is_skipped() {
    let mut other = marking_event(hash(5), true);
    other.address = messenger();
    let mut short = marking_event(hash(5), true);
    short.indexed_topics.pop();
    let mut wrong = marking_event(hash(5), true);
    wrong.indexed_topics[0] = H256(VmEvent::L1_MESSAGE_EVENT_SIGNATURE);
    let events = vec![other, short, wrong];
    assert!(VmEvent::extract_published_bytecodes(&events).is_empty());
    assert!(VmEvent::extract_bytecodes_marked_as_known(&events).is_empty());
}

#[test]
fn bytecodes_marked_as_known_can_be_walked_one_by_one() {
    let events = vec![
        message_event(b"skip"),
        marking_event(hash(3), true),
        marking_event(hash(4), false),
        message_event(b"skip"),
        marking_event(hash(3), true),
    ];
    let mut walked = Vec::new();
    let mut start = 0;
    while let Some((index, bytecode)) = VmEvent::next_bytecode_marked_as_known(&events, start) {
        walked.push((index, bytecode));
        start = index + 1;
    }
    assert_eq!(walked, vec![(1, hash(3)), (2, hash(4)), (4, hash(3))]);
    let hashes: Vec<H256> = walked.iter().map(|(_, h)| *h).collect();
    assert_eq!(hashes, VmEvent::extract_bytecodes_marked_as_known(&events));
    // The walk can be begun anew, and from anywhere.
    assert_eq!(
        VmEvent::next_bytecode_marked_as_known(&events, 0),
        Some((1, hash(3)))
    );
    assert_eq!(
        VmEvent::next_bytecode_marked_as_known(&events, 3),
        Some((4, hash(3)))
    );
    assert_eq!(VmEvent::next_bytecode_marked_as_known(&events, 5), None);
    assert_eq!(VmEvent::next_bytecode_marked_as_known(&events, 77), None);
}

#[test]
fn deployment_is_found_by_its_first_topic_alone() {
    let deployed = event(
        Address([0x11; 20]),
        vec![H256(VmEvent::DEPLOY_EVENT_SIGNATURE)],
        vec![],
    );
    assert!(VmEvent::contains_contract_deployment(&[deployed.clone()]));
    let with_more = event(
        messenger(),
        vec![
            H256(VmEvent::DEPLOY_EVENT_SIGNATURE),
            hash(1),
            hash(2),
            hash(3),
        ],
        vec![1],
    );
    assert!(VmEvent::contains_contract_deployment(&[
        message_event(b"x"),
        with_more
    ]));
}

#[test]
fn deployment_signature_elsewhere_does_not_count() {
    let second = event(
        Address([0x11; 20]),
        vec![hash(1), H256(VmEvent::DEPLOY_EVENT_SIGNATURE)],
        vec![],
    );
    let no_topics = event(
        Address([0x11; 20]),
        vec![],
        VmEvent::DEPLOY_EVENT_SIGNATURE.to_vec(),
    );
    let events = vec![second, no_topics, message_event(b"x"), marking_event(hash(1), true)];
    assert!(!VmEvent::contains_contract_deployment(&events));
}

#[test]
fn default_event_is_empty() {
    let event = VmEvent::default();
    assert_eq!(event.location, (L1BatchNumber(0), 0));
    assert_eq!(event.address, Address([0; 20]));
    assert!(event.indexed_topics.is_empty());
    assert!(event.value.is_empty());
    assert_eq!(event.clone(), event);
}
