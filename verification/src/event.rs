//! Events of the virtual machine, and what the system contracts say through
//! them: long messages for the settlement layer, bytecodes marked as known,
//! bytecodes to publish, and contract deployments.

use crate::abi;
use crate::primitives::{bytes_eq, Address, L1BatchNumber, H256};
use crate::system;
use vstd::prelude::*;

verus! {

/// Event generated by the virtual machine.
#[derive(Debug, PartialEq)]
pub struct VmEvent {
    /// Batch in which the event was emitted, and the transaction's index in it.
    pub location: (L1BatchNumber, u32),
    /// Contract that emitted the event.
    pub address: Address,
    /// Indexed topics, in the order of the protocol: where there is a first
    /// topic, it is the signature of the event.
    pub indexed_topics: Vec<H256>,
    /// Payload of the event.
    pub value: Vec<u8>,
}

/// An event as a mathematical value.
pub struct VmEventView {
    pub location: (L1BatchNumber, u32),
    pub address: Address,
    pub indexed_topics: Seq<H256>,
    pub value: Seq<u8>,
}

impl View for VmEvent {
    type V = VmEventView;

    open spec fn view(&self) -> VmEventView {
        VmEventView {
            location: self.location,
            address: self.address,
            indexed_topics: self.indexed_topics@,
            value: self.value@,
        }
    }
}

impl DeepView for VmEvent {
    type V = VmEventView;

    open spec fn deep_view(&self) -> VmEventView {
        self@
    }
}

impl Clone for VmEvent {
    fn clone(&self) -> (r: Self)
        ensures
            r@ == self@,
    {
        VmEvent {
            location: (self.location.0, self.location.1),
            address: self.address,
            indexed_topics: self.indexed_topics.clone(),
            value: self.value.clone(),
        }
    }
}

impl Default for VmEvent {
    fn default() -> (r: Self)
        ensures
            r@ == (VmEventView {
                location: (L1BatchNumber(0), 0),
                address: Address::zero(),
                indexed_topics: Seq::empty(),
                value: Seq::empty(),
            }),
    {
        VmEvent {
            location: (L1BatchNumber(0), 0),
            address: Address::zero(),
            indexed_topics: Vec::new(),
            value: Vec::new(),
        }
    }
}

impl VmEventView {
    /// Whether the event comes from `address`, has exactly three topics, and
    /// carries `signature` as the first of them.
    pub open spec fn is_kind(self, address: Address, signature: H256) -> bool {
        &&& self.address == address
        &&& self.indexed_topics.len() == 3
        &&& self.indexed_topics[0] == signature
    }

    /// Whether the messenger contract announces a long message with this event.
    pub open spec fn is_long_message(self) -> bool {
        self.is_kind(
            Address::system_contract(system::L1_MESSENGER),
            H256(VmEvent::L1_MESSAGE_EVENT_SIGNATURE),
        )
    }

    /// Whether the known-codes storage marks a bytecode as known with this
    /// event.
    pub open spec fn is_marked_as_known(self) -> bool {
        self.is_kind(
            Address::system_contract(system::KNOWN_CODES_STORAGE),
            H256(VmEvent::PUBLISHED_BYTECODE_SIGNATURE),
        )
    }

    /// Whether this event marks a bytecode as known and asks to publish it:
    /// the third topic is not zero.
    pub open spec fn is_published_bytecode(self) -> bool {
        self.is_marked_as_known() && self.indexed_topics[2] != H256::zero()
    }

    /// Whether the first topic of the event, if it has one, is the signature
    /// of a contract deployment. Neither the emitter nor the number of topics
    /// is looked at.
    pub open spec fn is_contract_deployment(self) -> bool {
        &&& self.indexed_topics.len() > 0
        &&& self.indexed_topics[0] == H256(VmEvent::DEPLOY_EVENT_SIGNATURE)
    }

    /// The long message that the event carries, if it announces one.
    pub open spec fn long_message(self) -> Option<Seq<u8>> {
        if self.is_long_message() {
            Some(abi::decoded_bytes(self.value).unwrap())
        } else {
            None
        }
    }

    /// The bytecode hash that the event asks to publish, if it asks so.
    pub open spec fn published_bytecode(self) -> Option<H256> {
        if self.is_published_bytecode() {
            Some(self.indexed_topics[1])
        } else {
            None
        }
    }

    /// The bytecode hash that the event marks as known, if it marks one.
    pub open spec fn bytecode_marked_as_known(self) -> Option<H256> {
        if self.is_marked_as_known() {
            Some(self.indexed_topics[1])
        } else {
            None
        }
    }
}

/// Whether the payload of every event that announces a long message encodes a
/// byte array.
pub open spec fn long_messages_well_formed(events: Seq<VmEventView>) -> bool {
    forall|i: int|
        0 <= i < events.len() && (#[trigger] events[i]).is_long_message()
            ==> abi::decoded_bytes(events[i].value) is Some
}

/// The long messages that `events` announce, in the order of the events.
pub open spec fn long_l2_to_l1_messages(events: Seq<VmEventView>) -> Seq<Seq<u8>> {
    events.filter_map(|e: VmEventView| e.long_message())
}

/// The bytecode hashes that `events` ask to publish, in the order of the
/// events, each as often as it is asked for.
pub open spec fn published_bytecodes(events: Seq<VmEventView>) -> Seq<H256> {
    events.filter_map(|e: VmEventView| e.published_bytecode())
}

/// The bytecode hashes that `events` mark as known, in the order of the
/// events, each as often as it is marked.
pub open spec fn bytecodes_marked_as_known(events: Seq<VmEventView>) -> Seq<H256> {
    events.filter_map(|e: VmEventView| e.bytecode_marked_as_known())
}

/// The bytecode hashes that the first `n` of `events` mark as known.
pub open spec fn marked_as_known_before(events: Seq<VmEventView>, n: int) -> Seq<H256> {
    bytecodes_marked_as_known(events.take(n))
}

/// Whether none of the events at the indices from `from` up to, but not
/// including, `to` marks a bytecode as known.
pub open spec fn none_marked_as_known(events: Seq<VmEventView>, from: int, to: int) -> bool {
    forall|j: int|
        from <= j < to && 0 <= j < events.len() ==> !(#[trigger] events[j]).is_marked_as_known()
}

/// Whether some event among `events` is a contract deployment.
pub open spec fn has_contract_deployment(events: Seq<VmEventView>) -> bool {
    exists|i: int| 0 <= i < events.len() && (#[trigger] events[i]).is_contract_deployment()
}

/// The sequence of the one value that there is, or of none.
pub open spec fn one_or_none<T>(value: Option<T>) -> Seq<T> {
    match value {
        Some(v) => seq![v],
        None => Seq::empty(),
    }
}

/// What one more event adds: its long message, if it announces one, comes
/// after those of the events before it, and so do the bytecode hash it asks
/// to publish and the one it marks as known.
pub proof fn lemma_extraction_of_one_more_event(events: Seq<VmEventView>, event: VmEventView)
    ensures
        long_l2_to_l1_messages(Seq::empty()) == Seq::<Seq<u8>>::empty(),
        published_bytecodes(Seq::empty()) == Seq::<H256>::empty(),
        bytecodes_marked_as_known(Seq::empty()) == Seq::<H256>::empty(),
        long_l2_to_l1_messages(events.push(event)) == long_l2_to_l1_messages(events)
            + one_or_none(event.long_message()),
        published_bytecodes(events.push(event)) == published_bytecodes(events)
            + one_or_none(event.published_bytecode()),
        bytecodes_marked_as_known(events.push(event)) == bytecodes_marked_as_known(events)
            + one_or_none(event.bytecode_marked_as_known()),
{
    let all = events.push(event);
    let n = events.len() as int;
    assert(all.take(n + 1) =~= all);
    assert(all.take(n) =~= events);
    all.lemma_filter_map_take_succ(|e: VmEventView| e.long_message(), n);
    all.lemma_filter_map_take_succ(|e: VmEventView| e.published_bytecode(), n);
    all.lemma_filter_map_take_succ(|e: VmEventView| e.bytecode_marked_as_known(), n);
}

/// Events that mark no bytecode as known add nothing to the bytecodes marked
/// as known: if none of the events from index `from` up to `to` marks one,
/// the first `to` events mark the same bytecodes as the first `from`.
pub proof fn lemma_unmarking_events_add_nothing(events: Seq<VmEventView>, from: int, to: int)
    requires
        0 <= from <= to <= events.len(),
        none_marked_as_known(events, from, to),
    ensures
        marked_as_known_before(events, to) == marked_as_known_before(events, from),
    decreases to - from,
{
    if from < to {
        lemma_unmarking_events_add_nothing(events, from, to - 1);
        assert(!events[to - 1].is_marked_as_known());
        events.lemma_filter_map_take_succ(|e: VmEventView| e.bytecode_marked_as_known(), to - 1);
    }
}

/// An event whose payload is the encoding of `message` yields exactly
/// `message` if it comes from the messenger with three topics of which the
/// first is the signature of a sent message, and nothing otherwise.
pub proof fn lemma_long_message_of_encoding(event: VmEventView, message: Seq<u8>)
    requires
        message.len() < 0x1_0000_0000,
        event.value == abi::encoded_bytes(message),
    ensures
        long_messages_well_formed(seq![event]),
        long_l2_to_l1_messages(seq![event]) == if {
            &&& event.address == Address::system_contract(system::L1_MESSENGER)
            &&& event.indexed_topics.len() == 3
            &&& event.indexed_topics[0] == H256(VmEvent::L1_MESSAGE_EVENT_SIGNATURE)
        } {
            seq![message]
        } else {
            Seq::empty()
        },
{
    abi::lemma_decode_encoded(message);
    lemma_extraction_of_one_more_event(Seq::empty(), event);
    assert(Seq::<VmEventView>::empty().push(event) =~= seq![event]);
}

/// An event with which the known-codes storage marks a bytecode as known
/// contributes its second topic to the bytecodes marked as known, and to the
/// bytecodes to publish if its third topic is not zero; with a zero third
/// topic it contributes nothing to the latter.
pub proof fn lemma_bytecodes_of_marking_event(event: VmEventView)
    requires
        event.is_marked_as_known(),
    ensures
        bytecodes_marked_as_known(seq![event]) == seq![event.indexed_topics[1]],
        published_bytecodes(seq![event]) == if event.indexed_topics[2] == H256::zero() {
            Seq::empty()
        } else {
            seq![event.indexed_topics[1]]
        },
{
    lemma_extraction_of_one_more_event(Seq::empty(), event);
    assert(Seq::<VmEventView>::empty().push(event) =~= seq![event]);
}

impl VmEvent {
    /// Long signature of the contract deployment event (`ContractDeployed`).
    pub const DEPLOY_EVENT_SIGNATURE: [u8; 32] = [
        41, 10, 253, 174, 35, 26, 63, 192, 187, 174, 139, 26, 246, 54, 152, 176, 161, 215, 155, 33,
        173, 23, 223, 3, 66, 223, 185, 82, 254, 116, 248, 229,
    ];

    /// Long signature of the messenger's bytecode publication event
    /// (`BytecodeL1PublicationRequested`).
    pub const L1_MESSENGER_BYTECODE_PUBLICATION_EVENT_SIGNATURE: [u8; 32] = [
        72, 13, 60, 159, 114, 123, 94, 92, 18, 3, 212, 198, 31, 177, 133, 211, 127, 8, 230, 178,
        220, 94, 155, 191, 152, 89, 27, 26, 122, 221, 245, 124,
    ];

    /// Long signature of the known-codes storage's event for a bytecode
    /// marked as known (`MarkedAsKnown`).
    pub const PUBLISHED_BYTECODE_SIGNATURE: [u8; 32] = [
        201, 71, 34, 255, 19, 234, 207, 83, 84, 124, 71, 65, 218, 181, 34, 131, 83, 160, 89, 56,
        255, 205, 213, 212, 162, 213, 51, 174, 14, 97, 130, 135,
    ];

    /// Long signature of the messenger's event for a long message
    /// (`L1MessageSent`).
    pub const L1_MESSAGE_EVENT_SIGNATURE: [u8; 32] = [
        58, 54, 228, 114, 145, 244, 32, 31, 175, 19, 127, 171, 8, 29, 146, 41, 91, 206, 45, 83,
        190, 44, 108, 166, 139, 168, 44, 127, 170, 156, 226, 65,
    ];

    /// Whether the event comes from `address`, has exactly three topics, and
    /// carries `signature` as the first of them.
    fn is_kind(&self, address: &Address, signature: &[u8; 32]) -> (r: bool)
        ensures
            r == self@.is_kind(*address, H256(*signature)),
    {
        self.address == *address
            && self.indexed_topics.len() == 3
            && bytes_eq(&self.indexed_topics[0].0, signature)
    }

    /// Whether the payload of every event that announces a long message
    /// encodes a byte array.
    pub fn has_well_formed_long_messages(events: &[VmEvent]) -> (r: bool)
        ensures
            r == long_messages_well_formed(events.deep_view()),
    {
        let messenger = system::l1_messenger_address();
        let mut i: usize = 0;
        while i < events.len()
            invariant
                i <= events.len(),
                messenger == Address::system_contract(system::L1_MESSENGER),
                long_messages_well_formed(events.deep_view().take(i as int)),
            decreases events.len() - i,
        {
            let event = &events[i];
            assert(event@ == events.deep_view()[i as int]);
            if event.is_kind(&messenger, &Self::L1_MESSAGE_EVENT_SIGNATURE)
                && !abi::is_encoded_bytes(event.value.as_slice()) {
                return false;
            }
            assert(events.deep_view().take(i + 1)
                =~= events.deep_view().take(i as int).push(event@));
            i += 1;
        }
        assert(events.deep_view().take(i as int) =~= events.deep_view());
        true
    }

    /// Extracts all the long messages that the messenger contract announced.
    ///
    /// Each announcing event has to carry an encoded byte array: the
    /// messenger emits nothing else.
    pub fn extract_long_l2_to_l1_messages(events: &[VmEvent]) -> (r: Vec<Vec<u8>>)
        requires
            long_messages_well_formed(events.deep_view()),
        ensures
            r.deep_view() == long_l2_to_l1_messages(events.deep_view()),
    {
        let messenger = system::l1_messenger_address();
        let mut messages: Vec<Vec<u8>> = Vec::new();
        let mut i: usize = 0;
        while i < events.len()
            invariant
                i <= events.len(),
                messenger == Address::system_contract(system::L1_MESSENGER),
                long_messages_well_formed(events.deep_view()),
                messages.deep_view() == long_l2_to_l1_messages(events.deep_view().take(i as int)),
            decreases events.len() - i,
        {
            let event = &events[i];
            let ghost before = messages.deep_view();
            proof {
                assert(event@ == events.deep_view()[i as int]);
                events.deep_view().lemma_filter_map_take_succ(
                    |e: VmEventView| e.long_message(),
                    i as int,
                );
            }
            if event.is_kind(&messenger, &Self::L1_MESSAGE_EVENT_SIGNATURE) {
                let message = abi::decode_token(event.value.as_slice()).unwrap();
                messages.push(message);
                assert(message.deep_view() =~= message@);
                assert(messages.deep_view() =~= before + seq![message@]);
            }
            i += 1;
        }
        assert(events.deep_view().take(i as int) =~= events.deep_view());
        messages
    }

    /// Extracts all the long messages that the messenger contract announced;
    /// `None` if an announcing event carries no encoded byte array.
    pub fn try_extract_long_l2_to_l1_messages(events: &[VmEvent]) -> (r: Option<Vec<Vec<u8>>>)
        ensures
            match r {
                Some(messages) => {
                    &&& long_messages_well_formed(events.deep_view())
                    &&& messages.deep_view() == long_l2_to_l1_messages(events.deep_view())
                },
                None => !long_messages_well_formed(events.deep_view()),
            },
    {
        if Self::has_well_formed_long_messages(events) {
            Some(Self::extract_long_l2_to_l1_messages(events))
        } else {
            None
        }
    }

    /// Extracts the hashes of the bytecodes that were marked as known and
    /// are to be published. A hash comes out once for each event that asks
    /// for it.
    pub fn extract_published_bytecodes(events: &[VmEvent]) -> (r: Vec<H256>)
        ensures
            r@ == published_bytecodes(events.deep_view()),
    {
        let storage = system::known_codes_storage_address();
        let mut hashes: Vec<H256> = Vec::new();
        let mut i: usize = 0;
        while i < events.len()
            invariant
                i <= events.len(),
                storage == Address::system_contract(system::KNOWN_CODES_STORAGE),
                hashes@ == published_bytecodes(events.deep_view().take(i as int)),
            decreases events.len() - i,
        {
            let event = &events[i];
            proof {
                assert(event@ == events.deep_view()[i as int]);
                events.deep_view().lemma_filter_map_take_succ(
                    |e: VmEventView| e.published_bytecode(),
                    i as int,
                );
            }
            if event.is_kind(&storage, &Self::PUBLISHED_BYTECODE_SIGNATURE)
                && !event.indexed_topics[2].is_zero() {
                hashes.push(event.indexed_topics[1]);
            }
            i += 1;
        }
        assert(events.deep_view().take(i as int) =~= events.deep_view());
        hashes
    }

    /// Extracts the hashes of all the bytecodes that were marked as known. A
    /// hash comes out once for each event that marks it.
    pub fn extract_bytecodes_marked_as_known(events: &[VmEvent]) -> (r: Vec<H256>)
        ensures
            r@ == bytecodes_marked_as_known(events.deep_view()),
    {
        let storage = system::known_codes_storage_address();
        let mut hashes: Vec<H256> = Vec::new();
        let mut i: usize = 0;
        while i < events.len()
            invariant
                i <= events.len(),
                storage == Address::system_contract(system::KNOWN_CODES_STORAGE),
                hashes@ == bytecodes_marked_as_known(events.deep_view().take(i as int)),
            decreases events.len() - i,
        {
            let event = &events[i];
            proof {
                assert(event@ == events.deep_view()[i as int]);
                events.deep_view().lemma_filter_map_take_succ(
                    |e: VmEventView| e.bytecode_marked_as_known(),
                    i as int,
                );
            }
            if event.is_kind(&storage, &Self::PUBLISHED_BYTECODE_SIGNATURE) {
                hashes.push(event.indexed_topics[1]);
            }
            i += 1;
        }
        assert(events.deep_view().take(i as int) =~= events.deep_view());
        hashes
    }

    /// Finds the first event from index `start` on that marks a bytecode as
    /// known, and gives its index and the hash it marks; `None` if there is no
    /// such event. Calling this again from behind each index it gives walks
    /// through the bytecodes marked as known one at a time, in their order,
    /// without reading an event before its turn; the walk can be begun anew at
    /// any time.
    pub fn next_bytecode_marked_as_known(
        events: &[VmEvent],
        start: usize,
    ) -> (r: Option<(usize, H256)>)
        ensures
            match r {
                Some((index, hash)) => {
                    &&& start <= index < events.len()
                    &&& events.deep_view()[index as int].bytecode_marked_as_known() == Some(hash)
                    &&& none_marked_as_known(events.deep_view(), start as int, index as int)
                    &&& marked_as_known_before(events.deep_view(), index + 1)
                        == marked_as_known_before(events.deep_view(), start as int).push(hash)
                },
                None => {
                    &&& none_marked_as_known(
                        events.deep_view(),
                        start as int,
                        events.len() as int,
                    )
                    &&& start <= events.len() ==> bytecodes_marked_as_known(events.deep_view())
                        == marked_as_known_before(events.deep_view(), start as int)
                },
            },
    {
        let storage = system::known_codes_storage_address();
        let mut i: usize = start;
        while i < events.len()
            invariant
                start <= i,
                storage == Address::system_contract(system::KNOWN_CODES_STORAGE),
                none_marked_as_known(events.deep_view(), start as int, i as int),
            decreases events.len() - i,
        {
            let event = &events[i];
            assert(event@ == events.deep_view()[i as int]);
            if event.is_kind(&storage, &Self::PUBLISHED_BYTECODE_SIGNATURE) {
                proof {
                    let views = events.deep_view();
                    lemma_unmarking_events_add_nothing(views, start as int, i as int);
                    views.lemma_filter_map_take_succ(
                        |e: VmEventView| e.bytecode_marked_as_known(),
                        i as int,
                    );
                }
                return Some((i, event.indexed_topics[1]));
            }
            i += 1;
        }
        proof {
            if start <= events.len() {
                let views = events.deep_view();
                lemma_unmarking_events_add_nothing(views, start as int, views.len() as int);
                assert(views.take(views.len() as int) =~= views);
            }
        }
        None
    }

    /// Returns `true` if any of the given events is a contract deployment.
    pub fn contains_contract_deployment(events: &[VmEvent]) -> (r: bool)
        ensures
            r == has_contract_deployment(events.deep_view()),
    {
        let mut i: usize = 0;
        while i < events.len()
            invariant
                i <= events.len(),
                forall|j: int|
                    0 <= j < i ==> !(#[trigger] events.deep_view()[j]).is_contract_deployment(),
            decreases events.len() - i,
        {
            let event = &events[i];
            assert(event@ == events.deep_view()[i as int]);
            if event.indexed_topics.len() > 0
                && bytes_eq(&event.indexed_topics[0].0, &Self::DEPLOY_EVENT_SIGNATURE) {
                return true;
            }
            i += 1;
        }
        false
    }
}

} // verus!
