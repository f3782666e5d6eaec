//! The trace of an execution: a tree of calls, each with the calls it made.
//!
//! Two traces count as equal when they agree on everything but gas. How much
//! gas a call got and used can differ between two replays of one execution;
//! what was called, with which input and to what end, cannot.

use crate::primitives::{Address, U256};
use crate::system;
use vstd::prelude::*;
use vstd::std_specs::cmp::PartialEqSpecImpl;

verus! {

/// Kind of a call from one contract to another.
#[derive(Debug, Clone, Copy, PartialEq, Eq, Structural)]
pub enum FarCallOpcode {
    Normal,
    Delegate,
    Mimic,
}

/// A byte that stands for no kind of far call.
#[derive(Debug, Clone, Copy, PartialEq, Eq, Structural)]
pub struct InvalidFarCallOpcode(pub u8);

impl InvalidFarCallOpcode {
    /// What went wrong, in words.
    pub fn message(&self) -> (r: String)
        ensures
            r@ == "Invalid FarCallOpcode"@,
    {
        String::from_str("Invalid FarCallOpcode")
    }
}

/// The byte that stands for a kind of far call on the wire.
pub open spec fn far_call_byte(opcode: FarCallOpcode) -> u8 {
    match opcode {
        FarCallOpcode::Normal => 0,
        FarCallOpcode::Delegate => 1,
        FarCallOpcode::Mimic => 2,
    }
}

/// The kind of far call that a byte stands for; an error for a byte above 2.
pub open spec fn far_call_of_byte(byte: u8) -> Result<FarCallOpcode, InvalidFarCallOpcode> {
    if byte == 0 {
        Ok(FarCallOpcode::Normal)
    } else if byte == 1 {
        Ok(FarCallOpcode::Delegate)
    } else if byte == 2 {
        Ok(FarCallOpcode::Mimic)
    } else {
        Err(InvalidFarCallOpcode(byte))
    }
}

/// Reads a kind of far call from its byte.
pub fn far_call_type_from_u8(res: u8) -> (r: Result<FarCallOpcode, InvalidFarCallOpcode>)
    ensures
        r == far_call_of_byte(res),
        r is Ok <==> res <= 2,
{
    match res {
        0 => Ok(FarCallOpcode::Normal),
        1 => Ok(FarCallOpcode::Delegate),
        2 => Ok(FarCallOpcode::Mimic),
        _ => Err(InvalidFarCallOpcode(res)),
    }
}

/// Writes a kind of far call as its byte.
pub fn far_call_type_to_u8(far_call_type: &FarCallOpcode) -> (r: u8)
    ensures
        r == far_call_byte(*far_call_type),
{
    match far_call_type {
        FarCallOpcode::Normal => 0,
        FarCallOpcode::Delegate => 1,
        FarCallOpcode::Mimic => 2,
    }
}

/// Reading the byte of a kind of far call gives that kind back, and a byte
/// that reads as some kind is the byte of that kind.
pub proof fn lemma_far_call_byte_round_trip(opcode: FarCallOpcode, byte: u8)
    ensures
        far_call_of_byte(far_call_byte(opcode))
            == Ok::<FarCallOpcode, InvalidFarCallOpcode>(opcode),
        far_call_of_byte(byte) matches Ok(read) ==> far_call_byte(read) == byte,
        far_call_of_byte(byte) is Err <==> byte > 2,
{
}

/// Kind of a call in a trace.
#[derive(Debug, Clone, Copy, PartialEq, Eq, Structural)]
pub enum CallType {
    /// A call from one contract to another.
    Call(FarCallOpcode),
    /// The creation of a contract.
    Create,
    /// A call within one contract.
    NearCall,
}

impl Default for CallType {
    fn default() -> (r: Self)
        ensures
            r == CallType::Call(FarCallOpcode::Normal),
    {
        Self::Call(FarCallOpcode::Normal)
    }
}

/// Represents a call in the trace of an execution.
#[derive(Debug)]
pub struct Call {
    /// Type of the call.
    pub call_type: CallType,
    /// Address of the caller.
    pub from: Address,
    /// Address of the callee.
    pub to: Address,
    /// Gas from the parent call.
    pub parent_gas: u64,
    /// Gas provided for the call.
    pub gas: u64,
    /// Gas used by the call.
    pub gas_used: u64,
    /// Value transferred.
    pub value: U256,
    /// Input data.
    pub input: Vec<u8>,
    /// Output data.
    pub output: Vec<u8>,
    /// Error message of the virtual machine, or some unexpected error.
    pub error: Option<String>,
    /// Revert reason.
    pub revert_reason: Option<String>,
    /// Subcalls.
    pub calls: Vec<Call>,
}

/// A call with the calls below it, as a mathematical value.
pub struct CallView {
    pub call_type: CallType,
    pub from: Address,
    pub to: Address,
    pub parent_gas: u64,
    pub gas: u64,
    pub gas_used: u64,
    pub value: U256,
    pub input: Seq<u8>,
    pub output: Seq<u8>,
    pub error: Option<Seq<char>>,
    pub revert_reason: Option<Seq<char>>,
    pub calls: Seq<CallView>,
}

/// An optional text as a mathematical value.
pub open spec fn text_view(text: Option<String>) -> Option<Seq<char>> {
    match text {
        Some(s) => Some(s@),
        None => None,
    }
}

impl Call {
    /// The call and the calls below it as a mathematical value.
    pub open spec fn model(self) -> CallView
        decreases self,
    {
        CallView {
            call_type: self.call_type,
            from: self.from,
            to: self.to,
            parent_gas: self.parent_gas,
            gas: self.gas,
            gas_used: self.gas_used,
            value: self.value,
            input: self.input@,
            output: self.output@,
            error: text_view(self.error),
            revert_reason: text_view(self.revert_reason),
            calls: Seq::new(
                self.calls@.len(),
                |i: int|
                    if 0 <= i < self.calls@.len() {
                        self.calls@[i].model()
                    } else {
                        arbitrary()
                    },
            ),
        }
    }
}

impl View for Call {
    type V = CallView;

    open spec fn view(&self) -> CallView {
        self.model()
    }
}

impl DeepView for Call {
    type V = CallView;

    open spec fn deep_view(&self) -> CallView {
        self.model()
    }
}

impl CallView {
    /// The call that stands for a whole transaction: a normal far call from
    /// the zero address to the bootloader, given all of `gas` by its parent,
    /// with no output and no error, above `calls`.
    pub open spec fn high_level(
        gas: u64,
        gas_used: u64,
        value: U256,
        input: Seq<u8>,
        revert_reason: Option<Seq<char>>,
        calls: Seq<CallView>,
    ) -> CallView {
        CallView {
            call_type: CallType::Call(FarCallOpcode::Normal),
            from: Address::zero(),
            to: Address::system_contract(system::BOOTLOADER),
            parent_gas: gas,
            gas,
            gas_used,
            value,
            input,
            output: Seq::empty(),
            error: None,
            revert_reason,
            calls,
        }
    }

    /// The call that `Call::default()` makes: a normal far call between zero
    /// addresses that carries nothing.
    pub open spec fn empty() -> CallView {
        CallView {
            call_type: CallType::Call(FarCallOpcode::Normal),
            from: Address::zero(),
            to: Address::zero(),
            parent_gas: 0,
            gas: 0,
            gas_used: 0,
            value: U256::spec_from_u64(0),
            input: Seq::empty(),
            output: Seq::empty(),
            error: None,
            revert_reason: None,
            calls: Seq::empty(),
        }
    }

    /// Whether two calls agree on everything but gas: on the revert reason,
    /// the input, the caller, the callee, the type, the value, the error and
    /// the output, and, one by one and in the same way, on their subcalls.
    pub open spec fn same_trace(self, other: CallView) -> bool
        decreases self,
    {
        &&& self.revert_reason == other.revert_reason
        &&& self.input == other.input
        &&& self.from == other.from
        &&& self.to == other.to
        &&& self.call_type == other.call_type
        &&& self.value == other.value
        &&& self.error == other.error
        &&& self.output == other.output
        &&& self.calls.len() == other.calls.len()
        &&& forall|i: int|
            0 <= i < self.calls.len() ==> (#[trigger] self.calls[i]).same_trace(other.calls[i])
    }

    /// The call with every gas figure, its own and those of the calls below
    /// it, set to zero.
    pub open spec fn without_gas(self) -> CallView
        decreases self,
    {
        CallView {
            parent_gas: 0,
            gas: 0,
            gas_used: 0,
            calls: Seq::new(
                self.calls.len(),
                |i: int|
                    if 0 <= i < self.calls.len() {
                        self.calls[i].without_gas()
                    } else {
                        arbitrary()
                    },
            ),
            ..self
        }
    }
}

/// Two calls make the same trace exactly when nothing but gas tells them
/// apart: with all gas figures set to zero they are the same value.
pub proof fn lemma_same_trace_is_equality_without_gas(a: CallView, b: CallView)
    ensures
        a.same_trace(b) <==> a.without_gas() == b.without_gas(),
    decreases a,
{
    if a.same_trace(b) {
        assert forall|i: int| 0 <= i < a.calls.len() implies
            a.without_gas().calls[i] == b.without_gas().calls[i] by {
            lemma_same_trace_is_equality_without_gas(a.calls[i], b.calls[i]);
        }
        assert(a.without_gas().calls =~= b.without_gas().calls);
    }
    if a.without_gas() == b.without_gas() {
        assert(a.without_gas().calls.len() == b.without_gas().calls.len());
        assert forall|i: int| 0 <= i < a.calls.len() implies
            (#[trigger] a.calls[i]).same_trace(b.calls[i]) by {
            assert(a.without_gas().calls[i] == b.without_gas().calls[i]);
            lemma_same_trace_is_equality_without_gas(a.calls[i], b.calls[i]);
        }
    }
}

/// Making the same trace is an equivalence: every call makes the same trace
/// as itself, the order of the two calls does not matter, and two calls that
/// make the same trace as a third make the same trace.
pub proof fn lemma_same_trace_is_equivalence(a: CallView, b: CallView, c: CallView)
    ensures
        a.same_trace(a),
        a.same_trace(b) == b.same_trace(a),
        a.same_trace(b) && b.same_trace(c) ==> a.same_trace(c),
{
    lemma_same_trace_is_equality_without_gas(a, a);
    lemma_same_trace_is_equality_without_gas(a, b);
    lemma_same_trace_is_equality_without_gas(b, a);
    lemma_same_trace_is_equality_without_gas(b, c);
    lemma_same_trace_is_equality_without_gas(a, c);
}

/// Two calls that differ in nothing but the three gas figures make the same
/// trace.
pub proof fn lemma_gas_does_not_count(a: CallView, parent_gas: u64, gas: u64, gas_used: u64)
    ensures
        a.same_trace(CallView { parent_gas, gas, gas_used, ..a }),
{
    let b = CallView { parent_gas, gas, gas_used, ..a };
    assert forall|i: int| 0 <= i < a.calls.len() implies
        (#[trigger] a.calls[i]).same_trace(b.calls[i]) by {
        lemma_same_trace_is_equivalence(a.calls[i], a.calls[i], a.calls[i]);
    }
}

/// Two calls with different outputs do not make the same trace, whatever
/// else they hold.
pub proof fn lemma_output_counts(a: CallView, b: CallView)
    requires
        a.output != b.output,
    ensures
        !a.same_trace(b),
{
}

/// The calls below count, each as a trace of its own: two calls that agree
/// on their own fields make the same trace exactly when they have equally
/// many subcalls and each subcall makes the same trace as the one in the
/// same place.
pub proof fn lemma_subcalls_count(a: CallView, calls: Seq<CallView>)
    ensures
        a.same_trace(CallView { calls, ..a }) <==> {
            &&& a.calls.len() == calls.len()
            &&& forall|i: int|
                0 <= i < calls.len() ==> (#[trigger] a.calls[i]).same_trace(calls[i])
        },
{
}

/// Tells whether two byte strings hold the same bytes.
fn same_bytes(a: &Vec<u8>, b: &Vec<u8>) -> (r: bool)
    ensures
        r == (a@ == b@),
{
    if a.len() != b.len() {
        return false;
    }
    let mut i: usize = 0;
    while i < a.len()
        invariant
            i <= a.len(),
            a.len() == b.len(),
            forall|j: int| 0 <= j < i ==> a@[j] == b@[j],
        decreases a.len() - i,
    {
        if a[i] != b[i] {
            return false;
        }
        i += 1;
    }
    assert(a@ =~= b@);
    true
}

/// Tells whether two optional texts are both absent or hold the same text.
fn same_text(a: &Option<String>, b: &Option<String>) -> (r: bool)
    ensures
        r == (text_view(*a) == text_view(*b)),
{
    match (a, b) {
        (None, None) => true,
        (Some(x), Some(y)) => *x == *y,
        _ => false,
    }
}

impl Call {
    /// Tells whether two calls agree on everything but gas.
    pub fn same_trace(&self, other: &Call) -> (r: bool)
        ensures
            r == self@.same_trace(other@),
        decreases self,
    {
        let same_fields = same_text(&self.revert_reason, &other.revert_reason)
            && same_bytes(&self.input, &other.input)
            && self.from == other.from
            && self.to == other.to
            && self.call_type == other.call_type
            && self.value == other.value
            && same_text(&self.error, &other.error)
            && same_bytes(&self.output, &other.output);
        if !same_fields || self.calls.len() != other.calls.len() {
            return false;
        }
        let mut i: usize = 0;
        while i < self.calls.len()
            invariant
                i <= self.calls.len(),
                self.calls.len() == other.calls.len(),
                forall|j: int|
                    0 <= j < i ==> (#[trigger] self@.calls[j]).same_trace(other@.calls[j]),
            decreases self.calls.len() - i,
        {
            let same = self.calls[i].same_trace(&other.calls[i]);
            proof {
                assert(self@.calls[i as int] == self.calls@[i as int]@);
                assert(other@.calls[i as int] == other.calls@[i as int]@);
            }
            if !same {
                return false;
            }
            i += 1;
        }
        true
    }

    /// Builds the call that stands for a whole transaction, above the calls
    /// that were traced for it. The bootloader's own call is not traced, so
    /// this gives the trace of a transaction one root.
    pub fn new_high_level(
        gas: u64,
        gas_used: u64,
        value: U256,
        input: Vec<u8>,
        revert_reason: Option<String>,
        calls: Vec<Call>,
    ) -> (r: Call)
        ensures
            r@ == CallView::high_level(
                gas,
                gas_used,
                value,
                input@,
                text_view(revert_reason),
                calls.deep_view(),
            ),
    {
        let r = Call {
            call_type: CallType::Call(FarCallOpcode::Normal),
            from: Address::zero(),
            to: system::bootloader_address(),
            parent_gas: gas,
            gas,
            gas_used,
            value,
            input,
            output: Vec::new(),
            error: None,
            revert_reason,
            calls,
        };
        assert(r@.calls =~= calls.deep_view());
        r
    }

    /// Copies the call with all the calls below it.
    fn duplicate(&self) -> (r: Call)
        ensures
            r@ == self@,
        decreases self,
    {
        let mut calls: Vec<Call> = Vec::new();
        let mut i: usize = 0;
        while i < self.calls.len()
            invariant
                i <= self.calls.len(),
                calls.len() == i,
                forall|j: int| 0 <= j < i ==> (#[trigger] calls@[j])@ == self.calls@[j]@,
            decreases self.calls.len() - i,
        {
            calls.push(self.calls[i].duplicate());
            i += 1;
        }
        let r = Call {
            call_type: self.call_type,
            from: self.from,
            to: self.to,
            parent_gas: self.parent_gas,
            gas: self.gas,
            gas_used: self.gas_used,
            value: self.value,
            input: self.input.clone(),
            output: self.output.clone(),
            error: self.error.clone(),
            revert_reason: self.revert_reason.clone(),
            calls,
        };
        assert(r@.calls =~= self@.calls);
        r
    }
}

impl Default for Call {
    fn default() -> (r: Self)
        ensures
            r@ == CallView::empty(),
    {
        let r = Call {
            call_type: CallType::default(),
            from: Address::zero(),
            to: Address::zero(),
            parent_gas: 0,
            gas: 0,
            gas_used: 0,
            value: U256::zero(),
            input: Vec::new(),
            output: Vec::new(),
            error: None,
            revert_reason: None,
            calls: Vec::new(),
        };
        assert(r@.calls =~= Seq::empty());
        r
    }
}

impl Clone for Call {
    fn clone(&self) -> (r: Self)
        ensures
            r@ == self@,
    {
        self.duplicate()
    }
}

impl PartialEq for Call {
    /// Two calls are equal when they agree on everything but gas.
    fn eq(&self, other: &Self) -> (r: bool) {
        self.same_trace(other)
    }
}

impl PartialEqSpecImpl for Call {
    open spec fn obeys_eq_spec() -> bool {
        true
    }

    open spec fn eq_spec(&self, other: &Self) -> bool {
        self@.same_trace(other@)
    }
}

} // verus!
