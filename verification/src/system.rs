//! The protocol's fixed inputs: the addresses of the system contracts whose
//! events are read, and the overhead charged for publishing a bytecode.
//!
//! The values live in `zksync_system_constants`. Each function here reads one
//! of them, and states the value it has there.

use crate::primitives::Address;
use vstd::prelude::*;

verus! {

/// Number of the bootloader, the entry point of every transaction.
pub const BOOTLOADER: u16 = 0x8001;

/// Number of the contract that keeps the hashes of the known bytecodes.
pub const KNOWN_CODES_STORAGE: u16 = 0x8004;

/// Number of the contract that sends messages to the settlement layer.
pub const L1_MESSENGER: u16 = 0x8008;

/// Bytes charged for each published bytecode on top of its length.
pub const PUBLISH_OVERHEAD: usize = 100;

/// Reads `zksync_system_constants::BOOTLOADER_ADDRESS`.
///
/// Trusted: the constant is the address of system contract `0x8001`.
#[verifier::external_body]
pub(crate) fn bootloader_address() -> (r: Address)
    ensures
        r == Address::system_contract(BOOTLOADER),
{
    Address(zksync_system_constants::BOOTLOADER_ADDRESS.0)
}

/// Reads `zksync_system_constants::KNOWN_CODES_STORAGE_ADDRESS`.
///
/// Trusted: the constant is the address of system contract `0x8004`.
#[verifier::external_body]
pub(crate) fn known_codes_storage_address() -> (r: Address)
    ensures
        r == Address::system_contract(KNOWN_CODES_STORAGE),
{
    Address(zksync_system_constants::KNOWN_CODES_STORAGE_ADDRESS.0)
}

/// Reads `zksync_system_constants::L1_MESSENGER_ADDRESS`.
///
/// Trusted: the constant is the address of system contract `0x8008`.
#[verifier::external_body]
pub(crate) fn l1_messenger_address() -> (r: Address)
    ensures
        r == Address::system_contract(L1_MESSENGER),
{
    Address(zksync_system_constants::L1_MESSENGER_ADDRESS.0)
}

/// Reads `zksync_system_constants::PUBLISH_BYTECODE_OVERHEAD`, widened.
///
/// Trusted: the constant is 100.
#[verifier::external_body]
pub(crate) fn publish_bytecode_overhead() -> (r: usize)
    ensures
        r == PUBLISH_OVERHEAD,
{
    zksync_system_constants::PUBLISH_BYTECODE_OVERHEAD as usize
}

} // verus!
