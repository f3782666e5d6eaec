//! What a bytecode hash says about the bytecode it stands for.
//!
//! The first byte of such a hash is a marker of the bytecode's kind, and its
//! third and fourth byte hold a length: in 32-byte words for the native kind,
//! in bytes for the emulated kind.

use crate::primitives::H256;
use vstd::prelude::*;
use zksync_basic_types::bytecode::BytecodeHash;

verus! {

/// Marker of a bytecode for the native virtual machine.
pub const ERA_VM_MARKER: u8 = 1;

/// Marker of a bytecode for the emulated virtual machine.
pub const EVM_MARKER: u8 = 2;

/// The 16-bit number that the third and fourth byte of `hash` spell.
pub open spec fn raw_len(hash: H256) -> nat {
    (hash.0[2] * 256 + hash.0[3]) as nat
}

/// The length in bytes of the bytecode that `hash` stands for; `None` where
/// the first byte of `hash` is no known marker.
pub open spec fn len_in_bytes(hash: H256) -> Option<nat> {
    if hash.0[0] == ERA_VM_MARKER {
        Some(raw_len(hash) * 32)
    } else if hash.0[0] == EVM_MARKER {
        Some(raw_len(hash))
    } else {
        None
    }
}

/// Calls `BytecodeHash::try_from` on the hash and, where that accepts it,
/// `BytecodeHash::len_in_bytes` on what it made.
///
/// Trusted: `try_from` accepts a hash exactly when its first byte is one of
/// the two markers, and `len_in_bytes` then reads bytes 2 and 3 as a
/// big-endian number, which it multiplies by 32 for the native kind.
#[verifier::external_body]
pub(crate) fn bytecode_len_in_bytes(hash: &H256) -> (r: Option<usize>)
    ensures
        match r {
            Some(n) => len_in_bytes(*hash) == Some(n as nat),
            None => len_in_bytes(*hash) is None,
        },
{
    match BytecodeHash::try_from(zksync_basic_types::H256(hash.0)) {
        Ok(parsed) => Some(parsed.len_in_bytes()),
        Err(_) => None,
    }
}

} // verus!
