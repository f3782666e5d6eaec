//! The contract ABI encoding of one dynamic byte array.
//!
//! The messenger contract publishes each long message as the encoding of a
//! single `bytes` value: a 32-byte word that holds the offset of the payload,
//! at that offset a 32-byte word that holds its length, and then the payload
//! itself. This module says what such an encoding is, tests for it, and hands
//! the decoding to `ethabi`.

use vstd::prelude::*;
use zksync_basic_types::ethabi;

verus! {

/// Whether the 28 bytes of `data` from `at` on are all zero.
pub open spec fn leading_zeros(data: Seq<u8>, at: int) -> bool {
    forall|k: int| at <= k < at + 28 ==> data[k] == 0
}

/// The number that the 32-byte big-endian word of `data` at `at` spells, if
/// the word lies inside `data` and the number is below 2^32.
pub open spec fn word_at(data: Seq<u8>, at: int) -> Option<int> {
    if at < 0 || at + 32 > data.len() || !leading_zeros(data, at) {
        None
    } else {
        Some(
            data[at + 28] * 0x100_0000 + data[at + 29] * 0x1_0000 + data[at + 30] * 0x100
                + data[at + 31],
        )
    }
}

/// The byte array that `data` encodes, if it encodes one: the word at 0 gives
/// an offset, the word at that offset a length, and that many bytes follow it.
/// Bytes of `data` that this does not reach are ignored.
pub open spec fn decoded_bytes(data: Seq<u8>) -> Option<Seq<u8>> {
    match word_at(data, 0) {
        None => None,
        Some(offset) => match word_at(data, offset) {
            None => None,
            Some(len) => if offset + 32 + len > data.len() {
                None
            } else {
                Some(data.subrange(offset + 32, offset + 32 + len))
            },
        },
    }
}

/// The 32-byte big-endian word that spells `n`, for `n` below 2^32.
pub open spec fn word_of(n: int) -> Seq<u8> {
    Seq::new(
        32,
        |k: int|
            if k < 28 {
                0u8
            } else if k == 28 {
                (n / 0x100_0000) as u8
            } else if k == 29 {
                (n / 0x1_0000 % 0x100) as u8
            } else if k == 30 {
                (n / 0x100 % 0x100) as u8
            } else {
                (n % 0x100) as u8
            },
    )
}

/// The number of bytes that the encoding of a byte array of length `len`
/// takes: the length rounded up to a multiple of 32, and two words.
pub open spec fn encoded_len(len: nat) -> nat {
    ((len + 31) / 32 * 32 + 64) as nat
}

/// The encoding of `bytes`: the offset 32, the length, and the bytes padded
/// with zeros to a multiple of 32.
pub open spec fn encoded_bytes(bytes: Seq<u8>) -> Seq<u8> {
    word_of(32) + word_of(bytes.len() as int) + bytes + Seq::new(
        ((bytes.len() + 31) / 32 * 32 - bytes.len()) as nat,
        |k: int| 0u8,
    )
}

/// The word that spells `n` reads back as `n`.
pub proof fn lemma_word_of_reads_back(n: int, before: Seq<u8>, after: Seq<u8>)
    requires
        0 <= n < 0x1_0000_0000,
    ensures
        word_at(before + word_of(n) + after, before.len() as int) == Some(n),
{
    let data = before + word_of(n) + after;
    let at = before.len() as int;
    assert forall|k: int| at <= k < at + 32 implies data[k] == word_of(n)[k - at] by {}
    assert(leading_zeros(data, at));
    assert(data[at + 28] == (n / 0x100_0000) as u8);
    assert(data[at + 29] == (n / 0x1_0000 % 0x100) as u8);
    assert(data[at + 30] == (n / 0x100 % 0x100) as u8);
    assert(data[at + 31] == (n % 0x100) as u8);
}

/// Decoding undoes encoding, and the encoding has the stated length.
pub proof fn lemma_decode_encoded(bytes: Seq<u8>)
    requires
        bytes.len() < 0x1_0000_0000,
    ensures
        decoded_bytes(encoded_bytes(bytes)) == Some(bytes),
        encoded_bytes(bytes).len() == encoded_len(bytes.len()),
{
    let len = bytes.len() as int;
    let padding = Seq::new(((len + 31) / 32 * 32 - len) as nat, |k: int| 0u8);
    let data = encoded_bytes(bytes);
    let tail = word_of(len) + bytes + padding;
    assert(data =~= Seq::<u8>::empty() + word_of(32) + tail);
    lemma_word_of_reads_back(32, Seq::empty(), tail);
    assert(data =~= word_of(32) + word_of(len) + (bytes + padding));
    lemma_word_of_reads_back(len, word_of(32), bytes + padding);
    assert(data.subrange(64, 64 + len) =~= bytes);
}

/// Reads the word of `data` at `at`.
fn read_word(data: &[u8], at: usize) -> (r: Option<usize>)
    ensures
        match r {
            Some(n) => word_at(data@, at as int) == Some(n as int),
            None => word_at(data@, at as int) is None,
        },
{
    if data.len() < 32 || at > data.len() - 32 {
        return None;
    }
    let mut k: usize = 0;
    while k < 28
        invariant
            k <= 28,
            at + 32 <= data.len(),
            forall|j: int| at <= j < at + k ==> data@[j] == 0,
        decreases 28 - k,
    {
        if data[at + k] != 0 {
            return None;
        }
        k += 1;
    }
    let b0: usize = data[at + 28] as usize;
    let b1: usize = data[at + 29] as usize;
    let b2: usize = data[at + 30] as usize;
    let b3: usize = data[at + 31] as usize;
    Some(b0 * 0x100_0000 + b1 * 0x1_0000 + b2 * 0x100 + b3)
}

/// Whether `data` encodes a byte array.
pub fn is_encoded_bytes(data: &[u8]) -> (r: bool)
    ensures
        r == decoded_bytes(data@).is_some(),
{
    match read_word(data, 0) {
        None => false,
        Some(offset) => match read_word(data, offset) {
            None => false,
            Some(len) => len <= data.len() - offset - 32,
        },
    }
}

/// Calls `ethabi::decode` with the single parameter type `bytes`, and takes
/// the byte array out of the one token that comes back.
///
/// Trusted: on an input that encodes a byte array, the call succeeds and
/// yields that array. The decoder reads the offset from the first word, the
/// length from the word at the offset, both rejected unless below 2^32, and
/// copies that many bytes from behind the length word. On other inputs it
/// adds the numbers it has read without guarding against overflow, so this is
/// only called where [`is_encoded_bytes`] holds.
#[verifier::external_body]
pub(crate) fn decode_token(data: &[u8]) -> (r: Option<Vec<u8>>)
    requires
        decoded_bytes(data@) is Some,
    ensures
        r is Some,
        Some(r.unwrap()@) == decoded_bytes(data@),
{
    let tokens = ethabi::decode(&[ethabi::ParamType::Bytes], data).ok()?;
    tokens.into_iter().next()?.into_bytes()
}

/// Decodes the byte array that `data` encodes; `None` if it encodes none.
pub fn decode_bytes(data: &[u8]) -> (r: Option<Vec<u8>>)
    ensures
        match r {
            Some(bytes) => decoded_bytes(data@) == Some(bytes@),
            None => decoded_bytes(data@) is None,
        },
{
    if is_encoded_bytes(data) {
        decode_token(data)
    } else {
        None
    }
}

} // verus!
