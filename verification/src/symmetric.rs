//! The symmetric-state operations shared by the handshake and the frame
//! channel: nonce encoding, transcript hashing and key derivation.

use vstd::prelude::*;
use crate::primitives::hkdf_expand;
use crate::primitives::hkdf_sha256;
use crate::primitives::sha256;
use crate::primitives::sha256_digest;

verus! {

/// Byte `index` of `value` in little-endian order.
pub open spec fn le_byte(value: u64, index: u64) -> u8 {
    ((value >> (8 * index)) & 0xff) as u8
}

/// The 96-bit AEAD nonce for a counter: 32 zero bits, then the counter as
/// a little-endian 64-bit value.
pub open spec fn nonce_bytes(counter: u64) -> Seq<u8> {
    seq![
        0u8,
        0u8,
        0u8,
        0u8,
        le_byte(counter, 0),
        le_byte(counter, 1),
        le_byte(counter, 2),
        le_byte(counter, 3),
        le_byte(counter, 4),
        le_byte(counter, 5),
        le_byte(counter, 6),
        le_byte(counter, 7),
    ]
}

/// The transcript hash after absorbing `data`.
pub open spec fn mix_hash(h: Seq<u8>, data: Seq<u8>) -> Seq<u8> {
    sha256(h + data)
}

/// The two 32-byte keys that HKDF derives from a chaining key and input
/// key material, with empty context: the two halves of 64 bytes of
/// output, the next chaining key first, the derived key second.
pub open spec fn derive_pair(chaining_key: Seq<u8>, ikm: Seq<u8>) -> (Seq<u8>, Seq<u8>) {
    let okm = hkdf_sha256(chaining_key, ikm, Seq::empty(), 64);
    (okm.subrange(0, 32), okm.subrange(32, 64))
}

/// Two counters that encode to the same nonce are the same counter, so
/// a counter that never repeats gives a nonce that never repeats.
pub proof fn lemma_nonce_is_injective(first: u64, second: u64)
    requires
        nonce_bytes(first) == nonce_bytes(second),
    ensures
        first == second,
{
    let a = nonce_bytes(first);
    let b = nonce_bytes(second);
    assert(a[4] == b[4] && a[5] == b[5] && a[6] == b[6] && a[7] == b[7]);
    assert(a[8] == b[8] && a[9] == b[9] && a[10] == b[10] && a[11] == b[11]);
    assert(first == second) by (bit_vector)
        requires
            ((first >> 0) & 0xff) as u8 == ((second >> 0) & 0xff) as u8,
            ((first >> 8) & 0xff) as u8 == ((second >> 8) & 0xff) as u8,
            ((first >> 16) & 0xff) as u8 == ((second >> 16) & 0xff) as u8,
            ((first >> 24) & 0xff) as u8 == ((second >> 24) & 0xff) as u8,
            ((first >> 32) & 0xff) as u8 == ((second >> 32) & 0xff) as u8,
            ((first >> 40) & 0xff) as u8 == ((second >> 40) & 0xff) as u8,
            ((first >> 48) & 0xff) as u8 == ((second >> 48) & 0xff) as u8,
            ((first >> 56) & 0xff) as u8 == ((second >> 56) & 0xff) as u8,
    ;
}

fn le_byte_of(value: u64, index: u64) -> (byte: u8)
    requires
        index < 8,
    ensures
        byte == le_byte(value, index),
{
    let shifted: u64 = (value >> (8 * index)) & 0xff;
    assert(shifted < 256) by (bit_vector)
        requires
            shifted == (value >> (8 * index)) & 0xff,
    ;
    shifted as u8
}

/// Encodes a nonce counter for the AEAD.
pub fn encode_nonce(counter: u64) -> (nonce: [u8; 12])
    ensures
        nonce@ == nonce_bytes(counter),
{
    let nonce: [u8; 12] = [
        0,
        0,
        0,
        0,
        le_byte_of(counter, 0),
        le_byte_of(counter, 1),
        le_byte_of(counter, 2),
        le_byte_of(counter, 3),
        le_byte_of(counter, 4),
        le_byte_of(counter, 5),
        le_byte_of(counter, 6),
        le_byte_of(counter, 7),
    ];
    assert(nonce@ =~= nonce_bytes(counter));
    nonce
}

/// Copies 32 bytes of `bytes`, from `start` on, into an array.
pub fn array_32(bytes: &[u8], start: usize) -> (out: [u8; 32])
    requires
        start + 32 <= bytes@.len(),
    ensures
        out@ == bytes@.subrange(start as int, start + 32),
{
    let mut out: [u8; 32] = [0u8; 32];
    let mut i: usize = 0;
    while i < 32
        invariant
            i <= 32,
            start + 32 <= bytes.len(),
            forall|j: int| 0 <= j < i ==> out@[j] == bytes@[start + j],
        decreases 32 - i,
    {
        out[i] = bytes[start + i];
        i += 1;
    }
    assert(out@ =~= bytes@.subrange(start as int, start + 32));
    out
}

/// Copies 33 bytes of `bytes`, from `start` on, into an array.
pub fn array_33(bytes: &[u8], start: usize) -> (out: [u8; 33])
    requires
        start + 33 <= bytes@.len(),
    ensures
        out@ == bytes@.subrange(start as int, start + 33),
{
    let mut out: [u8; 33] = [0u8; 33];
    let mut i: usize = 0;
    while i < 33
        invariant
            i <= 33,
            start + 33 <= bytes.len(),
            forall|j: int| 0 <= j < i ==> out@[j] == bytes@[start + j],
        decreases 33 - i,
    {
        out[i] = bytes[start + i];
        i += 1;
    }
    assert(out@ =~= bytes@.subrange(start as int, start + 33));
    out
}

/// Absorbs `data` into the transcript hash `h`.
pub fn absorb(h: &[u8; 32], data: &[u8]) -> (next: [u8; 32])
    ensures
        next@ == mix_hash(h@, data@),
{
    let mut input: Vec<u8> = Vec::new();
    input.extend_from_slice(h.as_slice());
    input.extend_from_slice(data);
    assert(input@ =~= h@ + data@);
    sha256_digest(input.as_slice())
}

/// Derives the next chaining key and a fresh key from `chaining_key` and
/// `ikm`.
pub fn derive_keys(chaining_key: &[u8; 32], ikm: &[u8]) -> (keys: ([u8; 32], [u8; 32]))
    ensures
        keys.0@ == derive_pair(chaining_key@, ikm@).0,
        keys.1@ == derive_pair(chaining_key@, ikm@).1,
{
    let info: [u8; 0] = [];
    assert(info@ =~= Seq::<u8>::empty());
    let okm = hkdf_expand(chaining_key.as_slice(), ikm, info.as_slice(), 64);
    (array_32(okm.as_slice(), 0), array_32(okm.as_slice(), 32))
}

} // verus!
