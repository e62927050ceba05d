//! The cryptographic building blocks of the transport: SHA-256, HKDF,
//! secp256k1 key derivation and key agreement, and the ChaCha20-Poly1305
//! AEAD. Each is computed by an established implementation; this module
//! gives every result a mathematical name so that the protocol built on
//! top can be stated exactly.

use vstd::prelude::*;
use bitcoin_hashes::hkdf::Hkdf;
use chacha20poly1305::aead::Aead;
use chacha20poly1305::aead::Payload;
use chacha20poly1305::ChaCha20Poly1305;
use chacha20poly1305::KeyInit;
use secp256k1::ecdh::SharedSecret;
use secp256k1::PublicKey;
use secp256k1::SecretKey;

verus! {

/// Length in bytes of an AEAD authentication tag.
pub const TAG_LEN: usize = 16;

/// The SHA-256 digest of `data`.
pub uninterp spec fn sha256(data: Seq<u8>) -> Seq<u8>;

/// The first `length` bytes of HKDF-SHA256 output for `salt`, input key
/// material `ikm` and context `info`.
pub uninterp spec fn hkdf_sha256(salt: Seq<u8>, ikm: Seq<u8>, info: Seq<u8>, length: nat) -> Seq<u8>;

/// The compressed public point of the private scalar `secret`, or `None`
/// when `secret` is not a valid scalar.
pub uninterp spec fn public_key_of(secret: Seq<u8>) -> Option<Seq<u8>>;

/// The SHA-256 of the compressed product of `point` and `scalar`, or
/// `None` when either does not parse.
pub uninterp spec fn ecdh(point: Seq<u8>, scalar: Seq<u8>) -> Option<Seq<u8>>;

/// The ChaCha20-Poly1305 ciphertext of `plaintext`, tag appended.
pub uninterp spec fn aead_seal(key: Seq<u8>, nonce: Seq<u8>, ad: Seq<u8>, plaintext: Seq<u8>) -> Seq<
    u8,
>;

/// The plaintext that `ciphertext` authenticates and decrypts to, or
/// `None` when the tag does not verify or the input is shorter than a tag.
pub uninterp spec fn aead_open(key: Seq<u8>, nonce: Seq<u8>, ad: Seq<u8>, ciphertext: Seq<u8>) -> Option<
    Seq<u8>,
>;

/// Whether the ciphertext bytes of `sealed`, its tag left aside, are those
/// that sealing `plaintext` gives.
pub open spec fn same_body(
    key: Seq<u8>,
    nonce: Seq<u8>,
    ad: Seq<u8>,
    sealed: Seq<u8>,
    plaintext: Seq<u8>,
) -> bool {
    plaintext.len() + TAG_LEN == sealed.len() && aead_seal(key, nonce, ad, plaintext).subrange(
        0,
        plaintext.len() as int,
    ) == sealed.subrange(0, plaintext.len() as int)
}

/// Whether `plaintext` is the only text whose sealing has the ciphertext
/// bytes of `sealed`.
pub open spec fn only_plaintext(
    key: Seq<u8>,
    nonce: Seq<u8>,
    ad: Seq<u8>,
    sealed: Seq<u8>,
    plaintext: Seq<u8>,
) -> bool {
    forall|other: Seq<u8>| #[trigger]
        same_body(key, nonce, ad, sealed, other) ==> other == plaintext
}

/// Calls `bitcoin_hashes::sha256::hash` and takes the digest's bytes.
/// Believed: the result is the SHA-256 digest of `data`.
#[verifier::external_body]
pub(crate) fn sha256_digest(data: &[u8]) -> (digest: [u8; 32])
    ensures
        digest@ == sha256(data@),
{
    bitcoin_hashes::sha256::hash(data).to_byte_array()
}

/// Largest output that is asked of HKDF-SHA256 here: 254 blocks of 32
/// bytes. The expansion counts its blocks in one byte and steps the
/// counter once more after the last block, so it cannot finish a 255th
/// block, though it admits the length.
pub const HKDF_MAX_OUTPUT: usize = 8128;

/// Calls `bitcoin_hashes::hkdf::Hkdf::new` with the SHA-256 engine, then
/// `expand` into `length` bytes. Believed: the result is the HKDF output
/// of that length for `salt`, `ikm` and `info`. `new` fails for no
/// SHA-256 input; `expand` returns an error above 8160 bytes and
/// overflows its block counter from 8129 bytes on, and both are kept out
/// by the limit.
#[verifier::external_body]
pub(crate) fn hkdf_expand(salt: &[u8], ikm: &[u8], info: &[u8], length: usize) -> (okm: Vec<u8>)
    requires
        length <= HKDF_MAX_OUTPUT,
    ensures
        okm@ == hkdf_sha256(salt@, ikm@, info@, length as nat),
        okm@.len() == length,
{
    let mut okm: Vec<u8> = vec![0u8; length];
    let prk = Hkdf::<bitcoin_hashes::sha256::HashEngine>::new(salt, ikm);
    prk.expand(info, &mut okm).expect("the length is within the output limit");
    okm
}

/// Calls `secp256k1::SecretKey::from_secret_bytes`, then
/// `secp256k1::PublicKey::from_secret_key` and `serialize`. Believed: the
/// result is the compressed public point of the scalar, and `None` exactly
/// when the scalar is rejected.
#[verifier::external_body]
pub(crate) fn derive_public_key(secret: &[u8; 32]) -> (point: Option<[u8; 33]>)
    ensures
        point matches Some(p) ==> public_key_of(secret@) == Some(p@),
        point is None ==> public_key_of(secret@) is None,
{
    match SecretKey::from_secret_bytes(*secret) {
        Ok(scalar) => Some(PublicKey::from_secret_key(&scalar).serialize()),
        Err(_) => None,
    }
}

/// Whether the two parties agree: whoever holds the private scalar of
/// `point` reaches `secret` too, from the public point of `scalar`.
pub open spec fn agreed(point: Seq<u8>, scalar: Seq<u8>, secret: Seq<u8>) -> bool {
    forall|other: Seq<u8>| #[trigger]
        public_key_of(other) == Some(point) ==> match public_key_of(scalar) {
            Some(mine) => ecdh(mine, other) == Some(secret),
            None => false,
        }
}

/// Whether `point` serves every party: key agreement with it succeeds for
/// every valid private scalar.
pub open spec fn serves_all(point: Seq<u8>) -> bool {
    forall|any: Seq<u8>| #[trigger] public_key_of(any) is Some ==> ecdh(point, any) is Some
}

/// Calls `secp256k1::ecdh::SharedSecret::new` on the parsed point and
/// scalar. Believed: the result is the shared secret of the two, and
/// `None` exactly when `PublicKey::from_byte_array_compressed` or
/// `SecretKey::from_secret_bytes` rejects its input, so that a point
/// which one scalar is accepted with is accepted with every valid scalar;
/// and the secret is shared, as the crate documents: the other party
/// computes the same value from its private scalar and this party's
/// public point.
#[verifier::external_body]
pub(crate) fn shared_secret(point: &[u8; 33], scalar: &[u8; 32]) -> (secret: Option<[u8; 32]>)
    ensures
        secret matches Some(s) ==> ecdh(point@, scalar@) == Some(s@),
        secret is None ==> ecdh(point@, scalar@) is None,
        secret matches Some(s) ==> agreed(point@, scalar@, s@),
        secret is Some ==> serves_all(point@),
{
    let parsed_point = PublicKey::from_byte_array_compressed(*point).ok()?;
    let parsed_scalar = SecretKey::from_secret_bytes(*scalar).ok()?;
    Some(SharedSecret::new(&parsed_point, &parsed_scalar).to_secret_bytes())
}

/// Calls `chacha20poly1305::ChaCha20Poly1305::encrypt`. Believed: the
/// result is the ciphertext with its 16-byte tag appended, and opening it
/// under the same key, nonce and associated data gives the plaintext
/// back. The call only fails on plaintexts of 2^38 bytes or more.
#[verifier::external_body]
pub(crate) fn seal(key: &[u8; 32], nonce: &[u8; 12], ad: &[u8], plaintext: &[u8]) -> (ciphertext:
    Vec<u8>)
    requires
        plaintext@.len() <= u32::MAX,
    ensures
        ciphertext@ == aead_seal(key@, nonce@, ad@, plaintext@),
        ciphertext@.len() == plaintext@.len() + TAG_LEN,
        aead_open(key@, nonce@, ad@, ciphertext@) == Some(plaintext@),
{
    let cipher = ChaCha20Poly1305::new(&(*key).into());
    let payload = Payload { msg: plaintext, aad: ad };
    cipher.encrypt(&(*nonce).into(), payload).expect("the plaintext is within the length limit")
}

/// Calls `chacha20poly1305::ChaCha20Poly1305::decrypt`. Believed: the
/// result is the plaintext, 16 bytes shorter than the ciphertext, when the
/// tag verifies, and `None` otherwise; a ciphertext that opens is exactly
/// what sealing its plaintext gives, since the tag is recomputed from the
/// same inputs and compared in full; and the plaintext is the only one
/// whose sealing starts with these ciphertext bytes, since both
/// directions combine the text with the same keystream byte by byte.
#[verifier::external_body]
pub(crate) fn open(key: &[u8; 32], nonce: &[u8; 12], ad: &[u8], ciphertext: &[u8]) -> (plaintext:
    Option<Vec<u8>>)
    ensures
        plaintext matches Some(p) ==> aead_open(key@, nonce@, ad@, ciphertext@) == Some(p@)
            && p@.len() + TAG_LEN == ciphertext@.len() && ciphertext@ == aead_seal(
            key@,
            nonce@,
            ad@,
            p@,
        ),
        plaintext is None ==> aead_open(key@, nonce@, ad@, ciphertext@) is None,
        plaintext matches Some(p) ==> only_plaintext(key@, nonce@, ad@, ciphertext@, p@),
{
    let cipher = ChaCha20Poly1305::new(&(*key).into());
    let payload = Payload { msg: ciphertext, aad: ad };
    cipher.decrypt(&(*nonce).into(), payload).ok()
}

} // verus!
