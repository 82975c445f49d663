//! Trusted bindings to the cryptographic primitives the library builds on:
//! SHA-256, the two authenticated ciphers, and the operating system's
//! random source.
//!
//! What a digest or a sealed frame contains is not restated here: each
//! result is given a name, and the one fact the contracts rely on — that
//! opening a sealed frame under the same key and nonce yields the plaintext
//! back — is exactly what an authenticated cipher documents.

use vstd::prelude::*;
use aes_gcm::aead::Aead;
use aes_gcm::KeyInit;
use rand::RngCore;
use sha2::Digest;

verus! {

/// Longest plaintext the sealing wrappers accept. Both ciphers document a
/// larger ceiling (2^36 bytes and up), so below this bound sealing cannot
/// fail.
pub const MAX_PLAINTEXT_LEN: usize = 0xFFFF_FFFF;

/// The SHA-256 digest of a byte sequence; always 32 bytes.
pub uninterp spec fn sha256_of(input: Seq<u8>) -> Seq<u8>;

/// The AES-256-GCM sealing of `plaintext` under `key` and `nonce`:
/// ciphertext with the 16-byte authentication tag appended.
pub uninterp spec fn aes256_seal(key: Seq<u8>, nonce: Seq<u8>, plaintext: Seq<u8>) -> Seq<u8>;

/// The AES-256-GCM opening of `sealed` under `key` and `nonce`: the
/// plaintext when the tag authenticates, nothing otherwise.
pub uninterp spec fn aes256_open(key: Seq<u8>, nonce: Seq<u8>, sealed: Seq<u8>) -> Option<Seq<u8>>;

/// The ChaCha20-Poly1305 sealing of `plaintext` under `key` and `nonce`.
pub uninterp spec fn chacha_seal(key: Seq<u8>, nonce: Seq<u8>, plaintext: Seq<u8>) -> Seq<u8>;

/// The ChaCha20-Poly1305 opening of `sealed` under `key` and `nonce`.
pub uninterp spec fn chacha_open(key: Seq<u8>, nonce: Seq<u8>, sealed: Seq<u8>) -> Option<Seq<u8>>;

/// Relies on sha2's `Sha256::digest`: the digest is 32 bytes and depends on
/// the input alone.
#[verifier::external_body]
pub fn sha256_digest(input: &[u8]) -> (digest: Vec<u8>)
    ensures
        digest@ == sha256_of(input@),
        digest@.len() == 32,
{
    sha2::Sha256::digest(input).to_vec()
}

/// Relies on rand's `OsRng::fill_bytes`: fills the buffer from the
/// operating system's random source. Nothing is promised of the contents.
#[verifier::external_body]
pub fn random_bytes(len: usize) -> (bytes: Vec<u8>)
    ensures
        bytes@.len() == len,
{
    let mut bytes = vec![0u8; len];
    rand::rngs::OsRng.fill_bytes(&mut bytes);
    bytes
}

/// Relies on aes-gcm's `Aes256Gcm::encrypt`: seals the plaintext under the
/// 32-byte key and 12-byte nonce, appending the 16-byte tag, and succeeds
/// for every plaintext below the cipher's documented length ceiling.
/// Opening the result under the same key and nonce yields the plaintext.
#[verifier::external_body]
pub fn aes256_encrypt(key: &[u8], nonce: &[u8], plaintext: &[u8]) -> (sealed: Vec<u8>)
    requires
        key@.len() == 32,
        nonce@.len() == 12,
        plaintext@.len() <= MAX_PLAINTEXT_LEN,
    ensures
        sealed@ == aes256_seal(key@, nonce@, plaintext@),
        sealed@.len() == plaintext@.len() + 16,
        aes256_open(key@, nonce@, sealed@) == Some(plaintext@),
{
    let cipher = aes_gcm::Aes256Gcm::new_from_slice(key).unwrap();
    cipher.encrypt(aes_gcm::Nonce::from_slice(nonce), plaintext).unwrap()
}

/// Relies on aes-gcm's `Aes256Gcm::decrypt`: opens a sealed frame under the
/// 32-byte key and 12-byte nonce, returning the plaintext exactly when the
/// authentication tag verifies.
#[verifier::external_body]
pub fn aes256_decrypt(key: &[u8], nonce: &[u8], sealed: &[u8]) -> (opened: Option<Vec<u8>>)
    requires
        key@.len() == 32,
        nonce@.len() == 12,
    ensures
        opened is Some <==> aes256_open(key@, nonce@, sealed@) is Some,
        opened is Some ==> opened->0@ == aes256_open(key@, nonce@, sealed@)->0,
{
    let cipher = aes_gcm::Aes256Gcm::new_from_slice(key).unwrap();
    match cipher.decrypt(aes_gcm::Nonce::from_slice(nonce), sealed) {
        Ok(plaintext) => Some(plaintext),
        Err(_) => None,
    }
}

/// Relies on chacha20poly1305's `ChaCha20Poly1305::encrypt`: seals the
/// plaintext under the 32-byte key and 12-byte nonce, appending the 16-byte
/// tag, and succeeds for every plaintext below the cipher's documented
/// length ceiling. Opening the result under the same key and nonce yields
/// the plaintext.
#[verifier::external_body]
pub fn chacha_encrypt(key: &[u8], nonce: &[u8], plaintext: &[u8]) -> (sealed: Vec<u8>)
    requires
        key@.len() == 32,
        nonce@.len() == 12,
        plaintext@.len() <= MAX_PLAINTEXT_LEN,
    ensures
        sealed@ == chacha_seal(key@, nonce@, plaintext@),
        sealed@.len() == plaintext@.len() + 16,
        chacha_open(key@, nonce@, sealed@) == Some(plaintext@),
{
    let cipher = chacha20poly1305::ChaCha20Poly1305::new_from_slice(key).unwrap();
    cipher.encrypt(chacha20poly1305::Nonce::from_slice(nonce), plaintext).unwrap()
}

/// Relies on chacha20poly1305's `ChaCha20Poly1305::decrypt`: opens a sealed
/// frame under the 32-byte key and 12-byte nonce, returning the plaintext
/// exactly when the authentication tag verifies.
#[verifier::external_body]
pub fn chacha_decrypt(key: &[u8], nonce: &[u8], sealed: &[u8]) -> (opened: Option<Vec<u8>>)
    requires
        key@.len() == 32,
        nonce@.len() == 12,
    ensures
        opened is Some <==> chacha_open(key@, nonce@, sealed@) is Some,
        opened is Some ==> opened->0@ == chacha_open(key@, nonce@, sealed@)->0,
{
    let cipher = chacha20poly1305::ChaCha20Poly1305::new_from_slice(key).unwrap();
    match cipher.decrypt(chacha20poly1305::Nonce::from_slice(nonce), sealed) {
        Ok(plaintext) => Some(plaintext),
        Err(_) => None,
    }
}

} // verus!
