//! Pre-shared-key encryption for coordinator/agent payloads.
//!
//! A key of any length is accepted and stretched to 32 bytes with SHA-256.
//! Each encryption seals the plaintext under a fresh random 12-byte nonce
//! with AES-256-GCM and prepends the nonce to the sealed frame; decryption
//! reads the nonce prefix back. A frame shorter than the nonce length never
//! decrypts.

use vstd::prelude::*;
use crate::cipher::{
    aes256_decrypt, aes256_encrypt, aes256_open, aes256_seal, random_bytes, sha256_digest,
    sha256_of, MAX_PLAINTEXT_LEN,
};

verus! {

/// Why an encryption or decryption call failed.
#[derive(Debug, Clone, Copy, PartialEq, Eq, Structural)]
pub enum CryptoError {
    /// The ciphertext is shorter than the 12-byte nonce prefix.
    InvalidCiphertext,
    /// The authentication tag did not verify.
    DecryptionFailed,
}

/// What a nonce-prefixed frame decrypts to under `key`: the sealed part
/// opened with the frame's first 12 bytes as nonce, or nothing when the
/// frame cannot even hold a nonce.
pub open spec fn spec_open_frame(key: Seq<u8>, frame: Seq<u8>) -> Option<Seq<u8>> {
    if frame.len() < 12 {
        None
    } else {
        aes256_open(key, frame.take(12), frame.skip(12))
    }
}

/// AES-256-GCM under a key derived from caller-supplied material.
pub struct Crypto {
    key: Vec<u8>,
}

impl Crypto {
    /// The 32-byte derived key.
    pub closed spec fn spec_key(self) -> Seq<u8> {
        self.key@
    }

    /// The derived key is always exactly 32 bytes.
    pub closed spec fn wf(self) -> bool {
        self.key@.len() == 32
    }

    /// Derives the cipher key by hashing the given material with SHA-256;
    /// material of any length is accepted.
    pub fn new(key: &[u8]) -> (crypto: Result<Crypto, CryptoError>)
        ensures
            crypto is Ok,
            crypto->Ok_0.wf(),
            crypto->Ok_0.spec_key() == sha256_of(key@),
    {
        Ok(Crypto { key: sha256_digest(key) })
    }

    /// Seals `plaintext` under a fresh random nonce and returns the nonce
    /// followed by the sealed bytes. The frame always decrypts back to the
    /// plaintext under the same key.
    pub fn encrypt(&self, plaintext: &[u8]) -> (encrypted: Result<Vec<u8>, CryptoError>)
        requires
            self.wf(),
            plaintext@.len() <= MAX_PLAINTEXT_LEN,
        ensures
            encrypted is Ok,
            encrypted->Ok_0@.len() == plaintext@.len() + 28,
            encrypted->Ok_0@.skip(12) == aes256_seal(
                self.spec_key(),
                encrypted->Ok_0@.take(12),
                plaintext@,
            ),
            spec_open_frame(self.spec_key(), encrypted->Ok_0@) == Some(plaintext@),
    {
        let nonce = random_bytes(12);
        let sealed = aes256_encrypt(self.key.as_slice(), nonce.as_slice(), plaintext);
        let mut result: Vec<u8> = Vec::new();
        result.extend_from_slice(nonce.as_slice());
        result.extend_from_slice(sealed.as_slice());
        proof {
            assert(result@ == nonce@ + sealed@);
            assert(result@.take(12) =~= nonce@);
            assert(result@.skip(12) =~= sealed@);
        }
        Ok(result)
    }

    /// Opens a nonce-prefixed frame: fails on a frame shorter than the
    /// nonce, and on a tag that does not verify; otherwise returns exactly
    /// the plaintext the frame seals.
    pub fn decrypt(&self, ciphertext: &[u8]) -> (decrypted: Result<Vec<u8>, CryptoError>)
        requires
            self.wf(),
        ensures
            decrypted is Ok <==> spec_open_frame(self.spec_key(), ciphertext@) is Some,
            decrypted is Ok ==> Some(decrypted->Ok_0@) == spec_open_frame(
                self.spec_key(),
                ciphertext@,
            ),
            ciphertext@.len() < 12 ==> decrypted == Result::<Vec<u8>, CryptoError>::Err(
                CryptoError::InvalidCiphertext,
            ),
    {
        if ciphertext.len() < 12 {
            return Err(CryptoError::InvalidCiphertext);
        }
        let nonce = slice_take(ciphertext, 12);
        let sealed = slice_skip(ciphertext, 12);
        match aes256_decrypt(self.key.as_slice(), nonce.as_slice(), sealed.as_slice()) {
            Some(plaintext) => Ok(plaintext),
            None => Err(CryptoError::DecryptionFailed),
        }
    }
}

/// The first `n` bytes of a slice, copied out.
pub fn slice_take(bytes: &[u8], n: usize) -> (prefix: Vec<u8>)
    requires
        n <= bytes@.len(),
    ensures
        prefix@ == bytes@.take(n as int),
{
    let mut prefix: Vec<u8> = Vec::new();
    let mut i: usize = 0;
    while i < n
        invariant
            i <= n <= bytes@.len(),
            prefix@ == bytes@.take(i as int),
        decreases n - i,
    {
        prefix.push(bytes[i]);
        proof {
            assert(prefix@ =~= bytes@.take(i + 1));
        }
        i = i + 1;
    }
    prefix
}

/// The bytes of a slice from position `n` on, copied out.
pub fn slice_skip(bytes: &[u8], n: usize) -> (suffix: Vec<u8>)
    requires
        n <= bytes@.len(),
    ensures
        suffix@ == bytes@.skip(n as int),
{
    let mut suffix: Vec<u8> = Vec::new();
    let mut i: usize = n;
    while i < bytes.len()
        invariant
            n <= i <= bytes@.len(),
            suffix@ == bytes@.subrange(n as int, i as int),
        decreases bytes@.len() - i,
    {
        suffix.push(bytes[i]);
        proof {
            assert(suffix@ =~= bytes@.subrange(n as int, i + 1));
        }
        i = i + 1;
    }
    proof {
        assert(suffix@ =~= bytes@.skip(n as int));
    }
    suffix
}

} // verus!
