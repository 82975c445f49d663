//! The symmetric leg of the transport adapter: frame-level encryption for
//! relay streams.
//!
//! Every write becomes one sealed frame: a fresh random 12-byte nonce
//! followed by the ciphertext, under AES-256-GCM or ChaCha20-Poly1305 as
//! configured. Every read opens one frame using the nonce prefix. A frame
//! shorter than the nonce length fails the read, and a key that is not
//! exactly 32 bytes fails construction.

use vstd::prelude::*;
use crate::cipher::{
    aes256_decrypt, aes256_encrypt, aes256_open, aes256_seal, chacha_decrypt, chacha_encrypt,
    chacha_open, chacha_seal, random_bytes, MAX_PLAINTEXT_LEN,
};

verus! {

/// How a relay's outbound leg is to be wrapped.
#[derive(Debug, Clone, Copy, PartialEq, Eq, Structural)]
pub enum EncryptionType {
    Plain,
    Aes256Gcm,
    ChaCha20Poly1305,
    Tls,
}

/// Which authenticated cipher seals the frames.
#[derive(Debug, Clone, Copy, PartialEq, Eq, Structural)]
pub enum SymmetricAlgorithm {
    Aes256Gcm,
    ChaCha20Poly1305,
}

/// What wrapping to apply to a stream, with everything construction needs.
#[derive(Debug, Clone)]
pub struct EncryptionConfig {
    pub encryption_type: EncryptionType,
    pub key: Option<Vec<u8>>,
    pub tls_config: Option<TlsConfig>,
}

impl Default for EncryptionConfig {
    /// No wrapping, no key, no certificate material.
    fn default() -> (config: EncryptionConfig)
        ensures
            config.encryption_type == EncryptionType::Plain,
            config.key is None,
            config.tls_config is None,
    {
        EncryptionConfig { encryption_type: EncryptionType::Plain, key: None, tls_config: None }
    }
}

/// Certificate material for the TLS wrapping.
#[derive(Debug, Clone)]
pub struct TlsConfig {
    pub ca_cert: Option<Vec<u8>>,
    pub client_cert: Option<Vec<u8>>,
    pub client_key: Option<Vec<u8>>,
    pub server_cert: Option<Vec<u8>>,
    pub server_key: Option<Vec<u8>>,
    pub verify_hostname: bool,
}

/// Why building a cipher or a wrap plan failed.
#[derive(Debug, Clone, Copy, PartialEq, Eq, Structural)]
pub enum EncryptionError {
    /// The pre-shared key is not exactly 32 bytes.
    InvalidKeyLength,
    /// The configuration names a symmetric cipher but carries no key.
    MissingKey,
    /// The configuration names TLS but carries no certificate material.
    MissingTlsConfig,
    /// A frame is shorter than the 12-byte nonce prefix.
    FrameTooShort,
    /// The authentication tag did not verify.
    DecryptionFailed,
}

/// What `algorithm` seals `plaintext` to under `key` and `nonce`.
pub open spec fn cipher_seal(
    algorithm: SymmetricAlgorithm,
    key: Seq<u8>,
    nonce: Seq<u8>,
    plaintext: Seq<u8>,
) -> Seq<u8> {
    match algorithm {
        SymmetricAlgorithm::Aes256Gcm => aes256_seal(key, nonce, plaintext),
        SymmetricAlgorithm::ChaCha20Poly1305 => chacha_seal(key, nonce, plaintext),
    }
}

/// What `algorithm` opens `sealed` to under `key` and `nonce`.
pub open spec fn cipher_open(
    algorithm: SymmetricAlgorithm,
    key: Seq<u8>,
    nonce: Seq<u8>,
    sealed: Seq<u8>,
) -> Option<Seq<u8>> {
    match algorithm {
        SymmetricAlgorithm::Aes256Gcm => aes256_open(key, nonce, sealed),
        SymmetricAlgorithm::ChaCha20Poly1305 => chacha_open(key, nonce, sealed),
    }
}

/// What a nonce-prefixed frame decrypts to: the sealed part opened with the
/// frame's first 12 bytes as nonce, or nothing when the frame cannot even
/// hold a nonce.
pub open spec fn spec_open_frame(
    algorithm: SymmetricAlgorithm,
    key: Seq<u8>,
    frame: Seq<u8>,
) -> Option<Seq<u8>> {
    if frame.len() < 12 {
        None
    } else {
        cipher_open(algorithm, key, frame.take(12), frame.skip(12))
    }
}

/// A symmetric frame cipher: one algorithm, one 32-byte pre-shared key.
/// The stream half — reading and writing the frames on a socket — lives
/// with the transport plumbing; everything about the bytes is decided here.
pub struct SymmetricCipher {
    algorithm: SymmetricAlgorithm,
    key: Vec<u8>,
}

impl SymmetricCipher {
    /// The cipher in use.
    pub closed spec fn spec_algorithm(self) -> SymmetricAlgorithm {
        self.algorithm
    }

    /// The pre-shared key.
    pub closed spec fn spec_key(self) -> Seq<u8> {
        self.key@
    }

    /// The key is always exactly 32 bytes.
    pub closed spec fn wf(self) -> bool {
        self.key@.len() == 32
    }

    /// An AES-256-GCM frame cipher; fails unless the key is exactly 32
    /// bytes.
    pub fn new_aes256(key: &[u8]) -> (cipher: Result<SymmetricCipher, EncryptionError>)
        ensures
            cipher is Ok <==> key@.len() == 32,
            cipher is Err ==> cipher->Err_0 == EncryptionError::InvalidKeyLength,
            cipher is Ok ==> cipher->Ok_0.wf()
                && cipher->Ok_0.spec_algorithm() == SymmetricAlgorithm::Aes256Gcm
                && cipher->Ok_0.spec_key() == key@,
    {
        if key.len() != 32 {
            return Err(EncryptionError::InvalidKeyLength);
        }
        let owned_key = crate::crypto::slice_skip(key, 0);
        proof {
            assert(owned_key@ =~= key@);
        }
        Ok(SymmetricCipher { algorithm: SymmetricAlgorithm::Aes256Gcm, key: owned_key })
    }

    /// A ChaCha20-Poly1305 frame cipher; fails unless the key is exactly 32
    /// bytes.
    pub fn new_chacha20(key: &[u8]) -> (cipher: Result<SymmetricCipher, EncryptionError>)
        ensures
            cipher is Ok <==> key@.len() == 32,
            cipher is Err ==> cipher->Err_0 == EncryptionError::InvalidKeyLength,
            cipher is Ok ==> cipher->Ok_0.wf()
                && cipher->Ok_0.spec_algorithm() == SymmetricAlgorithm::ChaCha20Poly1305
                && cipher->Ok_0.spec_key() == key@,
    {
        if key.len() != 32 {
            return Err(EncryptionError::InvalidKeyLength);
        }
        let owned_key = crate::crypto::slice_skip(key, 0);
        proof {
            assert(owned_key@ =~= key@);
        }
        Ok(SymmetricCipher { algorithm: SymmetricAlgorithm::ChaCha20Poly1305, key: owned_key })
    }

    /// Seals one write into one frame: a fresh random nonce followed by the
    /// sealed bytes. The frame always decrypts back to the plaintext under
    /// the same cipher and key.
    pub fn encrypt_data(&self, plaintext: &[u8]) -> (encrypted: Result<Vec<u8>, EncryptionError>)
        requires
            self.wf(),
            plaintext@.len() <= MAX_PLAINTEXT_LEN,
        ensures
            encrypted is Ok,
            encrypted->Ok_0@.len() == plaintext@.len() + 28,
            encrypted->Ok_0@.skip(12) == cipher_seal(
                self.spec_algorithm(),
                self.spec_key(),
                encrypted->Ok_0@.take(12),
                plaintext@,
            ),
            spec_open_frame(self.spec_algorithm(), self.spec_key(), encrypted->Ok_0@)
                == Some(plaintext@),
    {
        let nonce = random_bytes(12);
        let sealed = match self.algorithm {
            SymmetricAlgorithm::Aes256Gcm => aes256_encrypt(
                self.key.as_slice(),
                nonce.as_slice(),
                plaintext,
            ),
            SymmetricAlgorithm::ChaCha20Poly1305 => chacha_encrypt(
                self.key.as_slice(),
                nonce.as_slice(),
                plaintext,
            ),
        };
        let mut frame: Vec<u8> = Vec::new();
        frame.extend_from_slice(nonce.as_slice());
        frame.extend_from_slice(sealed.as_slice());
        proof {
            assert(frame@ == nonce@ + sealed@);
            assert(frame@.take(12) =~= nonce@);
            assert(frame@.skip(12) =~= sealed@);
        }
        Ok(frame)
    }

    /// Opens one frame: fails on a frame shorter than the nonce, and on a
    /// tag that does not verify; otherwise returns exactly the plaintext
    /// the frame seals.
    pub fn decrypt_data(&self, encrypted_data: &[u8]) -> (decrypted: Result<
        Vec<u8>,
        EncryptionError,
    >)
        requires
            self.wf(),
        ensures
            decrypted is Ok <==> spec_open_frame(
                self.spec_algorithm(),
                self.spec_key(),
                encrypted_data@,
            ) is Some,
            decrypted is Ok ==> Some(decrypted->Ok_0@) == spec_open_frame(
                self.spec_algorithm(),
                self.spec_key(),
                encrypted_data@,
            ),
            encrypted_data@.len() < 12 ==> decrypted == Result::<Vec<u8>, EncryptionError>::Err(
                EncryptionError::FrameTooShort,
            ),
    {
        if encrypted_data.len() < 12 {
            return Err(EncryptionError::FrameTooShort);
        }
        let nonce = crate::crypto::slice_take(encrypted_data, 12);
        let sealed = crate::crypto::slice_skip(encrypted_data, 12);
        let opened = match self.algorithm {
            SymmetricAlgorithm::Aes256Gcm => aes256_decrypt(
                self.key.as_slice(),
                nonce.as_slice(),
                sealed.as_slice(),
            ),
            SymmetricAlgorithm::ChaCha20Poly1305 => chacha_decrypt(
                self.key.as_slice(),
                nonce.as_slice(),
                sealed.as_slice(),
            ),
        };
        match opened {
            Some(plaintext) => Ok(plaintext),
            None => Err(EncryptionError::DecryptionFailed),
        }
    }
}

/// The checked outcome of planning a wrap: what the transport plumbing
/// should build around the raw stream.
pub enum WrapPlan {
    /// Pass the stream through untouched.
    Direct,
    /// Wrap every write and read with this frame cipher.
    Symmetric(SymmetricCipher),
    /// Run a TLS client handshake with this material.
    Tls(TlsConfig),
}

impl WrapPlan {
    /// Whether the plan is the one `config` calls for.
    pub open spec fn matches(self, config: EncryptionConfig) -> bool {
        match config.encryption_type {
            EncryptionType::Plain => self is Direct,
            EncryptionType::Aes256Gcm => self is Symmetric
                && self->Symmetric_0.spec_algorithm() == SymmetricAlgorithm::Aes256Gcm
                && self->Symmetric_0.spec_key() == config.key->0@,
            EncryptionType::ChaCha20Poly1305 => self is Symmetric
                && self->Symmetric_0.spec_algorithm() == SymmetricAlgorithm::ChaCha20Poly1305
                && self->Symmetric_0.spec_key() == config.key->0@,
            EncryptionType::Tls => self is Tls,
        }
    }
}

/// Decides, for each configuration, how a stream is to be wrapped; the
/// transport plumbing carries the decision out.
pub struct EncryptionManager;

impl EncryptionManager {
    /// A manager; it holds no state of its own.
    pub fn new() -> (manager: EncryptionManager) {
        EncryptionManager
    }

    /// Validates a configuration and turns it into a wrap plan, failing
    /// fast when required key material is absent or malformed: a symmetric
    /// cipher needs a key of exactly 32 bytes, and TLS needs certificate
    /// material.
    pub fn wrap_plan(&self, config: &EncryptionConfig) -> (plan: Result<WrapPlan, EncryptionError>)
        ensures
            plan is Ok ==> plan->Ok_0.matches(*config),
            config.encryption_type == EncryptionType::Plain ==> plan is Ok,
            (config.encryption_type == EncryptionType::Aes256Gcm
                || config.encryption_type == EncryptionType::ChaCha20Poly1305) ==> {
                &&& config.key is None ==> plan == Result::<WrapPlan, EncryptionError>::Err(
                    EncryptionError::MissingKey,
                )
                &&& config.key is Some && config.key->0@.len() != 32 ==> plan == Result::<
                    WrapPlan,
                    EncryptionError,
                >::Err(EncryptionError::InvalidKeyLength)
                &&& config.key is Some && config.key->0@.len() == 32 ==> plan is Ok
            },
            config.encryption_type == EncryptionType::Tls ==> {
                &&& config.tls_config is None ==> plan == Result::<
                    WrapPlan,
                    EncryptionError,
                >::Err(EncryptionError::MissingTlsConfig)
                &&& config.tls_config is Some ==> plan is Ok
            },
    {
        match config.encryption_type {
            EncryptionType::Plain => Ok(WrapPlan::Direct),
            EncryptionType::Aes256Gcm => {
                match &config.key {
                    Some(key) => {
                        let cipher = SymmetricCipher::new_aes256(key.as_slice())?;
                        Ok(WrapPlan::Symmetric(cipher))
                    },
                    None => Err(EncryptionError::MissingKey),
                }
            },
            EncryptionType::ChaCha20Poly1305 => {
                match &config.key {
                    Some(key) => {
                        let cipher = SymmetricCipher::new_chacha20(key.as_slice())?;
                        Ok(WrapPlan::Symmetric(cipher))
                    },
                    None => Err(EncryptionError::MissingKey),
                }
            },
            EncryptionType::Tls => {
                match &config.tls_config {
                    Some(tls_config) => Ok(WrapPlan::Tls(tls_config.clone())),
                    None => Err(EncryptionError::MissingTlsConfig),
                }
            },
        }
    }

    /// A fresh random 32-byte pre-shared key.
    pub fn generate_key() -> (key: Vec<u8>)
        ensures
            key@.len() == 32,
    {
        random_bytes(32)
    }
}

} // verus!
