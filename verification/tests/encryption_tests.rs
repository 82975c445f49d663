use sentinel::encryption::{
    EncryptionConfig, EncryptionError, EncryptionManager, EncryptionType, SymmetricCipher,
    WrapPlan,
};

#[test]
fn aes_frame_round_trip() {
    let key = [7u8; 32];
    let cipher = SymmetricCipher::new_aes256(&key).unwrap();
    let frame = cipher.encrypt_data(b"relay payload").unwrap();
    assert_eq!(frame.len(), 13 + 28);
    let plaintext = cipher.decrypt_data(&frame).unwrap();
    assert_eq!(&plaintext[..], b"relay payload");
}

#[test]
fn chacha_frame_round_trip() {
    let key = [9u8; 32];
    let cipher = SymmetricCipher::new_chacha20(&key).unwrap();
    let frame = cipher.encrypt_data(b"other payload").unwrap();
    let plaintext = cipher.decrypt_data(&frame).unwrap();
    assert_eq!(&plaintext[..], b"other payload");
}

#[test]
fn frame_shorter_than_nonce_fails() {
    let key = [1u8; 32];
    let aes = SymmetricCipher::new_aes256(&key).unwrap();
    let chacha = SymmetricCipher::new_chacha20(&key).unwrap();
    for len in 0..12 {
        let short = vec![0u8; len];
        assert_eq!(aes.decrypt_data(&short), Err(EncryptionError::FrameTooShort));
        assert_eq!(chacha.decrypt_data(&short), Err(EncryptionError::FrameTooShort));
    }
}

#[test]
fn keys_must_be_exactly_32_bytes() {
    assert_eq!(
        SymmetricCipher::new_aes256(&[0u8; 31]).err(),
        Some(EncryptionError::InvalidKeyLength)
    );
    assert_eq!(
        SymmetricCipher::new_aes256(&[0u8; 33]).err(),
        Some(EncryptionError::InvalidKeyLength)
    );
    assert_eq!(
        SymmetricCipher::new_chacha20(&[0u8; 16]).err(),
        Some(EncryptionError::InvalidKeyLength)
    );
    assert!(SymmetricCipher::new_aes256(&[0u8; 32]).is_ok());
}

#[test]
fn ciphers_do_not_open_each_others_frames() {
    let key = [3u8; 32];
    let aes = SymmetricCipher::new_aes256(&key).unwrap();
    let chacha = SymmetricCipher::new_chacha20(&key).unwrap();
    let frame = aes.encrypt_data(b"cross").unwrap();
    assert_eq!(chacha.decrypt_data(&frame), Err(EncryptionError::DecryptionFailed));
}

#[test]
fn wrap_plan_validates_key_material() {
    let manager = EncryptionManager::new();

    let plain = EncryptionConfig::default();
    assert!(matches!(manager.wrap_plan(&plain), Ok(WrapPlan::Direct)));

    let missing_key = EncryptionConfig {
        encryption_type: EncryptionType::Aes256Gcm,
        key: None,
        tls_config: None,
    };
    assert!(matches!(
        manager.wrap_plan(&missing_key),
        Err(EncryptionError::MissingKey)
    ));

    let bad_key = EncryptionConfig {
        encryption_type: EncryptionType::ChaCha20Poly1305,
        key: Some(vec![0u8; 16]),
        tls_config: None,
    };
    assert!(matches!(
        manager.wrap_plan(&bad_key),
        Err(EncryptionError::InvalidKeyLength)
    ));

    let good = EncryptionConfig {
        encryption_type: EncryptionType::Aes256Gcm,
        key: Some(EncryptionManager::generate_key()),
        tls_config: None,
    };
    assert!(matches!(manager.wrap_plan(&good), Ok(WrapPlan::Symmetric(_))));

    let tls_missing = EncryptionConfig {
        encryption_type: EncryptionType::Tls,
        key: None,
        tls_config: None,
    };
    assert!(matches!(
        manager.wrap_plan(&tls_missing),
        Err(EncryptionError::MissingTlsConfig)
    ));
}

#[test]
fn generated_keys_are_32_bytes() {
    let key = EncryptionManager::generate_key();
    assert_eq!(key.len(), 32);
    let cipher = SymmetricCipher::new_aes256(&key).unwrap();
    let frame = cipher.encrypt_data(b"fresh key").unwrap();
    assert_eq!(&cipher.decrypt_data(&frame).unwrap()[..], b"fresh key");
}
