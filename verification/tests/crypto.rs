use solidrop::codec::{magic_bytes, FORMAT_VERSION, HEADER_SIZE, TAG_LEN};
use solidrop::decrypt::decrypt;
use solidrop::encrypt::encrypt;
use solidrop::error::CryptoError;
use solidrop::hash::{hex_encode, sha256_hex, verify_hash};
use solidrop::key_derivation::{derive_file_key, derive_master_key, generate_salt};

#[test]
fn test_roundtrip() {
    let master_key = [42u8; 32];
    let plaintext = b"hello world, this is a test of ArtSync encryption";
    let encrypted = encrypt(&master_key, plaintext).unwrap();
    let decrypted = decrypt(&master_key, &encrypted).unwrap();
    assert_eq!(decrypted, plaintext);
}

#[test]
fn test_wrong_key_fails() {
    let master_key = [42u8; 32];
    let wrong_key = [99u8; 32];
    let plaintext = b"secret data";
    let encrypted = encrypt(&master_key, plaintext).unwrap();
    assert!(decrypt(&wrong_key, &encrypted).is_err());
}

#[test]
fn test_truncated_data_fails() {
    assert!(decrypt(&[0u8; 32], &[0u8; 10]).is_err());
}

#[test]
fn test_invalid_magic_fails() {
    let mut data = vec![0u8; 100];
    data[..8].copy_from_slice(b"INVALID\x00");
    assert!(decrypt(&[0u8; 32], &data).is_err());
}

#[test]
fn test_encrypt_produces_valid_header() {
    let master_key = [42u8; 32];
    let plaintext = b"hello world";
    let encrypted = encrypt(&master_key, plaintext).unwrap();

    assert!(encrypted.len() > HEADER_SIZE);
    assert_eq!(&encrypted[..8], magic_bytes().as_slice());
    assert_eq!(encrypted[8], FORMAT_VERSION);
}

#[test]
fn test_encrypt_different_each_time() {
    let master_key = [42u8; 32];
    let plaintext = b"hello world";
    let enc1 = encrypt(&master_key, plaintext).unwrap();
    let enc2 = encrypt(&master_key, plaintext).unwrap();
    // Different salt + nonce should produce different ciphertext
    assert_ne!(enc1, enc2);
}

#[test]
fn test_sha256_hex() {
    let hash = sha256_hex(b"hello");
    assert!(hash.starts_with("sha256:"));
    assert_eq!(hash.len(), 7 + 64); // "sha256:" + 64 hex chars
}

#[test]
fn test_verify_hash() {
    let data = b"hello";
    let hash = sha256_hex(data);
    assert!(verify_hash(data, &hash));
    assert!(!verify_hash(b"world", &hash));
}

#[test]
fn test_derive_master_key_deterministic() {
    let password = b"test-password";
    let salt = [1u8; 16];
    let key1 = derive_master_key(password, &salt).unwrap();
    let key2 = derive_master_key(password, &salt).unwrap();
    assert_eq!(key1, key2);
}

#[test]
fn test_different_salts_produce_different_keys() {
    let password = b"test-password";
    let salt1 = [1u8; 16];
    let salt2 = [2u8; 16];
    let key1 = derive_master_key(password, &salt1).unwrap();
    let key2 = derive_master_key(password, &salt2).unwrap();
    assert_ne!(key1, key2);
}

#[test]
fn test_derive_file_key() {
    let master_key = [42u8; 32];
    let salt = [1u8; 16];
    let file_key = derive_file_key(&master_key, &salt).unwrap();
    assert_eq!(file_key.len(), 32);
    assert_ne!(file_key, master_key);
}

#[test]
fn test_generate_salt_unique() {
    let salt1 = generate_salt();
    let salt2 = generate_salt();
    assert_ne!(salt1, salt2);
}

#[test]
fn test_seal_open_scenario() {
    // The concrete end-to-end scenario: a fixed key, a fixed plaintext,
    // sealing twice, opening with the right and with the wrong key.
    let master_key = [0x2au8; 32];
    let plaintext = b"hello world, this is a test";

    let env1 = encrypt(&master_key, plaintext).unwrap();
    let env2 = encrypt(&master_key, plaintext).unwrap();
    assert_ne!(env1, env2);

    assert_eq!(decrypt(&master_key, &env1).unwrap(), plaintext);
    assert_eq!(decrypt(&master_key, &env2).unwrap(), plaintext);

    let wrong_key = [0x63u8; 32];
    assert!(matches!(
        decrypt(&wrong_key, &env1),
        Err(CryptoError::DecryptionFailed(_))
    ));
    assert!(matches!(
        decrypt(&wrong_key, &env2),
        Err(CryptoError::DecryptionFailed(_))
    ));
}

#[test]
fn test_empty_plaintext_roundtrip() {
    let master_key = [7u8; 32];
    let encrypted = encrypt(&master_key, b"").unwrap();
    assert_eq!(encrypted.len(), HEADER_SIZE + TAG_LEN);
    let decrypted = decrypt(&master_key, &encrypted).unwrap();
    assert!(decrypted.is_empty());
}

#[test]
fn test_envelope_length() {
    let master_key = [3u8; 32];
    let plaintext = b"0123456789";
    let encrypted = encrypt(&master_key, plaintext).unwrap();
    assert_eq!(encrypted.len(), HEADER_SIZE + plaintext.len() + TAG_LEN);
}

#[test]
fn test_tamper_any_payload_bit_fails() {
    // Flipping any single bit in the ciphertext/tag region must fail with
    // DecryptionFailed.
    let master_key = [5u8; 32];
    let plaintext = b"tamper me";
    let encrypted = encrypt(&master_key, plaintext).unwrap();
    for byte in HEADER_SIZE..encrypted.len() {
        for bit in 0..8 {
            let mut tampered = encrypted.clone();
            tampered[byte] ^= 1u8 << bit;
            assert!(matches!(
                decrypt(&master_key, &tampered),
                Err(CryptoError::DecryptionFailed(_))
            ));
        }
    }
}

#[test]
fn test_tamper_size_field_fails() {
    // Flipping a bit in the header's size field (without re-tagging) must
    // fail even though the tag still verifies.
    let master_key = [5u8; 32];
    let plaintext = b"size matters";
    let encrypted = encrypt(&master_key, plaintext).unwrap();
    for byte in 37..45 {
        let mut tampered = encrypted.clone();
        tampered[byte] ^= 0x01;
        assert!(matches!(
            decrypt(&master_key, &tampered),
            Err(CryptoError::DecryptionFailed(_))
        ));
    }
}

#[test]
fn test_truncation_is_invalid_header() {
    let master_key = [1u8; 32];
    let encrypted = encrypt(&master_key, b"abc").unwrap();
    for len in 0..HEADER_SIZE {
        assert!(matches!(
            decrypt(&master_key, &encrypted[..len]),
            Err(CryptoError::InvalidHeader(_))
        ));
    }
}

#[test]
fn test_unsupported_version_fails() {
    let master_key = [1u8; 32];
    let mut encrypted = encrypt(&master_key, b"abc").unwrap();
    encrypted[8] = 2;
    assert!(matches!(
        decrypt(&master_key, &encrypted),
        Err(CryptoError::InvalidHeader(_))
    ));
}

#[test]
fn test_foreign_magic_is_invalid_header() {
    // A well-formed envelope under a foreign magic marker is rejected as
    // InvalidHeader even though everything after the marker is intact.
    let master_key = [1u8; 32];
    let mut encrypted = encrypt(&master_key, b"abc").unwrap();
    encrypted[0] = b'X';
    assert!(matches!(
        decrypt(&master_key, &encrypted),
        Err(CryptoError::InvalidHeader(_))
    ));
}

#[test]
fn test_sha256_hex_exact_value() {
    assert_eq!(
        sha256_hex(b"hello"),
        "sha256:2cf24dba5fb0a30e26e83b2ac5b9e29e1b161e5c1fa7425e73043362938b9824"
    );
    assert_eq!(
        sha256_hex(b""),
        "sha256:e3b0c44298fc1c149afbf4c8996fb92427ae41e4649b934ca495991b7852b855"
    );
}

#[test]
fn test_digest_stable_across_calls() {
    let a = sha256_hex(b"stable");
    let b = sha256_hex(b"stable");
    assert_eq!(a, b);
    assert!(verify_hash(b"stable", &a));
}

#[test]
fn test_verify_hash_rejects_mutations() {
    let data = b"original content";
    let label = sha256_hex(data);
    for i in 0..data.len() {
        let mut mutated = data.to_vec();
        mutated[i] ^= 0x20;
        assert!(!verify_hash(&mutated, &label));
    }
}

#[test]
fn test_describe_messages() {
    let e = CryptoError::InvalidHeader("file too short".to_string());
    assert_eq!(e.describe(), "invalid file header: file too short");
    let e = CryptoError::DecryptionFailed("tag".to_string());
    assert_eq!(e.describe(), "decryption failed: tag");
}

#[test]
fn test_hex_encode_exact() {
    assert_eq!(hex_encode(&[]), "");
    assert_eq!(hex_encode(&[0x00, 0xff, 0x2a]), "00ff2a");
    let all: Vec<u8> = (0u8..=255).collect();
    let expected: String = all.iter().map(|b| format!("{b:02x}")).collect();
    assert_eq!(hex_encode(&all), expected);
}
