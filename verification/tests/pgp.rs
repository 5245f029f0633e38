use email::account::pgp::{
    decrypt, decrypt_with_current_key, has_current_key_packets, sign_with_current_key, is_encryption_algorithm, select_for_encryption, select_pk_for_encryption, sign,
    signed_content, verify, EncryptionKey, KeyAlgorithm, KeyKind, KeyPair, KeyPolicy, PgpError,
    PreferredCipher, PreferredCompression, PreferredHash,
};

#[test]
fn new_key_pair() {
    let key_pair = KeyPair::new("test@localhost").unwrap();
    assert_eq!(key_pair.email, "test@localhost");
}

#[test]
fn new_key_pair_encrypts_to_its_subkey() {
    let key_pair = KeyPair::new("alice@localhost").unwrap();
    assert_eq!(select_pk_for_encryption(&key_pair.public), Some(EncryptionKey::Subkey(0)));
}

#[test]
fn sign_then_verify() {
    let key_pair = KeyPair::new("bob@localhost").unwrap();
    let signature = sign(b"hello\r\n", &key_pair.secret).unwrap();
    assert!(signature.contains("BEGIN PGP SIGNATURE"));
    assert!(verify(b"hello\r\n", signature.as_bytes(), &[key_pair.public.clone()]).is_ok());
}

#[test]
fn verify_unreadable_signature() {
    assert!(matches!(
        verify(b"content", b"not a signature", &[]),
        Err(PgpError::ImportSignatureFromArmorError(_))
    ));
}

#[test]
fn decrypt_unreadable_message() {
    let key_pair = KeyPair::new("carol@localhost").unwrap();
    assert!(matches!(
        decrypt(b"not a message".to_vec(), &key_pair.secret),
        Err(PgpError::ImportMessageFromArmorError(_))
    ));
}

#[test]
fn signed_content_drops_final_line_break() {
    assert_eq!(signed_content(b"abc\r\n"), b"abc".to_vec());
    assert_eq!(signed_content(b"a"), Vec::<u8>::new());
}

#[test]
fn encryption_key_choice() {
    assert!(is_encryption_algorithm(KeyAlgorithm::ECDH));
    assert!(!is_encryption_algorithm(KeyAlgorithm::EdDSA));
    let subkeys = vec![KeyAlgorithm::EdDSA, KeyAlgorithm::ECDH, KeyAlgorithm::RSA];
    assert_eq!(select_for_encryption(KeyAlgorithm::RSA, &subkeys), Some(EncryptionKey::Subkey(1)));
    assert_eq!(select_for_encryption(KeyAlgorithm::RSA, &vec![KeyAlgorithm::DSA]), Some(EncryptionKey::Primary));
    assert_eq!(select_for_encryption(KeyAlgorithm::EdDSA, &vec![]), None);
}

#[test]
fn encrypt_then_decrypt() {
    let key_pair = KeyPair::new("dave@localhost").unwrap();
    let mut rng = rand::thread_rng();
    let msg = pgp::Message::new_literal_bytes("", b"secret content")
        .encrypt_to_keys(
            &mut rng,
            pgp::crypto::sym::SymmetricKeyAlgorithm::AES128,
            &[&key_pair.public.public_subkeys[0]],
        )
        .unwrap();
    let armored = msg.to_armored_bytes(None).unwrap();
    assert_eq!(decrypt(armored.clone(), &key_pair.secret).unwrap(), b"secret content".to_vec());
    assert_eq!(
        decrypt_with_current_key(armored, &key_pair.secret).unwrap().unwrap(),
        b"secret content".to_vec()
    );
}

#[test]
fn generated_keys_are_current() {
    let key_pair = KeyPair::new("erin@localhost").unwrap();
    assert!(has_current_key_packets(&key_pair.secret));
    let signature = sign_with_current_key(b"hi\r\n", &key_pair.secret).unwrap().unwrap();
    assert!(signature.starts_with("-----BEGIN PGP SIGNATURE-----"));
    assert!(signature.ends_with("-----END PGP SIGNATURE-----\n"));
}

#[test]
fn standard_key_policy() {
    let p = KeyPolicy::standard();
    assert_eq!(p.primary, KeyKind::EdDsa);
    assert!(p.primary_certifies && p.primary_signs);
    assert_eq!(p.subkey, KeyKind::Ecdh);
    assert!(p.subkey_encrypts);
    assert_eq!(p.passphrase, None);
    assert_eq!(p.cipher, PreferredCipher::Aes256);
    assert_eq!(p.hash, PreferredHash::Sha2_512);
    assert_eq!(p.compression, PreferredCompression::Zlib);
    let key_pair = KeyPair::new("frank@localhost").unwrap();
    assert_eq!(key_pair.secret.secret_subkeys.len(), 1);
    assert_eq!(select_pk_for_encryption(&key_pair.public), Some(EncryptionKey::Subkey(0)));
}
