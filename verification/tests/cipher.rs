use stashcat::cipher::PayloadCipher;
use stashcat::decryptor::{decrypt_messages, Message, PossibleSender};
use stashcat::errors::Errors;

fn key32() -> Vec<u8> {
    (0u8..32).collect()
}

fn iv16() -> Vec<u8> {
    (100u8..116).collect()
}

#[test]
fn encrypt_then_decrypt_round_trips() {
    let key = key32();
    let iv = iv16();
    let plaintexts: Vec<Vec<u8>> = vec![
        Vec::new(),
        vec![0u8],
        (0u8..16).collect(),
        (0u8..255).collect(),
        b"sixteen byte blk".to_vec(),
    ];
    for pt in plaintexts {
        let ct = PayloadCipher::encrypt(&key, &iv, &pt).unwrap();
        let back = PayloadCipher::decrypt(&key, Some(&iv), &ct).unwrap();
        assert_eq!(back, pt);
    }
}

#[test]
fn encryption_matches_the_standard_cipher() {
    let key = key32();
    let iv = iv16();
    let pt = b"a known plaintext".to_vec();
    let expected = openssl::symm::encrypt(
        openssl::symm::Cipher::aes_256_cbc(),
        &key,
        Some(&iv),
        &pt,
    )
    .unwrap();
    assert_eq!(PayloadCipher::encrypt(&key, &iv, &pt).unwrap(), expected);
}

#[test]
fn missing_iv_is_a_cipher_failure() {
    let key = key32();
    let r = PayloadCipher::decrypt(&key, None, &[0u8; 16]);
    assert!(matches!(r, Err(Errors::EncryptionError(_))));
}

#[test]
fn wrong_key_length_is_a_cipher_failure() {
    let iv = iv16();
    let r = PayloadCipher::encrypt(&[0u8; 5], &iv, b"data");
    assert!(matches!(r, Err(Errors::EncryptionError(_))));
}

#[test]
fn truncated_ciphertext_is_a_cipher_failure() {
    let key = key32();
    let iv = iv16();
    let ct = PayloadCipher::encrypt(&key, &iv, b"some plaintext").unwrap();
    let r = PayloadCipher::decrypt(&key, Some(&iv), &ct[..ct.len() - 1]);
    assert!(matches!(r, Err(Errors::EncryptionError(_))));
}

fn plain_message(id: u64, text: Option<&str>, encrypted: Option<bool>, iv: Option<&str>) -> Message {
    Message {
        id,
        text: text.map(|t| t.to_string()),
        original_text: None,
        conversation_id: None,
        channel_id: None,
        thread_id: None,
        hash: None,
        verification: None,
        time: None,
        micro_time: None,
        sender: PossibleSender::Raw("system".to_string()),
        device_id: None,
        kind: None,
        is_forwarded: None,
        metainfo: None,
        has_file_attached: None,
        files: None,
        seen: None,
        unread: None,
        encrypted,
        iv: iv.map(|v| v.to_string()),
        reply_to: None,
    }
}

#[test]
fn batch_without_key_only_copies_original_text() {
    let messages = vec![
        plain_message(1, Some("aa00"), Some(true), None),
        plain_message(2, Some("hello"), Some(false), None),
        plain_message(3, None, None, None),
    ];
    let out = decrypt_messages(None, messages).unwrap();
    assert_eq!(out.len(), 3);
    assert_eq!(out[0].text.as_deref(), Some("aa00"));
    assert_eq!(out[0].original_text.as_deref(), Some("aa00"));
    assert_eq!(out[1].original_text.as_deref(), Some("hello"));
    assert!(out[2].text.is_none() && out[2].original_text.is_none());
}

#[test]
fn batch_with_key_decrypts_encrypted_messages_only() {
    let key = key32();
    let iv = iv16();
    let ct = openssl::symm::encrypt(
        openssl::symm::Cipher::aes_256_cbc(),
        &key,
        Some(&iv),
        b"first secret",
    )
    .unwrap();
    let messages = vec![
        plain_message(1, Some(&hex::encode(&ct)), Some(true), Some(&hex::encode(&iv))),
        plain_message(2, Some("already plain"), Some(false), None),
        plain_message(3, Some(""), Some(true), None),
    ];
    let out = decrypt_messages(Some(key), messages).unwrap();
    assert_eq!(out[0].text.as_deref(), Some("first secret"));
    assert_eq!(out[0].original_text.as_deref(), Some(hex::encode(&ct)).as_deref());
    assert_eq!(out[1].text.as_deref(), Some("already plain"));
    assert_eq!(out[2].text.as_deref(), Some(""));
}

#[test]
fn batch_fails_on_the_first_bad_message() {
    let key = key32();
    let messages = vec![
        plain_message(1, Some("plain one"), Some(false), None),
        plain_message(2, Some("not hex!"), Some(true), None),
    ];
    let r = decrypt_messages(Some(key), messages);
    assert!(matches!(r, Err(Errors::HexError(_))));
}
