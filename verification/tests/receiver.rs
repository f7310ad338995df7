use base64::engine::general_purpose;
use base64::Engine;
use spectrocap::format::{BlobFormat, CanonicalMetadata};
use spectrocap::key_mgmt::{KeyFile, KeyManager, KeyStoreError};
use spectrocap::primitives::CryptoPrimitives;
use spectrocap::receiver::{
    has_bin_suffix, text_is, DecryptionError, DecryptionErrorKind, DecryptionResult, E2EEReceiver,
};
use spectrocap::record::{DeviceRecord, Envelope, Field, MessageRecord, RecordField};

#[test]
fn test_hard_checks_missing_version() {
    let receiver = E2EEReceiver::new().expect("Failed to create receiver");

    let mut doc = MessageRecord::empty();
    doc.storage_path = Field::Present("users/uid/messages/msg-123.bin".to_string());
    doc.envelopes = Field::Present(vec![]);
    doc.meta_hash = Field::Present("test".to_string());
    doc.signature = Field::Present("test".to_string());
    doc.nonce = Field::Present("test".to_string());

    assert!(receiver.hard_checks(&doc).is_ok());

    doc.version = Field::Present("1.0".to_string());
    assert!(receiver.hard_checks(&doc).is_err());
}

struct Scenario {
    receiver: E2EEReceiver,
    record: MessageRecord,
    sender: DeviceRecord,
    blob: Vec<u8>,
    meta_hash: Vec<u8>,
    dek: Vec<u8>,
    sign_sk: Vec<u8>,
}

fn b64(bytes: &[u8]) -> String {
    general_purpose::STANDARD.encode(bytes)
}

fn scenario(message_type: &str, payload: &[u8]) -> Scenario {
    assert!(CryptoPrimitives::init());
    let (sign_sk, sign_pk) = CryptoPrimitives::gen_sign_keypair();
    let (box_sk, box_pk) = CryptoPrimitives::gen_box_keypair();

    let canonical = CanonicalMetadata::create_canonical_json(
        "m1",
        "sender-1",
        &["d1".to_string()],
        "users/u/messages/m1.bin",
        payload.len(),
        "2026-01-28T16:45:00Z",
    );
    let meta_hash = CanonicalMetadata::compute_meta_hash(&canonical);
    let signature = CryptoPrimitives::sign(&meta_hash, &sign_sk).unwrap();

    let dek = CryptoPrimitives::gen_dek();
    let nonce = CryptoPrimitives::gen_nonce();
    let ciphertext = CryptoPrimitives::encrypt_aead(payload, &nonce, &dek, &meta_hash).unwrap();
    let blob = BlobFormat::create_blob(&nonce, &ciphertext).unwrap();
    let envelope = CryptoPrimitives::seal_box(&dek, &box_pk).unwrap();

    let mut record = MessageRecord::empty();
    record.version = Field::Present("2A".to_string());
    record.storage_path = Field::Present("users/u/messages/m1.bin".to_string());
    record.message_type = Field::Present(message_type.to_string());
    record.message_id = Field::Present("m1".to_string());
    record.sender_device_id = Field::Present("sender-1".to_string());
    record.recipients = Field::Present(vec![Some("d1".to_string())]);
    record.size_bytes_plain = Field::Present(payload.len() as u64);
    record.created_at_client = Field::Present("2026-01-28T16:45:00Z".to_string());
    record.envelopes = Field::Present(vec![
        Envelope { device_id: "d0".to_string(), sealed_key: Some(b64(b"for another device")) },
        Envelope { device_id: "d1".to_string(), sealed_key: Some(b64(&envelope)) },
    ]);
    record.meta_hash = Field::Present(b64(&meta_hash));
    record.signature = Field::Present(b64(&signature));
    record.nonce = Field::Present(b64(&nonce));

    let sender = DeviceRecord {
        pub_sign_key: Field::Present(b64(&sign_pk)),
        status: Field::Present("active".to_string()),
    };

    let mut key_manager = KeyManager::new("keys");
    key_manager.store_box_keys(&box_sk, &box_pk);
    let receiver = E2EEReceiver::with_key_manager(key_manager);

    Scenario { receiver, record, sender, blob, meta_hash, dek, sign_sk }
}

fn kind_of(answer: Result<DecryptionResult, DecryptionError>) -> DecryptionErrorKind {
    match answer {
        Ok(result) => panic!("accepted: {:?}", result),
        Err(error) => error.kind,
    }
}

fn run(s: &Scenario) -> Result<DecryptionResult, DecryptionError> {
    s.receiver.decrypt_message(&s.record, "d1", &s.sender, &s.blob)
}

#[test]
fn pipeline_decrypts_a_text_message() {
    let s = scenario("text", b"hello");
    let result = run(&s).unwrap();
    assert_eq!(result.message_type, "text");
    assert_eq!(result.plaintext, Some("hello".to_string()));
    assert_eq!(result.image_bytes, None);
    assert_eq!(result.message_id, "m1");
    assert_eq!(result.sender_device_id, "sender-1");
}

#[test]
fn pipeline_decrypts_an_image_message() {
    let png = [0x89, 0x50, 0x4E, 0x47, 0x0D, 0x0A, 0x1A, 0x0A, 1, 2, 3];
    let s = scenario("image", &png);
    let result = run(&s).unwrap();
    assert_eq!(result.message_type, "image");
    assert_eq!(result.plaintext, None);
    assert_eq!(result.image_bytes, Some(png.to_vec()));
}

#[test]
fn pipeline_takes_a_record_without_version_or_type() {
    let mut s = scenario("text", b"hello");
    s.record.version = Field::Absent;
    s.record.message_type = Field::Absent;
    let result = run(&s).unwrap();
    assert_eq!(result.message_type, "text");
    assert_eq!(result.plaintext, Some("hello".to_string()));
    s.record.version = Field::Present("".to_string());
    assert!(run(&s).is_ok());
    s.sender.status = Field::Absent;
    assert!(run(&s).is_ok());
}

#[test]
fn pipeline_rejects_a_revoked_sender() {
    let mut s = scenario("text", b"hello");
    s.sender.status = Field::Present("revoked".to_string());
    let error = run(&s).unwrap_err();
    assert_eq!(error.kind, DecryptionErrorKind::RevokedSender);
    assert_eq!(error.reason, "Sender device is revoked");
    assert_eq!(error.message(), "Decryption failed: Sender device is revoked");
}

#[test]
fn pipeline_rejects_a_revoked_sender_before_any_cryptographic_check() {
    let mut s = scenario("text", b"hello");
    s.sender.status = Field::Present("revoked".to_string());
    s.sender.pub_sign_key = Field::Absent;
    s.record.meta_hash = Field::Present("!!".to_string());
    s.record.signature = Field::Present("!!".to_string());
    s.record.message_id = Field::Absent;
    assert_eq!(
        kind_of(s.receiver.decrypt_message(&s.record, "d1", &s.sender, &[])),
        DecryptionErrorKind::RevokedSender
    );
}

#[test]
fn pipeline_rejects_a_device_without_envelope() {
    let s = scenario("text", b"hello");
    let error = s.receiver.decrypt_message(&s.record, "d2", &s.sender, &s.blob).unwrap_err();
    assert_eq!(error.kind, DecryptionErrorKind::NotARecipient);
    assert_eq!(error.reason, "No envelope for this device; not a recipient");
}

#[test]
fn envelope_that_is_no_string_addresses_nobody() {
    let mut s = scenario("text", b"hello");
    s.record.envelopes = Field::Present(vec![Envelope { device_id: "d1".to_string(), sealed_key: None }]);
    assert_eq!(kind_of(run(&s)), DecryptionErrorKind::NotARecipient);
}

#[test]
fn pipeline_rejects_another_version() {
    let mut s = scenario("text", b"hello");
    s.record.version = Field::Present("1.0".to_string());
    assert_eq!(kind_of(run(&s)), DecryptionErrorKind::UnsupportedVersion);
    s.record.version = Field::Present("2a".to_string());
    assert_eq!(kind_of(run(&s)), DecryptionErrorKind::UnsupportedVersion);
}

#[test]
fn pipeline_rejects_a_version_that_is_no_text() {
    let mut s = scenario("text", b"hello");
    s.record.version = Field::Mistyped;
    let error = run(&s).unwrap_err();
    assert_eq!(error.kind, DecryptionErrorKind::UnsupportedVersion);
    assert_eq!(error.reason, "Only Phase 2A supported");
    assert_eq!(
        s.receiver.hard_checks(&s.record).unwrap_err().kind,
        DecryptionErrorKind::UnsupportedVersion
    );
    s.record.storage_path = Field::Absent;
    s.record.envelopes = Field::Absent;
    assert_eq!(kind_of(run(&s)), DecryptionErrorKind::UnsupportedVersion);
}

#[test]
fn schema_check_takes_an_absent_an_empty_and_the_supported_version() {
    let s = scenario("text", b"hello");
    let mut record = s.record.clone();
    assert!(s.receiver.hard_checks(&record).is_ok());
    record.version = Field::Absent;
    assert!(s.receiver.hard_checks(&record).is_ok());
    record.version = Field::Present("".to_string());
    assert!(s.receiver.hard_checks(&record).is_ok());
    record.version = Field::Present("2B".to_string());
    assert!(s.receiver.hard_checks(&record).is_err());
    record.version = Field::Mistyped;
    assert!(s.receiver.hard_checks(&record).is_err());
}

#[test]
fn pipeline_rejects_a_message_type_that_is_no_text() {
    let mut s = scenario("text", b"hello");
    s.record.message_type = Field::Mistyped;
    let error = run(&s).unwrap_err();
    assert_eq!(error.kind, DecryptionErrorKind::UnsupportedType);
    let mut record = MessageRecord::empty();
    record.message_id = Field::Present("m".to_string());
    record.sender_device_id = Field::Present("s".to_string());
    record.message_type = Field::Mistyped;
    assert_eq!(
        kind_of(E2EEReceiver::validate_payload(&record, b"hello".to_vec())),
        DecryptionErrorKind::UnsupportedType
    );
    record.message_type = Field::Absent;
    assert_eq!(
        E2EEReceiver::validate_payload(&record, b"hello".to_vec()).unwrap().plaintext,
        Some("hello".to_string())
    );
}

#[test]
fn pipeline_rejects_a_storage_path_without_suffix() {
    let mut s = scenario("text", b"hello");
    s.record.storage_path = Field::Present("users/u/messages/m1.txt".to_string());
    assert_eq!(kind_of(run(&s)), DecryptionErrorKind::Format);
    s.record.storage_path = Field::Absent;
    assert_eq!(kind_of(run(&s)), DecryptionErrorKind::MissingField(RecordField::StoragePath));
}

#[test]
fn pipeline_names_the_missing_member() {
    for (field, clear) in [
        (RecordField::Envelopes, 0),
        (RecordField::MetaHash, 1),
        (RecordField::Signature, 2),
        (RecordField::Nonce, 3),
    ] {
        let mut s = scenario("text", b"hello");
        match clear {
            0 => s.record.envelopes = Field::Absent,
            1 => s.record.meta_hash = Field::Absent,
            2 => s.record.signature = Field::Absent,
            _ => s.record.nonce = Field::Absent,
        }
        let error = run(&s).unwrap_err();
        assert_eq!(error.kind, DecryptionErrorKind::MissingField(field));
        assert_eq!(error.reason, format!("Missing required field: {}", field.name()));
    }
    let mut s = scenario("text", b"hello");
    s.record.created_at_client = Field::Absent;
    assert_eq!(kind_of(run(&s)), DecryptionErrorKind::MissingField(RecordField::CreatedAtClient));
    let mut s = scenario("text", b"hello");
    s.sender.pub_sign_key = Field::Absent;
    assert_eq!(kind_of(run(&s)), DecryptionErrorKind::MissingField(RecordField::PubSignKey));
    let mut s = scenario("text", b"hello");
    s.record.envelopes = Field::Mistyped;
    assert_eq!(kind_of(run(&s)), DecryptionErrorKind::MissingField(RecordField::Envelopes));
}

#[test]
fn pipeline_rejects_altered_metadata() {
    let mut s = scenario("text", b"hello");
    s.record.size_bytes_plain = Field::Present(6);
    assert_eq!(kind_of(run(&s)), DecryptionErrorKind::Integrity);
    let mut s = scenario("text", b"hello");
    s.record.recipients = Field::Present(vec![Some("d1".to_string()), Some("d9".to_string())]);
    assert_eq!(kind_of(run(&s)), DecryptionErrorKind::Integrity);
    let mut s = scenario("text", b"hello");
    s.record.meta_hash = Field::Present("not base64".to_string());
    assert_eq!(kind_of(run(&s)), DecryptionErrorKind::Integrity);
    let mut s = scenario("text", b"hello");
    s.record.meta_hash = Field::Present(b64(&CryptoPrimitives::sha256(b"other")));
    assert_eq!(kind_of(run(&s)), DecryptionErrorKind::Integrity);
}

#[test]
fn pipeline_rejects_a_signature_that_does_not_verify() {
    let mut s = scenario("text", b"hello");
    let (_, other_pk) = CryptoPrimitives::gen_sign_keypair();
    s.sender.pub_sign_key = Field::Present(b64(&other_pk));
    assert_eq!(kind_of(run(&s)), DecryptionErrorKind::Signature);
    let mut s = scenario("text", b"hello");
    s.record.signature = Field::Present(b64(&CryptoPrimitives::sign(b"other", &s.sign_sk).unwrap()));
    assert_eq!(kind_of(run(&s)), DecryptionErrorKind::Signature);
    let mut s = scenario("text", b"hello");
    s.record.signature = Field::Present("***".to_string());
    assert_eq!(kind_of(run(&s)), DecryptionErrorKind::Signature);
    let mut s = scenario("text", b"hello");
    s.sender.pub_sign_key = Field::Present("***".to_string());
    assert_eq!(kind_of(run(&s)), DecryptionErrorKind::Signature);
    let mut s = scenario("text", b"hello");
    s.record.signature = Field::Present(b64(&[1, 2, 3]));
    assert_eq!(kind_of(run(&s)), DecryptionErrorKind::Signature);
}

#[test]
fn pipeline_rejects_an_envelope_that_does_not_open() {
    let mut s = scenario("text", b"hello");
    let (_, other_pk) = CryptoPrimitives::gen_box_keypair();
    let sealed = CryptoPrimitives::seal_box(&s.dek, &other_pk).unwrap();
    s.record.envelopes = Field::Present(vec![Envelope { device_id: "d1".to_string(), sealed_key: Some(b64(&sealed)) }]);
    assert_eq!(kind_of(run(&s)), DecryptionErrorKind::KeyUnwrap);
    s.record.envelopes = Field::Present(vec![Envelope { device_id: "d1".to_string(), sealed_key: Some("@@".to_string()) }]);
    assert_eq!(kind_of(run(&s)), DecryptionErrorKind::KeyUnwrap);
}

#[test]
fn pipeline_reports_a_key_store_without_keys() {
    let mut s = scenario("text", b"hello");
    s.receiver.load_key_file(KeyFile::BoxPrivate, None);
    assert_eq!(kind_of(run(&s)), DecryptionErrorKind::Io);
    s.receiver.load_key_file(KeyFile::BoxPrivate, Some(b"%%%".to_vec()));
    assert_eq!(kind_of(run(&s)), DecryptionErrorKind::Decode);
    s.receiver.load_key_file(KeyFile::BoxPublic, None);
    assert_eq!(kind_of(run(&s)), DecryptionErrorKind::Io);
    assert_eq!(s.receiver.key_manager().get_box_public_key(), Err(KeyStoreError::Io));
}

#[test]
fn pipeline_rejects_a_blob_that_is_not_framed() {
    let s = scenario("text", b"hello");
    assert_eq!(
        kind_of(s.receiver.decrypt_message(&s.record, "d1", &s.sender, &s.blob[..29])),
        DecryptionErrorKind::Format
    );
    let mut foreign = s.blob.clone();
    foreign[5] = b'B';
    assert_eq!(
        kind_of(s.receiver.decrypt_message(&s.record, "d1", &s.sender, &foreign)),
        DecryptionErrorKind::Format
    );
}

#[test]
fn pipeline_rejects_an_altered_blob() {
    let s = scenario("text", b"hello");
    for at in [6, 29, 30, s.blob.len() - 1] {
        let mut altered = s.blob.clone();
        altered[at] ^= 1;
        assert_eq!(
            kind_of(s.receiver.decrypt_message(&s.record, "d1", &s.sender, &altered)),
            DecryptionErrorKind::DecryptionFailed
        );
    }
    assert_eq!(
        kind_of(s.receiver.decrypt_message(&s.record, "d1", &s.sender, &s.blob[..30])),
        DecryptionErrorKind::DecryptionFailed
    );
}

#[test]
fn pipeline_rejects_a_blob_bound_to_other_metadata() {
    let s = scenario("text", b"hello");
    let nonce = CryptoPrimitives::gen_nonce();
    let ciphertext = CryptoPrimitives::encrypt_aead(b"hello", &nonce, &s.dek, b"other metadata").unwrap();
    let blob = BlobFormat::create_blob(&nonce, &ciphertext).unwrap();
    assert_eq!(
        kind_of(s.receiver.decrypt_message(&s.record, "d1", &s.sender, &blob)),
        DecryptionErrorKind::DecryptionFailed
    );
    let bound = CryptoPrimitives::encrypt_aead(b"hello", &nonce, &s.dek, &s.meta_hash).unwrap();
    let blob = BlobFormat::create_blob(&nonce, &bound).unwrap();
    assert!(s.receiver.decrypt_message(&s.record, "d1", &s.sender, &blob).is_ok());
}

#[test]
fn pipeline_rejects_text_that_is_not_utf8() {
    let s = scenario("text", &[b'h', 0xFF, b'i']);
    let error = run(&s).unwrap_err();
    assert_eq!(error.kind, DecryptionErrorKind::MalformedText);
    assert_eq!(error.reason, "Invalid UTF-8 in plaintext");
}

#[test]
fn pipeline_rejects_an_image_without_signature() {
    let s = scenario("image", b"hello");
    assert_eq!(kind_of(run(&s)), DecryptionErrorKind::MalformedImage);
    let s = scenario("image", &[0xFF, 0xD8]);
    assert_eq!(kind_of(run(&s)), DecryptionErrorKind::MalformedImage);
    let s = scenario("image", &[0xFF, 0xD8, 0xFF]);
    assert_eq!(run(&s).unwrap().image_bytes, Some(vec![0xFF, 0xD8, 0xFF]));
}

#[test]
fn pipeline_rejects_another_message_type() {
    let s = scenario("video", b"hello");
    let error = run(&s).unwrap_err();
    assert_eq!(error.kind, DecryptionErrorKind::UnsupportedType);
    let s = scenario("Text", b"hello");
    assert_eq!(kind_of(run(&s)), DecryptionErrorKind::UnsupportedType);
}

#[test]
fn validate_payload_decodes_text() {
    let mut record = MessageRecord::empty();
    record.message_id = Field::Present("m".to_string());
    record.sender_device_id = Field::Present("s".to_string());
    let result = E2EEReceiver::validate_payload(&record, "gr\u{00fc}\u{00df}e".as_bytes().to_vec()).unwrap();
    assert_eq!(result.plaintext, Some("gr\u{00fc}\u{00df}e".to_string()));
    assert_eq!(result.message_type, "text");
    assert_eq!(result.message_id, "m");
    assert_eq!(result.sender_device_id, "s");
    record.sender_device_id = Field::Absent;
    assert_eq!(
        kind_of(E2EEReceiver::validate_payload(&record, b"x".to_vec())),
        DecryptionErrorKind::MissingField(RecordField::SenderDeviceId)
    );
    record.message_id = Field::Mistyped;
    assert_eq!(
        kind_of(E2EEReceiver::validate_payload(&record, b"x".to_vec())),
        DecryptionErrorKind::MissingField(RecordField::MessageId)
    );
}

#[test]
fn check_meta_hash_wants_the_same_bytes() {
    assert_eq!(E2EEReceiver::check_meta_hash(&[1, 2], Some(vec![1, 2])).unwrap(), vec![1, 2]);
    assert_eq!(
        E2EEReceiver::check_meta_hash(&[1, 2], Some(vec![1, 3])).unwrap_err().kind,
        DecryptionErrorKind::Integrity
    );
    assert_eq!(
        E2EEReceiver::check_meta_hash(&[1, 2], Some(vec![1])).unwrap_err().kind,
        DecryptionErrorKind::Integrity
    );
    assert_eq!(
        E2EEReceiver::check_meta_hash(&[1, 2], None).unwrap_err().kind,
        DecryptionErrorKind::Integrity
    );
}

#[test]
fn open_envelope_reports_each_failure() {
    CryptoPrimitives::init();
    let (sk, pk) = CryptoPrimitives::gen_box_keypair();
    let sealed = CryptoPrimitives::seal_box(b"0123456789abcdef0123456789abcdef", &pk).unwrap();
    assert_eq!(
        E2EEReceiver::open_envelope(Some(sealed.clone()), Ok(pk.clone()), Ok(sk.clone())).unwrap(),
        b"0123456789abcdef0123456789abcdef".to_vec()
    );
    assert_eq!(
        E2EEReceiver::open_envelope(None, Ok(pk.clone()), Ok(sk.clone())).unwrap_err().kind,
        DecryptionErrorKind::KeyUnwrap
    );
    assert_eq!(
        E2EEReceiver::open_envelope(Some(sealed.clone()), Err(KeyStoreError::Io), Ok(sk.clone())).unwrap_err().kind,
        DecryptionErrorKind::Io
    );
    assert_eq!(
        E2EEReceiver::open_envelope(Some(sealed.clone()), Ok(pk.clone()), Err(KeyStoreError::Decode)).unwrap_err().kind,
        DecryptionErrorKind::Decode
    );
    assert_eq!(
        E2EEReceiver::open_envelope(Some(sealed), Ok(pk), Ok(vec![0u8; 31])).unwrap_err().kind,
        DecryptionErrorKind::KeyUnwrap
    );
}

#[test]
fn every_kind_has_its_sentence() {
    let kinds = [
        (DecryptionErrorKind::UnsupportedVersion, "Only Phase 2A supported"),
        (DecryptionErrorKind::Format, "Expected .bin storage and a framed blob"),
        (DecryptionErrorKind::RevokedSender, "Sender device is revoked"),
        (DecryptionErrorKind::Integrity, "metaHash mismatch; metadata tampered"),
        (DecryptionErrorKind::Signature, "Signature verification failed"),
        (DecryptionErrorKind::NotARecipient, "No envelope for this device; not a recipient"),
        (DecryptionErrorKind::KeyUnwrap, "Failed to decrypt DEK (sealed box open failed)"),
        (DecryptionErrorKind::DecryptionFailed, "AEAD decryption failed (authentication failed or wrong key)"),
        (DecryptionErrorKind::MalformedText, "Invalid UTF-8 in plaintext"),
        (DecryptionErrorKind::MalformedImage, "Image magic bytes validation failed; payload corrupted or tampered"),
        (DecryptionErrorKind::UnsupportedType, "Unsupported message type"),
        (DecryptionErrorKind::Io, "Failed to read key file"),
        (DecryptionErrorKind::Decode, "Failed to decode key"),
        (DecryptionErrorKind::MissingField(RecordField::Nonce), "Missing required field: nonce"),
    ];
    for (kind, sentence) in kinds {
        let error = DecryptionError::new(kind);
        assert_eq!(error.kind, kind);
        assert_eq!(error.reason, sentence);
        assert_eq!(error.message(), format!("Decryption failed: {}", sentence));
    }
}

#[test]
fn receiver_on_a_key_directory_starts_without_keys() {
    let receiver = E2EEReceiver::with_key_dir("some/dir");
    assert_eq!(receiver.key_manager().key_dir(), "some/dir");
    assert!(!receiver.key_manager().has_keys());
}

#[test]
fn suffix_and_text_comparisons() {
    assert!(has_bin_suffix("a.bin"));
    assert!(has_bin_suffix(".bin"));
    assert!(has_bin_suffix("\u{4e2d}.bin"));
    assert!(!has_bin_suffix("bin"));
    assert!(!has_bin_suffix("a.bin "));
    assert!(!has_bin_suffix("a.BIN"));
    assert!(!has_bin_suffix(""));
    assert!(text_is("2A", "2A"));
    assert!(!text_is("2A", "2a"));
    assert!(!text_is("2A", "2A "));
    assert!(text_is("", ""));
}

#[test]
fn envelope_lookup_takes_the_first_match() {
    let envelopes = vec![
        Envelope { device_id: "a".to_string(), sealed_key: Some("one".to_string()) },
        Envelope { device_id: "b".to_string(), sealed_key: None },
        Envelope { device_id: "a".to_string(), sealed_key: Some("two".to_string()) },
    ];
    assert_eq!(MessageRecord::find_envelope(&envelopes, "a"), Some(&"one".to_string()));
    assert_eq!(MessageRecord::find_envelope(&envelopes, "b"), None);
    assert_eq!(MessageRecord::find_envelope(&envelopes, "c"), None);
    assert_eq!(
        MessageRecord::recipient_ids(&vec![Some("x".to_string()), None, Some("y".to_string())]),
        vec!["x".to_string(), "y".to_string()]
    );
    assert!(Field::<String>::Mistyped.is_there());
    assert!(!Field::<String>::Absent.is_there());
}
