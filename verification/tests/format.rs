use serde_json::Value;
use spectrocap::format::{BlobFormat, CanonicalMetadata, FormatError};
use spectrocap::record::{Field, MessageRecord, RecordField};

#[test]
fn it_works() {
    assert_eq!(2 + 2, 4);
}

#[test]
fn test_blob_format_roundtrip() {
    let nonce = vec![0u8; 24];
    let ciphertext = b"test ciphertext".to_vec();

    let blob = BlobFormat::create_blob(&nonce, &ciphertext)
        .expect("Failed to create blob");

    let (n, c) = BlobFormat::parse_blob(&blob)
        .expect("Failed to parse blob");

    assert_eq!(nonce, n);
    assert_eq!(ciphertext, c);
}

#[test]
fn test_canonical_json_alphabetical() {
    let json = CanonicalMetadata::create_canonical_json(
        "msg-123",
        "dev-456",
        &["dev-456".to_string(), "dev-789".to_string()],
        "users/uid/messages/msg-123.bin",
        100,
        "2026-01-28T16:45:00Z",
    );

    assert!(json.contains("\"alg\""));
    assert!(json.contains("\"version\""));

    let parsed: serde_json::Map<String, Value> = serde_json::from_str(&json)
        .expect("Valid JSON");
    let keys: Vec<_> = parsed.keys().cloned().collect();
    let mut sorted_keys = keys.clone();
    sorted_keys.sort();
    assert_eq!(keys, sorted_keys, "Keys not in alphabetical order");
}

fn reference_json(
    message_id: &str,
    sender_device_id: &str,
    recipients: &[String],
    storage_path: &str,
    size_bytes_plain: usize,
    created_at_client: &str,
) -> String {
    let mut sorted_recipients = recipients.to_vec();
    sorted_recipients.sort();
    let mut map = serde_json::Map::new();
    map.insert("alg".to_string(), Value::from("xchacha20poly1305+sealedbox-x25519+ed25519"));
    map.insert("createdAtClient".to_string(), Value::from(created_at_client));
    map.insert("messageId".to_string(), Value::from(message_id));
    map.insert("mime".to_string(), Value::from("application/octet-stream"));
    map.insert("recipients".to_string(), Value::from(sorted_recipients));
    map.insert("senderDeviceId".to_string(), Value::from(sender_device_id));
    map.insert("sizeBytesPlain".to_string(), Value::from(size_bytes_plain));
    map.insert("storagePath".to_string(), Value::from(storage_path));
    map.insert("type".to_string(), Value::from("text"));
    map.insert("version".to_string(), Value::from("2A"));
    serde_json::to_string(&Value::Object(map)).expect("Failed to serialize")
}

#[test]
fn canonical_json_exact_text() {
    let json = CanonicalMetadata::create_canonical_json(
        "msg-123",
        "dev-456",
        &["dev-789".to_string(), "dev-456".to_string()],
        "users/uid/messages/msg-123.bin",
        100,
        "2026-01-28T16:45:00Z",
    );
    assert_eq!(
        json,
        "{\"alg\":\"xchacha20poly1305+sealedbox-x25519+ed25519\",\"createdAtClient\":\"2026-01-28T16:45:00Z\",\"messageId\":\"msg-123\",\"mime\":\"application/octet-stream\",\"recipients\":[\"dev-456\",\"dev-789\"],\"senderDeviceId\":\"dev-456\",\"sizeBytesPlain\":100,\"storagePath\":\"users/uid/messages/msg-123.bin\",\"type\":\"text\",\"version\":\"2A\"}"
    );
}

#[test]
fn canonical_json_is_what_the_serializer_writes() {
    let cases: Vec<(&str, &str, Vec<String>, &str, usize, &str)> = vec![
        ("m", "s", vec![], "p.bin", 0, "t"),
        ("m", "s", vec!["only".to_string()], "p.bin", 7, "t"),
        (
            "quote\"back\\slash",
            "tab\there\nline",
            vec!["b".to_string(), "a".to_string(), "ab".to_string(), "B".to_string(), "".to_string()],
            "users/\u{00e9}\u{4e2d}/m.bin",
            18446744073709551615,
            "\u{0001}\u{001f}\u{007f}",
        ),
        (
            "m",
            "s",
            vec!["z\u{00e9}".to_string(), "z\u{4e2d}".to_string(), "zz".to_string(), "z".to_string(), "z".to_string()],
            "p.bin",
            1234567890,
            "",
        ),
    ];
    for (id, sender, recipients, path, size, created) in cases {
        assert_eq!(
            CanonicalMetadata::create_canonical_json(id, sender, &recipients, path, size, created),
            reference_json(id, sender, &recipients, path, size, created)
        );
    }
}

#[test]
fn canonical_json_same_twice_and_in_any_order_of_recipients() {
    let one = CanonicalMetadata::create_canonical_json(
        "m1", "s1", &["d3".to_string(), "d1".to_string(), "d2".to_string()], "a.bin", 5, "now",
    );
    let again = CanonicalMetadata::create_canonical_json(
        "m1", "s1", &["d3".to_string(), "d1".to_string(), "d2".to_string()], "a.bin", 5, "now",
    );
    let reordered = CanonicalMetadata::create_canonical_json(
        "m1", "s1", &["d2".to_string(), "d3".to_string(), "d1".to_string()], "a.bin", 5, "now",
    );
    assert_eq!(one, again);
    assert_eq!(one, reordered);
    assert!(one.contains("\"recipients\":[\"d1\",\"d2\",\"d3\"]"));
}

#[test]
fn assemble_writes_members_in_fixed_order() {
    let text = CanonicalMetadata::assemble(
        "\"c\"",
        "\"m\"",
        &["\"r1\"".to_string(), "\"r2\"".to_string()],
        "\"s\"",
        "12",
        "\"p\"",
    );
    assert_eq!(
        text,
        "{\"alg\":\"xchacha20poly1305+sealedbox-x25519+ed25519\",\"createdAtClient\":\"c\",\"messageId\":\"m\",\"mime\":\"application/octet-stream\",\"recipients\":[\"r1\",\"r2\"],\"senderDeviceId\":\"s\",\"sizeBytesPlain\":12,\"storagePath\":\"p\",\"type\":\"text\",\"version\":\"2A\"}"
    );
    let none = CanonicalMetadata::assemble("1", "2", &[], "3", "4", "5");
    assert!(none.contains("\"recipients\":[],"));
}

#[test]
fn create_blob_refuses_a_nonce_of_another_length() {
    assert_eq!(BlobFormat::create_blob(&[0u8; 23], b"x"), Err(FormatError::NonceLength));
    assert_eq!(BlobFormat::create_blob(&[0u8; 25], b"x"), Err(FormatError::NonceLength));
    assert_eq!(BlobFormat::create_blob(&[], &[]), Err(FormatError::NonceLength));
    assert_eq!(FormatError::NonceLength.message(), "Nonce must be 24 bytes");
}

#[test]
fn create_blob_exact_bytes() {
    let nonce: Vec<u8> = (1..=24).collect();
    let blob = BlobFormat::create_blob(&nonce, &[0xAA, 0xBB]).unwrap();
    let mut expected = b"SCAP2A".to_vec();
    expected.extend_from_slice(&nonce);
    expected.extend_from_slice(&[0xAA, 0xBB]);
    assert_eq!(blob, expected);
    assert_eq!(blob.len(), 32);
}

#[test]
fn parse_blob_refuses_short_and_foreign_blobs() {
    assert_eq!(BlobFormat::parse_blob(&[]), Err(FormatError::TooShort));
    assert_eq!(BlobFormat::parse_blob(b"SCAP2A"), Err(FormatError::TooShort));
    let mut short = b"SCAP2A".to_vec();
    short.extend_from_slice(&[0u8; 23]);
    assert_eq!(BlobFormat::parse_blob(&short), Err(FormatError::TooShort));
    let mut foreign = b"SCAP2B".to_vec();
    foreign.extend_from_slice(&[0u8; 24]);
    assert_eq!(BlobFormat::parse_blob(&foreign), Err(FormatError::BadMagic));
    assert_eq!(FormatError::TooShort.message(), "Blob too short");
    assert_eq!(FormatError::BadMagic.message(), "Invalid blob magic");
}

#[test]
fn parse_blob_accepts_an_empty_ciphertext() {
    let mut blob = b"SCAP2A".to_vec();
    blob.extend_from_slice(&[9u8; 24]);
    let (nonce, ciphertext) = BlobFormat::parse_blob(&blob).unwrap();
    assert_eq!(nonce, vec![9u8; 24]);
    assert!(ciphertext.is_empty());
}

#[test]
fn meta_hash_is_sha256_of_the_text() {
    let hash = CanonicalMetadata::compute_meta_hash("abc");
    assert_eq!(
        hash,
        vec![
            0xba, 0x78, 0x16, 0xbf, 0x8f, 0x01, 0xcf, 0xea, 0x41, 0x41, 0x40, 0xde, 0x5d, 0xae,
            0x22, 0x23, 0xb0, 0x03, 0x61, 0xa3, 0x96, 0x17, 0x7a, 0x9c, 0xb4, 0x10, 0xff, 0x61,
            0xf2, 0x00, 0x15, 0xad,
        ]
    );
    assert!(CanonicalMetadata::verify_meta_hash("abc", &hash));
}

#[test]
fn meta_hash_changes_with_one_byte_of_the_text() {
    let text = CanonicalMetadata::create_canonical_json("m1", "s1", &[], "a.bin", 5, "now");
    let hash = CanonicalMetadata::compute_meta_hash(&text);
    let other = CanonicalMetadata::create_canonical_json("m2", "s1", &[], "a.bin", 5, "now");
    assert_ne!(hash, CanonicalMetadata::compute_meta_hash(&other));
    assert!(!CanonicalMetadata::verify_meta_hash(&other, &hash));
    let mut flipped = hash.clone();
    flipped[0] ^= 1;
    assert!(!CanonicalMetadata::verify_meta_hash(&text, &flipped));
    assert!(!CanonicalMetadata::verify_meta_hash(&text, &hash[..31]));
}

fn full_record() -> MessageRecord {
    let mut record = MessageRecord::empty();
    record.message_id = Field::Present("msg-123".to_string());
    record.sender_device_id = Field::Present("dev-456".to_string());
    record.recipients = Field::Present(vec![
        Some("dev-789".to_string()),
        None,
        Some("dev-456".to_string()),
    ]);
    record.storage_path = Field::Present("users/uid/messages/msg-123.bin".to_string());
    record.size_bytes_plain = Field::Present(100);
    record.created_at_client = Field::Present("2026-01-28T16:45:00Z".to_string());
    record
}

#[test]
fn from_firestore_doc_rebuilds_the_canonical_text() {
    let text = CanonicalMetadata::from_firestore_doc(&full_record()).unwrap();
    assert_eq!(
        text,
        CanonicalMetadata::create_canonical_json(
            "msg-123",
            "dev-456",
            &["dev-456".to_string(), "dev-789".to_string()],
            "users/uid/messages/msg-123.bin",
            100,
            "2026-01-28T16:45:00Z",
        )
    );
}

#[test]
fn from_firestore_doc_names_the_first_missing_member() {
    assert_eq!(
        CanonicalMetadata::from_firestore_doc(&MessageRecord::empty()),
        Err(RecordField::MessageId)
    );
    let mut record = full_record();
    record.sender_device_id = Field::Mistyped;
    record.created_at_client = Field::Absent;
    assert_eq!(CanonicalMetadata::from_firestore_doc(&record), Err(RecordField::SenderDeviceId));
    let mut record = full_record();
    record.recipients = Field::Absent;
    assert_eq!(CanonicalMetadata::from_firestore_doc(&record), Err(RecordField::Recipients));
    let mut record = full_record();
    record.storage_path = Field::Mistyped;
    assert_eq!(CanonicalMetadata::from_firestore_doc(&record), Err(RecordField::StoragePath));
    let mut record = full_record();
    record.size_bytes_plain = Field::Mistyped;
    assert_eq!(CanonicalMetadata::from_firestore_doc(&record), Err(RecordField::SizeBytesPlain));
    let mut record = full_record();
    record.created_at_client = Field::Absent;
    assert_eq!(CanonicalMetadata::from_firestore_doc(&record), Err(RecordField::CreatedAtClient));
    assert_eq!(RecordField::CreatedAtClient.name(), "createdAtClient");
}
