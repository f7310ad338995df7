//! Framing of the encrypted blob, `magic || nonce || ciphertext-with-tag`, and
//! the canonical form of a message's metadata with its integrity hash.

use vstd::prelude::*;
use vstd::string::{StringExecFns, StringSliceAdditionalSpecFns};
use vstd::utf8::encode_utf8;
use crate::bytes::{bytes_equal, copy_range};
use crate::encoding::{decimal_text, json_number, json_string, json_string_encoding};
use crate::order::{sort_texts, sorted_texts, texts};
use crate::primitives::{sha256_digest, CryptoPrimitives, DIGEST_LEN};
use crate::record::{recipient_texts, Field, MessageRecord, RecordField};

verus! {

/// Number of bytes in the magic constant that opens every blob.
pub const MAGIC_LEN: usize = 6;

/// Number of bytes in the nonce that follows the magic constant.
pub const NONCE_LEN: usize = 24;

/// The magic constant: the ASCII text `SCAP2A`.
pub open spec fn blob_magic() -> Seq<u8> {
    seq![0x53u8, 0x43u8, 0x41u8, 0x50u8, 0x32u8, 0x41u8]
}

/// The framed form of a nonce and a ciphertext.
pub open spec fn blob_of(nonce: Seq<u8>, ciphertext: Seq<u8>) -> Seq<u8> {
    blob_magic() + nonce + ciphertext
}

/// A blob is well framed when it is long enough to hold the magic constant and
/// a nonce, and opens with the magic constant.
pub open spec fn well_framed(blob: Seq<u8>) -> bool {
    blob.len() >= MAGIC_LEN + NONCE_LEN && blob.subrange(0, MAGIC_LEN as int) == blob_magic()
}

/// The nonce carried by a well-framed blob.
pub open spec fn blob_nonce(blob: Seq<u8>) -> Seq<u8> {
    blob.subrange(MAGIC_LEN as int, MAGIC_LEN + NONCE_LEN)
}

/// The ciphertext carried by a well-framed blob.
pub open spec fn blob_ciphertext(blob: Seq<u8>) -> Seq<u8> {
    blob.subrange(MAGIC_LEN + NONCE_LEN, blob.len() as int)
}

/// Why a blob could not be built or split.
#[derive(Clone, Copy, Debug, PartialEq, Eq, Structural)]
pub enum FormatError {
    /// The nonce handed to `create_blob` does not have `NONCE_LEN` bytes.
    NonceLength,
    /// The blob is shorter than the magic constant and a nonce together.
    TooShort,
    /// The blob does not open with the magic constant.
    BadMagic,
}

impl FormatError {
    /// A description for the operator.
    pub fn message(&self) -> (text: String)
        ensures
            text@ == match *self {
                FormatError::NonceLength => "Nonce must be 24 bytes"@,
                FormatError::TooShort => "Blob too short"@,
                FormatError::BadMagic => "Invalid blob magic"@,
            },
    {
        match self {
            FormatError::NonceLength => "Nonce must be 24 bytes".to_string(),
            FormatError::TooShort => "Blob too short".to_string(),
            FormatError::BadMagic => "Invalid blob magic".to_string(),
        }
    }
}

pub struct BlobFormat;

impl BlobFormat {
    /// Frames a nonce and a ciphertext. Fails exactly when the nonce does not
    /// have `NONCE_LEN` bytes.
    pub fn create_blob(nonce: &[u8], ciphertext: &[u8]) -> (framed: Result<Vec<u8>, FormatError>)
        ensures
            match framed {
                Ok(blob) => nonce@.len() == NONCE_LEN && blob@ == blob_of(nonce@, ciphertext@),
                Err(e) => nonce@.len() != NONCE_LEN && e == FormatError::NonceLength,
            },
    {
        if nonce.len() != NONCE_LEN {
            return Err(FormatError::NonceLength);
        }
        let mut blob: Vec<u8> = Vec::new();
        blob.push(0x53);
        blob.push(0x43);
        blob.push(0x41);
        blob.push(0x50);
        blob.push(0x32);
        blob.push(0x41);
        assert(blob@ =~= blob_magic());
        blob.extend_from_slice(nonce);
        blob.extend_from_slice(ciphertext);
        Ok(blob)
    }

    /// Splits a blob into its nonce and its ciphertext. Fails exactly when the
    /// blob is not well framed; the ciphertext's length is not constrained.
    pub fn parse_blob(blob: &[u8]) -> (parts: Result<(Vec<u8>, Vec<u8>), FormatError>)
        ensures
            match parts {
                Ok(pair) => well_framed(blob@) && pair.0@ == blob_nonce(blob@) && pair.1@
                    == blob_ciphertext(blob@),
                Err(FormatError::TooShort) => blob@.len() < MAGIC_LEN + NONCE_LEN,
                Err(FormatError::BadMagic) => blob@.len() >= MAGIC_LEN + NONCE_LEN && !well_framed(
                    blob@,
                ),
                Err(FormatError::NonceLength) => false,
            },
    {
        if blob.len() < MAGIC_LEN + NONCE_LEN {
            return Err(FormatError::TooShort);
        }
        let magic_found = blob[0] == 0x53 && blob[1] == 0x43 && blob[2] == 0x41 && blob[3] == 0x50
            && blob[4] == 0x32 && blob[5] == 0x41;
        proof {
            let head = blob@.subrange(0, MAGIC_LEN as int);
            if magic_found {
                assert(head =~= blob_magic());
            } else {
                assert(head[0] == blob@[0] && head[1] == blob@[1] && head[2] == blob@[2] && head[3]
                    == blob@[3] && head[4] == blob@[4] && head[5] == blob@[5]);
            }
        }
        if !magic_found {
            return Err(FormatError::BadMagic);
        }
        let nonce = copy_range(blob, MAGIC_LEN, MAGIC_LEN + NONCE_LEN);
        let ciphertext = copy_range(blob, MAGIC_LEN + NONCE_LEN, blob.len());
        Ok((nonce, ciphertext))
    }
}

/// Splitting a framed blob gives back the nonce and the ciphertext it was built
/// from.
pub proof fn lemma_blob_round_trip(nonce: Seq<u8>, ciphertext: Seq<u8>)
    requires
        nonce.len() == NONCE_LEN,
    ensures
        well_framed(blob_of(nonce, ciphertext)),
        blob_nonce(blob_of(nonce, ciphertext)) == nonce,
        blob_ciphertext(blob_of(nonce, ciphertext)) == ciphertext,
{
    let blob = blob_of(nonce, ciphertext);
    assert(blob.subrange(0, MAGIC_LEN as int) =~= blob_magic());
    assert(blob_nonce(blob) =~= nonce);
    assert(blob_ciphertext(blob) =~= ciphertext);
}

/// The texts joined by commas.
pub open spec fn comma_joined(items: Seq<Seq<char>>) -> Seq<char>
    decreases items.len(),
{
    if items.len() == 0 {
        Seq::empty()
    } else if items.len() == 1 {
        items[0]
    } else {
        comma_joined(items.drop_last()) + ","@ + items.last()
    }
}

/// The JSON string literal of each text.
pub open spec fn string_literals(items: Seq<Seq<char>>) -> Seq<Seq<char>> {
    Seq::new(items.len(), |i: int| json_string_encoding(items[i]))
}

/// The canonical object, given the JSON text of each member that varies. The
/// members stand in alphabetical order of their names; `alg`, `mime`, `type`
/// and `version` are fixed.
pub open spec fn canonical_object(
    created_at_client: Seq<char>,
    message_id: Seq<char>,
    recipients: Seq<Seq<char>>,
    sender_device_id: Seq<char>,
    size_bytes_plain: Seq<char>,
    storage_path: Seq<char>,
) -> Seq<char> {
    "{\"alg\":\"xchacha20poly1305+sealedbox-x25519+ed25519\",\"createdAtClient\":"@
        + created_at_client + ",\"messageId\":"@ + message_id
        + ",\"mime\":\"application/octet-stream\",\"recipients\":["@ + comma_joined(recipients)
        + "],\"senderDeviceId\":"@ + sender_device_id + ",\"sizeBytesPlain\":"@ + size_bytes_plain
        + ",\"storagePath\":"@ + storage_path + ",\"type\":\"text\",\"version\":\"2A\"}"@
}

/// The canonical metadata of a message: the canonical object with each text
/// as a JSON string literal, the recipients in ascending order and the size in
/// decimal digits.
pub open spec fn canonical_text(
    message_id: Seq<char>,
    sender_device_id: Seq<char>,
    recipients: Seq<Seq<char>>,
    storage_path: Seq<char>,
    size_bytes_plain: nat,
    created_at_client: Seq<char>,
) -> Seq<char> {
    canonical_object(
        json_string_encoding(created_at_client),
        json_string_encoding(message_id),
        string_literals(sorted_texts(recipients)),
        json_string_encoding(sender_device_id),
        decimal_text(size_bytes_plain),
        json_string_encoding(storage_path),
    )
}

/// The integrity hash of a canonical text: SHA-256 over its UTF-8 bytes.
pub open spec fn meta_hash_of(canonical_json: Seq<char>) -> Seq<u8> {
    sha256_digest(encode_utf8(canonical_json))
}

/// The first of the members that the canonical form needs which the record
/// lacks, or holds with another type than expected.
pub open spec fn first_missing(record: MessageRecord) -> Option<RecordField> {
    if !(record.message_id is Present) {
        Some(RecordField::MessageId)
    } else if !(record.sender_device_id is Present) {
        Some(RecordField::SenderDeviceId)
    } else if !(record.recipients is Present) {
        Some(RecordField::Recipients)
    } else if !(record.storage_path is Present) {
        Some(RecordField::StoragePath)
    } else if !(record.size_bytes_plain is Present) {
        Some(RecordField::SizeBytesPlain)
    } else if !(record.created_at_client is Present) {
        Some(RecordField::CreatedAtClient)
    } else {
        None
    }
}

/// The canonical metadata that a record stands for, or the member that keeps
/// it from having one.
pub open spec fn canonical_of(record: MessageRecord) -> Result<Seq<char>, RecordField> {
    match first_missing(record) {
        Some(field) => Err(field),
        None => Ok(
            canonical_text(
                record.message_id->Present_0@,
                record.sender_device_id->Present_0@,
                recipient_texts(record.recipients->Present_0@),
                record.storage_path->Present_0@,
                record.size_bytes_plain->Present_0 as usize as nat,
                record.created_at_client->Present_0@,
            ),
        ),
    }
}

/// Canonical metadata of a message: a JSON object with a fixed order of
/// members, and its hash.
pub struct CanonicalMetadata;

impl CanonicalMetadata {
    /// Writes the canonical object from the JSON text of each member that
    /// varies.
    pub fn assemble(
        created_at_client: &str,
        message_id: &str,
        recipients: &[String],
        sender_device_id: &str,
        size_bytes_plain: &str,
        storage_path: &str,
    ) -> (text: String)
        ensures
            text@ == canonical_object(
                created_at_client@,
                message_id@,
                texts(recipients@),
                sender_device_id@,
                size_bytes_plain@,
                storage_path@,
            ),
    {
        let mut text = String::from_str(
            "{\"alg\":\"xchacha20poly1305+sealedbox-x25519+ed25519\",\"createdAtClient\":",
        );
        text.append(created_at_client);
        text.append(",\"messageId\":");
        text.append(message_id);
        text.append(",\"mime\":\"application/octet-stream\",\"recipients\":[");
        let ghost opening = text@;
        let ghost items = texts(recipients@);
        let mut i: usize = 0;
        assert(items.take(0) =~= Seq::<Seq<char>>::empty());
        assert(text@ =~= opening + comma_joined(items.take(0)));
        while i < recipients.len()
            invariant
                i <= recipients@.len(),
                items == texts(recipients@),
                text@ == opening + comma_joined(items.take(i as int)),
            decreases recipients@.len() - i,
        {
            proof {
                let next = items.take(i + 1);
                assert(next.drop_last() =~= items.take(i as int));
                assert(next.last() == recipients@[i as int]@);
                if i == 0 {
                    assert(comma_joined(next) =~= comma_joined(items.take(0)) + next[0]);
                }
            }
            if i > 0 {
                text.append(",");
            }
            text.append(recipients[i].as_str());
            i += 1;
            assert(text@ =~= opening + comma_joined(items.take(i as int)));
        }
        assert(items.take(i as int) =~= items);
        text.append("],\"senderDeviceId\":");
        text.append(sender_device_id);
        text.append(",\"sizeBytesPlain\":");
        text.append(size_bytes_plain);
        text.append(",\"storagePath\":");
        text.append(storage_path);
        text.append(",\"type\":\"text\",\"version\":\"2A\"}");
        text
    }

    /// The canonical metadata of a message. The same values give the same
    /// text, in whatever order the recipients are given.
    pub fn create_canonical_json(
        message_id: &str,
        sender_device_id: &str,
        recipients: &[String],
        storage_path: &str,
        size_bytes_plain: usize,
        created_at_client: &str,
    ) -> (text: String)
        ensures
            text@ == canonical_text(
                message_id@,
                sender_device_id@,
                texts(recipients@),
                storage_path@,
                size_bytes_plain as nat,
                created_at_client@,
            ),
    {
        let sorted = sort_texts(recipients);
        let mut literals: Vec<String> = Vec::new();
        let mut i: usize = 0;
        while i < sorted.len()
            invariant
                i <= sorted@.len(),
                literals@.len() == i,
                forall|j: int|
                    0 <= j < i ==> (#[trigger] literals@[j])@ == json_string_encoding(sorted@[j]@),
            decreases sorted@.len() - i,
        {
            literals.push(json_string(sorted[i].as_str()));
            i += 1;
        }
        assert(texts(literals@) =~= string_literals(texts(sorted@)));
        let created = json_string(created_at_client);
        let id = json_string(message_id);
        let sender = json_string(sender_device_id);
        let size = json_number(size_bytes_plain as u64);
        let path = json_string(storage_path);
        Self::assemble(
            created.as_str(),
            id.as_str(),
            literals.as_slice(),
            sender.as_str(),
            size.as_str(),
            path.as_str(),
        )
    }

    /// The integrity hash of a canonical text.
    pub fn compute_meta_hash(canonical_json: &str) -> (hash: Vec<u8>)
        ensures
            hash@ == meta_hash_of(canonical_json@),
            hash@.len() == DIGEST_LEN,
    {
        CryptoPrimitives::sha256(canonical_json.as_bytes())
    }

    /// Whether `meta_hash_expected` is the integrity hash of the canonical
    /// text.
    pub fn verify_meta_hash(canonical_json: &str, meta_hash_expected: &[u8]) -> (matches: bool)
        ensures
            matches == (meta_hash_of(canonical_json@) == meta_hash_expected@),
    {
        let computed = Self::compute_meta_hash(canonical_json);
        bytes_equal(computed.as_slice(), meta_hash_expected)
    }

    /// The canonical metadata that a record stands for. Fails, naming the
    /// member, when one of the members it is made of is absent or has another
    /// type than expected; the first such member in the order `messageId`,
    /// `senderDeviceId`, `recipients`, `storagePath`, `sizeBytesPlain`,
    /// `createdAtClient` is named.
    pub fn from_firestore_doc(doc: &MessageRecord) -> (text: Result<String, RecordField>)
        ensures
            match text {
                Ok(t) => canonical_of(*doc) == Ok::<Seq<char>, RecordField>(t@),
                Err(field) => canonical_of(*doc) == Err::<Seq<char>, RecordField>(field),
            },
    {
        let message_id = match &doc.message_id {
            Field::Present(text) => text,
            _ => return Err(RecordField::MessageId),
        };
        let sender_device_id = match &doc.sender_device_id {
            Field::Present(text) => text,
            _ => return Err(RecordField::SenderDeviceId),
        };
        let recipients = match &doc.recipients {
            Field::Present(entries) => MessageRecord::recipient_ids(entries),
            _ => return Err(RecordField::Recipients),
        };
        let storage_path = match &doc.storage_path {
            Field::Present(text) => text,
            _ => return Err(RecordField::StoragePath),
        };
        let size_bytes_plain = match &doc.size_bytes_plain {
            Field::Present(size) => #[verifier::truncate]
            (*size as usize),
            _ => return Err(RecordField::SizeBytesPlain),
        };
        let created_at_client = match &doc.created_at_client {
            Field::Present(text) => text,
            _ => return Err(RecordField::CreatedAtClient),
        };
        Ok(
            Self::create_canonical_json(
                message_id.as_str(),
                sender_device_id.as_str(),
                recipients.as_slice(),
                storage_path.as_str(),
                size_bytes_plain,
                created_at_client.as_str(),
            ),
        )
    }
}

/// Recipients given in another order have the same canonical metadata.
pub proof fn lemma_canonical_ignores_recipient_order(
    message_id: Seq<char>,
    sender_device_id: Seq<char>,
    recipients: Seq<Seq<char>>,
    reordered: Seq<Seq<char>>,
    storage_path: Seq<char>,
    size_bytes_plain: nat,
    created_at_client: Seq<char>,
)
    requires
        recipients.to_multiset() == reordered.to_multiset(),
    ensures
        canonical_text(
            message_id,
            sender_device_id,
            recipients,
            storage_path,
            size_bytes_plain,
            created_at_client,
        ) == canonical_text(
            message_id,
            sender_device_id,
            reordered,
            storage_path,
            size_bytes_plain,
            created_at_client,
        ),
{
    crate::order::lemma_sorted_texts_of_permutation(recipients, reordered);
}

} // verus!
