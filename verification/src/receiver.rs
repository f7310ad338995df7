//! The receiving pipeline: schema check, sender trust, integrity,
//! authenticity, key recovery, blob parsing, payload decryption and payload
//! validation, in this order. Each stage either passes its result on or ends
//! the pipeline with the kind of its failure; nothing is accepted in part.

use vstd::prelude::*;
use vstd::string::{StringExecFns, StringSliceAdditionalSpecFns};
use vstd::utf8::{decode_utf8, encode_utf8, encode_utf8_decode_utf8, valid_utf8};
use crate::bytes::{bytes_equal, option_bytes};
use crate::encoding::{base64_decode, base64_decoding, utf8_text};
use crate::format::{
    blob_ciphertext,
    blob_nonce,
    canonical_of,
    meta_hash_of,
    well_framed,
    BlobFormat,
    CanonicalMetadata,
};
use crate::key_mgmt::{
    default_key_dir,
    read_view,
    KeyFile,
    KeyManager,
    KeyProtection,
    KeyStoreError,
};
use crate::media::{is_jpeg, is_png, ImageValidator};
use crate::primitives::{aead_plaintext, signature_accepted, unsealed, CryptoPrimitives};
use crate::record::{
    envelope_for,
    field_name,
    field_text,
    DeviceRecord,
    Field,
    MessageRecord,
    RecordField,
};

verus! {

/// The kinds of failure of the pipeline.
#[derive(Clone, Copy, Debug, PartialEq, Eq, Structural)]
pub enum DecryptionErrorKind {
    /// The record states a version other than the supported one.
    UnsupportedVersion,
    /// The storage path lacks the expected suffix, or the blob is not well
    /// framed.
    Format,
    /// A member that the pipeline needs is absent or of another type.
    MissingField(RecordField),
    /// The sender's device is revoked.
    RevokedSender,
    /// The stated metadata hash is not the hash of the metadata.
    Integrity,
    /// The signature over the metadata hash does not verify.
    Signature,
    /// No envelope is addressed to this device.
    NotARecipient,
    /// The envelope does not open to a key.
    KeyUnwrap,
    /// The payload does not decrypt: wrong key, altered ciphertext or other
    /// metadata.
    DecryptionFailed,
    /// A text payload is not valid UTF-8.
    MalformedText,
    /// An image payload does not open with a known image signature.
    MalformedImage,
    /// The record states a message type other than text and image.
    UnsupportedType,
    /// One of this device's key files is not there.
    Io,
    /// One of this device's key files does not decode.
    Decode,
}

/// What an error says of its kind.
pub open spec fn reason_text(kind: DecryptionErrorKind) -> Seq<char> {
    match kind {
        DecryptionErrorKind::UnsupportedVersion => "Only Phase 2A supported"@,
        DecryptionErrorKind::Format => "Expected .bin storage and a framed blob"@,
        DecryptionErrorKind::MissingField(field) => "Missing required field: "@ + field_name(
            field,
        ),
        DecryptionErrorKind::RevokedSender => "Sender device is revoked"@,
        DecryptionErrorKind::Integrity => "metaHash mismatch; metadata tampered"@,
        DecryptionErrorKind::Signature => "Signature verification failed"@,
        DecryptionErrorKind::NotARecipient => "No envelope for this device; not a recipient"@,
        DecryptionErrorKind::KeyUnwrap => "Failed to decrypt DEK (sealed box open failed)"@,
        DecryptionErrorKind::DecryptionFailed => "AEAD decryption failed (authentication failed or wrong key)"@,
        DecryptionErrorKind::MalformedText => "Invalid UTF-8 in plaintext"@,
        DecryptionErrorKind::MalformedImage => "Image magic bytes validation failed; payload corrupted or tampered"@,
        DecryptionErrorKind::UnsupportedType => "Unsupported message type"@,
        DecryptionErrorKind::Io => "Failed to read key file"@,
        DecryptionErrorKind::Decode => "Failed to decode key"@,
    }
}

/// The failure of the pipeline: its kind, and a sentence for the operator
/// that says no more than the kind does.
#[derive(Debug)]
pub struct DecryptionError {
    pub kind: DecryptionErrorKind,
    pub reason: String,
}

impl DecryptionError {
    /// The error says of its kind what `reason_text` gives.
    pub open spec fn well_formed(&self) -> bool {
        self.reason@ == reason_text(self.kind)
    }

    /// The error of a kind.
    pub fn new(kind: DecryptionErrorKind) -> (error: DecryptionError)
        ensures
            error.kind == kind,
            error.well_formed(),
    {
        let reason = match kind {
            DecryptionErrorKind::UnsupportedVersion => "Only Phase 2A supported".to_string(),
            DecryptionErrorKind::Format => "Expected .bin storage and a framed blob".to_string(),
            DecryptionErrorKind::MissingField(field) => {
                let name = field.name();
                String::from_str("Missing required field: ").concat(name.as_str())
            },
            DecryptionErrorKind::RevokedSender => "Sender device is revoked".to_string(),
            DecryptionErrorKind::Integrity => "metaHash mismatch; metadata tampered".to_string(),
            DecryptionErrorKind::Signature => "Signature verification failed".to_string(),
            DecryptionErrorKind::NotARecipient => "No envelope for this device; not a recipient".to_string(),
            DecryptionErrorKind::KeyUnwrap => "Failed to decrypt DEK (sealed box open failed)".to_string(),
            DecryptionErrorKind::DecryptionFailed => "AEAD decryption failed (authentication failed or wrong key)".to_string(),
            DecryptionErrorKind::MalformedText => "Invalid UTF-8 in plaintext".to_string(),
            DecryptionErrorKind::MalformedImage => "Image magic bytes validation failed; payload corrupted or tampered".to_string(),
            DecryptionErrorKind::UnsupportedType => "Unsupported message type".to_string(),
            DecryptionErrorKind::Io => "Failed to read key file".to_string(),
            DecryptionErrorKind::Decode => "Failed to decode key".to_string(),
        };
        DecryptionError { kind, reason }
    }

    /// The error as one line.
    pub fn message(&self) -> (text: String)
        ensures
            text@ == "Decryption failed: "@ + self.reason@,
    {
        String::from_str("Decryption failed: ").concat(self.reason.as_str())
    }
}

/// The kind under which the pipeline reports a failure of the key store.
pub open spec fn key_fault(error: KeyStoreError) -> DecryptionErrorKind {
    match error {
        KeyStoreError::Io => DecryptionErrorKind::Io,
        KeyStoreError::Decode => DecryptionErrorKind::Decode,
    }
}

/// What the pipeline gives for a message that it accepts.
#[derive(Debug)]
pub struct DecryptionResult {
    /// The text of a text message.
    pub plaintext: Option<String>,
    /// The bytes of an image message.
    pub image_bytes: Option<Vec<u8>>,
    /// `text` or `image`.
    pub message_type: String,
    pub message_id: String,
    pub sender_device_id: String,
}

/// The mathematical form of a `DecryptionResult`.
pub struct Decrypted {
    pub plaintext: Option<Seq<char>>,
    pub image_bytes: Option<Seq<u8>>,
    pub message_type: Seq<char>,
    pub message_id: Seq<char>,
    pub sender_device_id: Seq<char>,
}

impl View for DecryptionResult {
    type V = Decrypted;

    open spec fn view(&self) -> Decrypted {
        Decrypted {
            plaintext: match self.plaintext {
                Some(text) => Some(text@),
                None => None,
            },
            image_bytes: match self.image_bytes {
                Some(bytes) => Some(bytes@),
                None => None,
            },
            message_type: self.message_type@,
            message_id: self.message_id@,
            sender_device_id: self.sender_device_id@,
        }
    }
}

/// The UTF-8 bytes of the suffix `.bin`.
pub open spec fn bin_suffix() -> Seq<u8> {
    seq![0x2Eu8, 0x62u8, 0x69u8, 0x6Eu8]
}

/// Whether the UTF-8 form of a path ends in `.bin`.
pub open spec fn ends_with_bin(path: Seq<char>) -> bool {
    let bytes = encode_utf8(path);
    bytes.len() >= 4 && bytes.subrange(bytes.len() - 4, bytes.len() as int) == bin_suffix()
}

/// Whether a record's version is one that the pipeline takes: no version at
/// all, the empty text, or `2A`. A version of another type than text is none
/// of these.
pub open spec fn version_supported(version: Field<String>) -> bool {
    match version {
        Field::Absent => true,
        Field::Mistyped => false,
        Field::Present(text) => text@.len() == 0 || text@ == "2A"@,
    }
}

/// The message type that a record states: `text` where it states none, and
/// nothing where what it states is of another type than text.
pub open spec fn stated_type(message_type: Field<String>) -> Option<Seq<char>> {
    match message_type {
        Field::Absent => Some("text"@),
        Field::Mistyped => None,
        Field::Present(text) => Some(text@),
    }
}

/// What the schema check finds wrong with a record, if anything: first the
/// version, then the storage path, then the presence of `envelopes`,
/// `metaHash`, `signature` and `nonce`, in this order.
pub open spec fn schema_fault(record: MessageRecord) -> Option<DecryptionErrorKind> {
    if !version_supported(record.version) {
        Some(DecryptionErrorKind::UnsupportedVersion)
    } else if !(record.storage_path is Present) {
        Some(DecryptionErrorKind::MissingField(RecordField::StoragePath))
    } else if !ends_with_bin(record.storage_path->Present_0@) {
        Some(DecryptionErrorKind::Format)
    } else if record.envelopes is Absent {
        Some(DecryptionErrorKind::MissingField(RecordField::Envelopes))
    } else if record.meta_hash is Absent {
        Some(DecryptionErrorKind::MissingField(RecordField::MetaHash))
    } else if record.signature is Absent {
        Some(DecryptionErrorKind::MissingField(RecordField::Signature))
    } else if record.nonce is Absent {
        Some(DecryptionErrorKind::MissingField(RecordField::Nonce))
    } else {
        None
    }
}

/// Whether the sender's device is revoked. A device without a status is
/// active.
pub open spec fn sender_revoked(sender: DeviceRecord) -> bool {
    field_text(sender.status) == Some("revoked"@)
}

/// What base64 text stands for.
pub open spec fn decoded(text: Seq<char>) -> Option<Seq<u8>> {
    base64_decoding(encode_utf8(text))
}

/// The verdict on a stated metadata hash, given the hash of the metadata: the
/// stated hash where it decodes and is the same, else `Integrity`.
pub open spec fn hash_verdict(computed: Seq<u8>, stated: Option<Seq<u8>>) -> Result<
    Seq<u8>,
    DecryptionErrorKind,
> {
    match stated {
        Some(hash) => if hash == computed {
            Ok(hash)
        } else {
            Err(DecryptionErrorKind::Integrity)
        },
        None => Err(DecryptionErrorKind::Integrity),
    }
}

/// The verified metadata hash of a record, or why it has none.
pub open spec fn verified_hash(record: MessageRecord) -> Result<Seq<u8>, DecryptionErrorKind> {
    match canonical_of(record) {
        Err(field) => Err(DecryptionErrorKind::MissingField(field)),
        Ok(canonical) => match field_text(record.meta_hash) {
            None => Err(DecryptionErrorKind::MissingField(RecordField::MetaHash)),
            Some(stated) => hash_verdict(meta_hash_of(canonical), decoded(stated)),
        },
    }
}

/// What the authenticity check finds wrong, if anything.
pub open spec fn signature_fault(
    record: MessageRecord,
    sender_key: Seq<char>,
    meta_hash: Seq<u8>,
) -> Option<DecryptionErrorKind> {
    match field_text(record.signature) {
        None => Some(DecryptionErrorKind::MissingField(RecordField::Signature)),
        Some(stated) => match (decoded(stated), decoded(sender_key)) {
            (Some(signature), Some(public_key)) => if signature_accepted(
                meta_hash,
                signature,
                public_key,
            ) {
                None
            } else {
                Some(DecryptionErrorKind::Signature)
            },
            _ => Some(DecryptionErrorKind::Signature),
        },
    }
}

/// The verdict on an envelope, given this device's key-wrap keys as read from
/// the key store.
pub open spec fn envelope_verdict(
    sealed: Option<Seq<u8>>,
    public_key: Result<Seq<u8>, KeyStoreError>,
    secret_key: Result<Seq<u8>, KeyStoreError>,
) -> Result<Seq<u8>, DecryptionErrorKind> {
    match sealed {
        None => Err(DecryptionErrorKind::KeyUnwrap),
        Some(sealed_key) => match public_key {
            Err(e) => Err(key_fault(e)),
            Ok(pk) => match secret_key {
                Err(e) => Err(key_fault(e)),
                Ok(sk) => match unsealed(sealed_key, pk, sk) {
                    Some(dek) => Ok(dek),
                    None => Err(DecryptionErrorKind::KeyUnwrap),
                },
            },
        },
    }
}

/// The data encryption key that a record holds for a device, or why the
/// device gets none.
pub open spec fn recovered_dek(
    keys: KeyManager,
    record: MessageRecord,
    device_id: Seq<char>,
) -> Result<Seq<u8>, DecryptionErrorKind> {
    match record.envelopes {
        Field::Present(envelopes) => match envelope_for(envelopes@, device_id) {
            None => Err(DecryptionErrorKind::NotARecipient),
            Some(stated) => envelope_verdict(
                decoded(stated),
                keys.reads(KeyFile::BoxPublic),
                keys.reads(KeyFile::BoxPrivate),
            ),
        },
        _ => Err(DecryptionErrorKind::MissingField(RecordField::Envelopes)),
    }
}

/// The result for a decrypted payload: a text payload must be valid UTF-8, an
/// image payload must open with the PNG or JPEG signature, and no other type
/// is known, nor a type that is no text. A record without a type holds text.
pub open spec fn payload_outcome(record: MessageRecord, payload: Seq<u8>) -> Result<
    Decrypted,
    DecryptionErrorKind,
> {
    match stated_type(record.message_type) {
        None => Err(DecryptionErrorKind::UnsupportedType),
        Some(message_type) => if message_type != "text"@ && message_type != "image"@ {
            Err(DecryptionErrorKind::UnsupportedType)
        } else if message_type == "text"@ && !valid_utf8(payload) {
            Err(DecryptionErrorKind::MalformedText)
        } else if message_type != "text"@ && !(is_png(payload) || is_jpeg(payload)) {
            Err(DecryptionErrorKind::MalformedImage)
        } else if !(record.message_id is Present) {
            Err(DecryptionErrorKind::MissingField(RecordField::MessageId))
        } else if !(record.sender_device_id is Present) {
            Err(DecryptionErrorKind::MissingField(RecordField::SenderDeviceId))
        } else {
            Ok(
                Decrypted {
                    plaintext: if message_type == "text"@ {
                        Some(decode_utf8(payload))
                    } else {
                        None
                    },
                    image_bytes: if message_type == "text"@ {
                        None
                    } else {
                        Some(payload)
                    },
                    message_type: message_type,
                    message_id: record.message_id->Present_0@,
                    sender_device_id: record.sender_device_id->Present_0@,
                },
            )
        },
    }
}

/// What the pipeline gives from the blob on, once the metadata hash is
/// verified and the key recovered.
pub open spec fn opened_outcome(
    record: MessageRecord,
    meta_hash: Seq<u8>,
    dek: Seq<u8>,
    blob: Seq<u8>,
) -> Result<Decrypted, DecryptionErrorKind> {
    if !well_framed(blob) {
        Err(DecryptionErrorKind::Format)
    } else {
        match aead_plaintext(blob_ciphertext(blob), blob_nonce(blob), dek, meta_hash) {
            None => Err(DecryptionErrorKind::DecryptionFailed),
            Some(payload) => payload_outcome(record, payload),
        }
    }
}

/// What the pipeline gives: the failure of the first stage that fails, or the
/// decrypted and validated payload.
pub open spec fn decrypt_outcome(
    keys: KeyManager,
    record: MessageRecord,
    device_id: Seq<char>,
    sender: DeviceRecord,
    blob: Seq<u8>,
) -> Result<Decrypted, DecryptionErrorKind> {
    match schema_fault(record) {
        Some(kind) => Err(kind),
        None => if sender_revoked(sender) {
            Err(DecryptionErrorKind::RevokedSender)
        } else {
            match verified_hash(record) {
                Err(kind) => Err(kind),
                Ok(meta_hash) => match field_text(sender.pub_sign_key) {
                    None => Err(DecryptionErrorKind::MissingField(RecordField::PubSignKey)),
                    Some(sender_key) => match signature_fault(record, sender_key, meta_hash) {
                        Some(kind) => Err(kind),
                        None => match recovered_dek(keys, record, device_id) {
                            Err(kind) => Err(kind),
                            Ok(dek) => opened_outcome(record, meta_hash, dek, blob),
                        },
                    },
                },
            }
        },
    }
}

/// Whether a stage's answer is the one that `expected` gives: the same bytes,
/// or an error of the same kind that says what its kind says.
pub open spec fn answers_bytes(
    answer: Result<Vec<u8>, DecryptionError>,
    expected: Result<Seq<u8>, DecryptionErrorKind>,
) -> bool {
    match answer {
        Ok(bytes) => expected == Ok::<Seq<u8>, DecryptionErrorKind>(bytes@),
        Err(error) => expected == Err::<Seq<u8>, DecryptionErrorKind>(error.kind)
            && error.well_formed(),
    }
}

/// Whether a stage's answer is the one that `fault` gives: success where
/// there is no fault, else an error of the fault's kind.
pub open spec fn answers_fault(
    answer: Result<(), DecryptionError>,
    fault: Option<DecryptionErrorKind>,
) -> bool {
    match answer {
        Ok(_) => fault is None,
        Err(error) => fault == Some(error.kind) && error.well_formed(),
    }
}

/// Whether the pipeline's answer is the one that `expected` gives.
pub open spec fn answers_outcome(
    answer: Result<DecryptionResult, DecryptionError>,
    expected: Result<Decrypted, DecryptionErrorKind>,
) -> bool {
    match answer {
        Ok(result) => expected == Ok::<Decrypted, DecryptionErrorKind>(result@),
        Err(error) => expected == Err::<Decrypted, DecryptionErrorKind>(error.kind)
            && error.well_formed(),
    }
}

/// Whether two texts are the same.
pub fn text_is(text: &str, other: &str) -> (same: bool)
    ensures
        same == (text@ == other@),
{
    proof {
        encode_utf8_decode_utf8(text@);
        encode_utf8_decode_utf8(other@);
    }
    bytes_equal(text.as_bytes(), other.as_bytes())
}

/// Whether a path ends in `.bin`.
pub fn has_bin_suffix(path: &str) -> (ends: bool)
    ensures
        ends == ends_with_bin(path@),
{
    let bytes = path.as_bytes();
    let n = bytes.len();
    if n < 4 {
        return false;
    }
    let ends = bytes[n - 4] == 0x2E && bytes[n - 3] == 0x62 && bytes[n - 2] == 0x69 && bytes[n - 1]
        == 0x6E;
    proof {
        let tail = bytes@.subrange(n - 4, n as int);
        if ends {
            assert(tail =~= bin_suffix());
        } else {
            assert(tail[0] == bytes@[n - 4] && tail[1] == bytes@[n - 3] && tail[2] == bytes@[n - 2]
                && tail[3] == bytes@[n - 1]);
        }
    }
    ends
}

/// Decodes base64 text; gives nothing for text that is not base64.
fn decode_text(text: &str) -> (bytes: Option<Vec<u8>>)
    ensures
        option_bytes(bytes) == decoded(text@),
{
    match base64_decode(text.as_bytes()) {
        Ok(bytes) => Some(bytes),
        Err(_) => None,
    }
}

pub struct E2EEReceiver {
    key_manager: KeyManager,
}

impl E2EEReceiver {
    /// The key store that the receiver takes this device's keys from.
    pub closed spec fn keys(&self) -> KeyManager {
        self.key_manager
    }

    /// A receiver on the default key directory of this user, which lies under
    /// the data directory that the platform names, with no key file loaded.
    /// Fails with `Io` when the platform names none.
    pub fn new() -> (made: Result<E2EEReceiver, DecryptionError>)
        ensures
            match made {
                Ok(receiver) => (exists|data_dir: Seq<char>|
                    receiver.keys().dir() == #[trigger] default_key_dir(data_dir))
                    && receiver.keys().protection_level() == KeyProtection::Encoded
                    && forall|f: KeyFile| receiver.keys().file(f) is None,
                Err(error) => error.kind == DecryptionErrorKind::Io && error.well_formed(),
            },
    {
        match KeyManager::default_windows() {
            Ok(key_manager) => Ok(E2EEReceiver { key_manager }),
            Err(_) => Err(DecryptionError::new(DecryptionErrorKind::Io)),
        }
    }

    /// A receiver on the key directory `key_dir`, with no key file loaded.
    pub fn with_key_dir(key_dir: &str) -> (receiver: E2EEReceiver)
        ensures
            receiver.keys().dir() == key_dir@,
            receiver.keys().protection_level() == KeyProtection::Encoded,
            forall|f: KeyFile| receiver.keys().file(f) is None,
    {
        E2EEReceiver { key_manager: KeyManager::new(key_dir) }
    }

    /// A receiver on a key store.
    pub fn with_key_manager(key_manager: KeyManager) -> (receiver: E2EEReceiver)
        ensures
            receiver.keys() == key_manager,
    {
        E2EEReceiver { key_manager }
    }

    /// The receiver's key store.
    pub fn key_manager(&self) -> (key_manager: &KeyManager)
        ensures
            *key_manager == self.keys(),
    {
        &self.key_manager
    }

    /// Takes in what a key file was found to hold.
    pub fn load_key_file(&mut self, which: KeyFile, contents: Option<Vec<u8>>)
        ensures
            final(self).keys().file(which) == option_bytes(contents),
            final(self).keys().same_but(&old(self).keys(), which),
    {
        self.key_manager.load(which, contents);
    }

    /// Runs the pipeline on one message: verifies the record against the
    /// sender's device record, recovers the key addressed to `this_device_id`
    /// and decrypts and validates the payload in `blob`.
    pub fn decrypt_message(
        &self,
        message_doc: &MessageRecord,
        this_device_id: &str,
        sender_device_doc: &DeviceRecord,
        blob: &[u8],
    ) -> (answer: Result<DecryptionResult, DecryptionError>)
        ensures
            answers_outcome(
                answer,
                decrypt_outcome(
                    self.keys(),
                    *message_doc,
                    this_device_id@,
                    *sender_device_doc,
                    blob@,
                ),
            ),
    {
        match self.hard_checks(message_doc) {
            Err(error) => return Err(error),
            Ok(_) => {},
        }
        match self.verify_sender_device(sender_device_doc) {
            Err(error) => return Err(error),
            Ok(_) => {},
        }
        let meta_hash = match self.verify_meta_hash(message_doc) {
            Err(error) => return Err(error),
            Ok(meta_hash) => meta_hash,
        };
        let sender_pub_sign_key = match &sender_device_doc.pub_sign_key {
            Field::Present(text) => text,
            _ => return Err(
                DecryptionError::new(DecryptionErrorKind::MissingField(RecordField::PubSignKey)),
            ),
        };
        match self.verify_signature(message_doc, sender_pub_sign_key.as_str(), meta_hash.as_slice()) {
            Err(error) => return Err(error),
            Ok(_) => {},
        }
        let dek = match self.decrypt_dek(message_doc, this_device_id) {
            Err(error) => return Err(error),
            Ok(dek) => dek,
        };
        Self::open_blob(message_doc, meta_hash.as_slice(), dek.as_slice(), blob)
    }

    /// The schema check: the version is absent, empty or `2A`; the storage
    /// path is a text that ends in `.bin`; `envelopes`, `metaHash`,
    /// `signature` and `nonce` are there. The first of these that fails, in
    /// this order, decides the error.
    pub fn hard_checks(&self, message_doc: &MessageRecord) -> (answer: Result<(), DecryptionError>)
        ensures
            answers_fault(answer, schema_fault(*message_doc)),
    {
        let supported = match &message_doc.version {
            Field::Absent => true,
            Field::Mistyped => false,
            Field::Present(text) => text.as_str().is_empty() || text_is(text.as_str(), "2A"),
        };
        if !supported {
            return Err(DecryptionError::new(DecryptionErrorKind::UnsupportedVersion));
        }
        let storage_path = match &message_doc.storage_path {
            Field::Present(text) => text,
            _ => return Err(
                DecryptionError::new(DecryptionErrorKind::MissingField(RecordField::StoragePath)),
            ),
        };
        if !has_bin_suffix(storage_path.as_str()) {
            return Err(DecryptionError::new(DecryptionErrorKind::Format));
        }
        if !message_doc.envelopes.is_there() {
            return Err(
                DecryptionError::new(DecryptionErrorKind::MissingField(RecordField::Envelopes)),
            );
        }
        if !message_doc.meta_hash.is_there() {
            return Err(
                DecryptionError::new(DecryptionErrorKind::MissingField(RecordField::MetaHash)),
            );
        }
        if !message_doc.signature.is_there() {
            return Err(
                DecryptionError::new(DecryptionErrorKind::MissingField(RecordField::Signature)),
            );
        }
        if !message_doc.nonce.is_there() {
            return Err(DecryptionError::new(DecryptionErrorKind::MissingField(RecordField::Nonce)));
        }
        Ok(())
    }

    /// The sender trust check: fails with `RevokedSender` exactly when the
    /// device's status is `revoked`.
    pub fn verify_sender_device(&self, sender_device_doc: &DeviceRecord) -> (answer: Result<
        (),
        DecryptionError,
    >)
        ensures
            answers_fault(
                answer,
                if sender_revoked(*sender_device_doc) {
                    Some(DecryptionErrorKind::RevokedSender)
                } else {
                    None
                },
            ),
    {
        let revoked = match &sender_device_doc.status {
            Field::Present(status) => text_is(status.as_str(), "revoked"),
            _ => false,
        };
        if revoked {
            return Err(DecryptionError::new(DecryptionErrorKind::RevokedSender));
        }
        Ok(())
    }

    /// Holds a stated metadata hash against the hash of the metadata.
    pub fn check_meta_hash(computed: &[u8], stated: Option<Vec<u8>>) -> (answer: Result<
        Vec<u8>,
        DecryptionError,
    >)
        ensures
            answers_bytes(
                answer,
                hash_verdict(computed@, option_bytes(stated)),
            ),
    {
        match stated {
            Some(hash) => {
                if bytes_equal(hash.as_slice(), computed) {
                    Ok(hash)
                } else {
                    Err(DecryptionError::new(DecryptionErrorKind::Integrity))
                }
            },
            None => Err(DecryptionError::new(DecryptionErrorKind::Integrity)),
        }
    }

    /// The integrity check: rebuilds the canonical metadata from the record,
    /// hashes it and holds the record's stated hash against it. Gives the
    /// verified hash.
    pub fn verify_meta_hash(&self, message_doc: &MessageRecord) -> (answer: Result<
        Vec<u8>,
        DecryptionError,
    >)
        ensures
            answers_bytes(answer, verified_hash(*message_doc)),
    {
        let canonical_json = match CanonicalMetadata::from_firestore_doc(message_doc) {
            Ok(text) => text,
            Err(field) => return Err(
                DecryptionError::new(DecryptionErrorKind::MissingField(field)),
            ),
        };
        let meta_hash_candidate = CanonicalMetadata::compute_meta_hash(canonical_json.as_str());
        let stated = match &message_doc.meta_hash {
            Field::Present(text) => text,
            _ => return Err(
                DecryptionError::new(DecryptionErrorKind::MissingField(RecordField::MetaHash)),
            ),
        };
        Self::check_meta_hash(meta_hash_candidate.as_slice(), decode_text(stated.as_str()))
    }

    /// The authenticity check: verifies the record's signature over the
    /// verified metadata hash with the sender's public signing key.
    pub fn verify_signature(
        &self,
        message_doc: &MessageRecord,
        sender_pub_sign_key_b64: &str,
        meta_hash: &[u8],
    ) -> (answer: Result<(), DecryptionError>)
        ensures
            answers_fault(
                answer,
                signature_fault(*message_doc, sender_pub_sign_key_b64@, meta_hash@),
            ),
    {
        let stated = match &message_doc.signature {
            Field::Present(text) => text,
            _ => return Err(
                DecryptionError::new(DecryptionErrorKind::MissingField(RecordField::Signature)),
            ),
        };
        let signature = match decode_text(stated.as_str()) {
            Some(bytes) => bytes,
            None => return Err(DecryptionError::new(DecryptionErrorKind::Signature)),
        };
        let pub_key = match decode_text(sender_pub_sign_key_b64) {
            Some(bytes) => bytes,
            None => return Err(DecryptionError::new(DecryptionErrorKind::Signature)),
        };
        if !CryptoPrimitives::verify(meta_hash, signature.as_slice(), pub_key.as_slice()) {
            return Err(DecryptionError::new(DecryptionErrorKind::Signature));
        }
        Ok(())
    }

    /// Opens an envelope with this device's key-wrap keys, as read from the
    /// key store.
    pub fn open_envelope(
        sealed: Option<Vec<u8>>,
        public_key: Result<Vec<u8>, KeyStoreError>,
        secret_key: Result<Vec<u8>, KeyStoreError>,
    ) -> (answer: Result<Vec<u8>, DecryptionError>)
        ensures
            answers_bytes(
                answer,
                envelope_verdict(
                    option_bytes(sealed),
                    read_view(public_key),
                    read_view(secret_key),
                ),
            ),
    {
        let envelope = match sealed {
            Some(bytes) => bytes,
            None => return Err(DecryptionError::new(DecryptionErrorKind::KeyUnwrap)),
        };
        let box_pk = match public_key {
            Ok(key) => key,
            Err(KeyStoreError::Io) => return Err(DecryptionError::new(DecryptionErrorKind::Io)),
            Err(KeyStoreError::Decode) => return Err(
                DecryptionError::new(DecryptionErrorKind::Decode),
            ),
        };
        let box_sk = match secret_key {
            Ok(key) => key,
            Err(KeyStoreError::Io) => return Err(DecryptionError::new(DecryptionErrorKind::Io)),
            Err(KeyStoreError::Decode) => return Err(
                DecryptionError::new(DecryptionErrorKind::Decode),
            ),
        };
        match CryptoPrimitives::open_sealed_box(
            envelope.as_slice(),
            box_pk.as_slice(),
            box_sk.as_slice(),
        ) {
            Some(dek) => Ok(dek),
            None => Err(DecryptionError::new(DecryptionErrorKind::KeyUnwrap)),
        }
    }

    /// The key recovery: finds the envelope addressed to `this_device_id` and
    /// opens it with this device's key-wrap keys. A record without such an
    /// envelope fails with `NotARecipient`, whatever the key store holds.
    pub fn decrypt_dek(&self, message_doc: &MessageRecord, this_device_id: &str) -> (answer: Result<
        Vec<u8>,
        DecryptionError,
    >)
        ensures
            answers_bytes(answer, recovered_dek(self.keys(), *message_doc, this_device_id@)),
    {
        let envelopes = match &message_doc.envelopes {
            Field::Present(envelopes) => envelopes,
            _ => return Err(
                DecryptionError::new(DecryptionErrorKind::MissingField(RecordField::Envelopes)),
            ),
        };
        let envelope_b64 = match MessageRecord::find_envelope(envelopes, this_device_id) {
            Some(text) => text,
            None => return Err(DecryptionError::new(DecryptionErrorKind::NotARecipient)),
        };
        let envelope = decode_text(envelope_b64.as_str());
        let box_pk = self.key_manager.get_box_public_key();
        let box_sk = self.key_manager.get_box_private_key();
        Self::open_envelope(envelope, box_pk, box_sk)
    }

    /// The last stages: splits the blob, decrypts its ciphertext with the
    /// recovered key and the verified metadata hash as associated data, and
    /// validates the payload.
    pub fn open_blob(message_doc: &MessageRecord, meta_hash: &[u8], dek: &[u8], blob: &[u8]) -> (answer:
        Result<DecryptionResult, DecryptionError>)
        ensures
            answers_outcome(answer, opened_outcome(*message_doc, meta_hash@, dek@, blob@)),
    {
        let (nonce, ciphertext) = match BlobFormat::parse_blob(blob) {
            Ok(parts) => parts,
            Err(_) => return Err(DecryptionError::new(DecryptionErrorKind::Format)),
        };
        let plaintext_bytes = match CryptoPrimitives::decrypt_aead(
            ciphertext.as_slice(),
            nonce.as_slice(),
            dek,
            meta_hash,
        ) {
            Some(bytes) => bytes,
            None => return Err(DecryptionError::new(DecryptionErrorKind::DecryptionFailed)),
        };
        Self::validate_payload(message_doc, plaintext_bytes)
    }

    /// The payload-type validation and the assembly of the result.
    pub fn validate_payload(message_doc: &MessageRecord, plaintext_bytes: Vec<u8>) -> (answer:
        Result<DecryptionResult, DecryptionError>)
        ensures
            answers_outcome(answer, payload_outcome(*message_doc, plaintext_bytes@)),
    {
        let message_type = match &message_doc.message_type {
            Field::Absent => "text",
            Field::Mistyped => return Err(
                DecryptionError::new(DecryptionErrorKind::UnsupportedType),
            ),
            Field::Present(text) => text.as_str(),
        };
        let is_text = text_is(message_type, "text");
        if !is_text && !text_is(message_type, "image") {
            return Err(DecryptionError::new(DecryptionErrorKind::UnsupportedType));
        }
        let mut plaintext: Option<String> = None;
        let mut image_bytes: Option<Vec<u8>> = None;
        if is_text {
            match utf8_text(plaintext_bytes) {
                Some(text) => {
                    plaintext = Some(text);
                },
                None => return Err(DecryptionError::new(DecryptionErrorKind::MalformedText)),
            }
        } else {
            if !ImageValidator::validate_image_magic(plaintext_bytes.as_slice()) {
                return Err(DecryptionError::new(DecryptionErrorKind::MalformedImage));
            }
            image_bytes = Some(plaintext_bytes);
        }
        let message_id = match &message_doc.message_id {
            Field::Present(text) => text.clone(),
            _ => return Err(
                DecryptionError::new(DecryptionErrorKind::MissingField(RecordField::MessageId)),
            ),
        };
        let sender_device_id = match &message_doc.sender_device_id {
            Field::Present(text) => text.clone(),
            _ => return Err(
                DecryptionError::new(
                    DecryptionErrorKind::MissingField(RecordField::SenderDeviceId),
                ),
            ),
        };
        Ok(
            DecryptionResult {
                plaintext,
                image_bytes,
                message_type: message_type.to_string(),
                message_id,
                sender_device_id,
            },
        )
    }
}

/// The schema check passes exactly when the version is absent, empty or `2A`,
/// the storage path is a text that ends in `.bin`, and `envelopes`,
/// `metaHash`, `signature` and `nonce` are there.
pub proof fn lemma_schema_check_passes_exactly(record: MessageRecord)
    ensures
        schema_fault(record) is None <==> {
            &&& version_supported(record.version)
            &&& record.storage_path is Present
            &&& ends_with_bin(record.storage_path->Present_0@)
            &&& !(record.envelopes is Absent)
            &&& !(record.meta_hash is Absent)
            &&& !(record.signature is Absent)
            &&& !(record.nonce is Absent)
        },
        !version_supported(record.version) ==> schema_fault(record) == Some(
            DecryptionErrorKind::UnsupportedVersion,
        ),
{
}

/// A message from a revoked sender is rejected as such whatever the keys, the
/// blob and the rest of the record hold, once the record passes the schema
/// check: no cryptographic check decides.
pub proof fn lemma_revoked_sender_is_rejected(
    keys: KeyManager,
    record: MessageRecord,
    device_id: Seq<char>,
    sender: DeviceRecord,
    blob: Seq<u8>,
)
    requires
        schema_fault(record) is None,
        sender_revoked(sender),
    ensures
        decrypt_outcome(keys, record, device_id, sender, blob) == Err::<
            Decrypted,
            DecryptionErrorKind,
        >(DecryptionErrorKind::RevokedSender),
{
}

/// A device that no envelope addresses is told so, whatever its key store and
/// the blob hold, once the record is verified and authentic.
pub proof fn lemma_device_without_envelope_is_no_recipient(
    keys: KeyManager,
    record: MessageRecord,
    device_id: Seq<char>,
    sender: DeviceRecord,
    blob: Seq<u8>,
)
    requires
        schema_fault(record) is None,
        !sender_revoked(sender),
        verified_hash(record) is Ok,
        field_text(sender.pub_sign_key) is Some,
        signature_fault(
            record,
            field_text(sender.pub_sign_key)->Some_0,
            verified_hash(record)->Ok_0,
        ) is None,
        record.envelopes is Present,
        envelope_for(record.envelopes->Present_0@, device_id) is None,
    ensures
        decrypt_outcome(keys, record, device_id, sender, blob) == Err::<
            Decrypted,
            DecryptionErrorKind,
        >(DecryptionErrorKind::NotARecipient),
{
}

/// Nothing is accepted in part: a message that the pipeline accepts has passed
/// every check. Its stated hash is the hash of its canonical metadata, the
/// signature over that hash verifies under the sender's key, the blob is well
/// framed, and its ciphertext decrypts under the recovered key with that hash
/// as associated data.
pub proof fn lemma_accepted_message_passed_every_check(
    keys: KeyManager,
    record: MessageRecord,
    device_id: Seq<char>,
    sender: DeviceRecord,
    blob: Seq<u8>,
)
    requires
        decrypt_outcome(keys, record, device_id, sender, blob) is Ok,
    ensures
        schema_fault(record) is None,
        version_supported(record.version),
        record.storage_path is Present,
        ends_with_bin(record.storage_path->Present_0@),
        !sender_revoked(sender),
        canonical_of(record) is Ok,
        verified_hash(record) == Ok::<Seq<u8>, DecryptionErrorKind>(
            meta_hash_of(canonical_of(record)->Ok_0),
        ),
        field_text(sender.pub_sign_key) is Some,
        field_text(record.signature) is Some,
        decoded(field_text(record.signature)->Some_0) is Some,
        decoded(field_text(sender.pub_sign_key)->Some_0) is Some,
        signature_accepted(
            meta_hash_of(canonical_of(record)->Ok_0),
            decoded(field_text(record.signature)->Some_0)->Some_0,
            decoded(field_text(sender.pub_sign_key)->Some_0)->Some_0,
        ),
        recovered_dek(keys, record, device_id) is Ok,
        well_framed(blob),
        aead_plaintext(
            blob_ciphertext(blob),
            blob_nonce(blob),
            recovered_dek(keys, record, device_id)->Ok_0,
            meta_hash_of(canonical_of(record)->Ok_0),
        ) is Some,
{
}

/// What the pipeline accepts is a text or an image: a text message carries its
/// text and no image bytes, an image message carries its bytes, which open
/// with the PNG or the JPEG signature, and no text.
pub proof fn lemma_accepted_message_has_one_payload(
    keys: KeyManager,
    record: MessageRecord,
    device_id: Seq<char>,
    sender: DeviceRecord,
    blob: Seq<u8>,
)
    requires
        decrypt_outcome(keys, record, device_id, sender, blob) is Ok,
    ensures
        ({
            let accepted = decrypt_outcome(keys, record, device_id, sender, blob)->Ok_0;
            ||| accepted.message_type == "text"@ && accepted.plaintext is Some
                && accepted.image_bytes is None
            ||| accepted.message_type == "image"@ && accepted.plaintext is None
                && accepted.image_bytes is Some && (is_png(accepted.image_bytes->Some_0)
                || is_jpeg(accepted.image_bytes->Some_0))
        }),
{
    reveal_strlit("text");
    reveal_strlit("image");
}

} // verus!
