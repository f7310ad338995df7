//! The message record and the device record, as handed to the pipeline.
//!
//! Both arrive as loosely typed documents. A record here keeps, for each
//! member that the pipeline reads, whether it was there and whether it had the
//! expected type, so that every check on presence and type is made by the
//! library and not by the code that fetched the document.

use vstd::prelude::*;
use crate::order::texts;

verus! {

/// One member of a document, as found.
#[derive(Clone, Debug)]
pub enum Field<T> {
    /// The document has no such member.
    Absent,
    /// The member is there, with a value of another type than expected.
    Mistyped,
    /// The member is there with a value of the expected type.
    Present(T),
}

/// The members that the pipeline reads, by their names in the documents.
#[derive(Clone, Copy, Debug, PartialEq, Eq, Structural)]
pub enum RecordField {
    MessageId,
    SenderDeviceId,
    Recipients,
    StoragePath,
    SizeBytesPlain,
    CreatedAtClient,
    Envelopes,
    MetaHash,
    Signature,
    Nonce,
    PubSignKey,
}

/// The name of a member in the documents.
pub open spec fn field_name(field: RecordField) -> Seq<char> {
    match field {
        RecordField::MessageId => "messageId"@,
        RecordField::SenderDeviceId => "senderDeviceId"@,
        RecordField::Recipients => "recipients"@,
        RecordField::StoragePath => "storagePath"@,
        RecordField::SizeBytesPlain => "sizeBytesPlain"@,
        RecordField::CreatedAtClient => "createdAtClient"@,
        RecordField::Envelopes => "envelopes"@,
        RecordField::MetaHash => "metaHash"@,
        RecordField::Signature => "signature"@,
        RecordField::Nonce => "nonce"@,
        RecordField::PubSignKey => "pubSignKey"@,
    }
}

impl RecordField {
    /// The member's name in the documents.
    pub fn name(&self) -> (text: String)
        ensures
            text@ == field_name(*self),
    {
        match self {
            RecordField::MessageId => "messageId".to_string(),
            RecordField::SenderDeviceId => "senderDeviceId".to_string(),
            RecordField::Recipients => "recipients".to_string(),
            RecordField::StoragePath => "storagePath".to_string(),
            RecordField::SizeBytesPlain => "sizeBytesPlain".to_string(),
            RecordField::CreatedAtClient => "createdAtClient".to_string(),
            RecordField::Envelopes => "envelopes".to_string(),
            RecordField::MetaHash => "metaHash".to_string(),
            RecordField::Signature => "signature".to_string(),
            RecordField::Nonce => "nonce".to_string(),
            RecordField::PubSignKey => "pubSignKey".to_string(),
        }
    }
}

/// One entry of a message's `envelopes`: the data encryption key, sealed to
/// one device and written in base64.
#[derive(Clone, Debug)]
pub struct Envelope {
    /// The device that the key is sealed to.
    pub device_id: String,
    /// The sealed key in base64; `None` when the entry's value is not a string.
    pub sealed_key: Option<String>,
}

/// A message document.
#[derive(Clone, Debug)]
pub struct MessageRecord {
    pub version: Field<String>,
    pub storage_path: Field<String>,
    pub message_type: Field<String>,
    pub message_id: Field<String>,
    pub sender_device_id: Field<String>,
    /// The recipients' device ids; `None` for an entry that is not a string.
    pub recipients: Field<Vec<Option<String>>>,
    pub size_bytes_plain: Field<u64>,
    pub created_at_client: Field<String>,
    pub envelopes: Field<Vec<Envelope>>,
    pub meta_hash: Field<String>,
    pub signature: Field<String>,
    pub nonce: Field<String>,
}

/// A device document.
#[derive(Clone, Debug)]
pub struct DeviceRecord {
    pub pub_sign_key: Field<String>,
    pub status: Field<String>,
}

/// The text of a member, where it is there and is a string.
pub open spec fn field_text(field: Field<String>) -> Option<Seq<char>> {
    match field {
        Field::Present(text) => Some(text@),
        _ => None,
    }
}

/// The texts among the entries of `recipients`, in their order.
pub open spec fn recipient_texts(entries: Seq<Option<String>>) -> Seq<Seq<char>>
    decreases entries.len(),
{
    if entries.len() == 0 {
        Seq::empty()
    } else {
        let rest = recipient_texts(entries.drop_last());
        match entries.last() {
            Some(text) => rest.push(text@),
            None => rest,
        }
    }
}

/// The sealed key of the first envelope addressed to `device_id`, where there
/// is one and it is a string.
pub open spec fn envelope_for(envelopes: Seq<Envelope>, device_id: Seq<char>) -> Option<Seq<char>>
    decreases envelopes.len(),
{
    if envelopes.len() == 0 {
        None
    } else if envelopes[0].device_id@ == device_id {
        match envelopes[0].sealed_key {
            Some(text) => Some(text@),
            None => None,
        }
    } else {
        envelope_for(envelopes.drop_first(), device_id)
    }
}

impl<T> Field<T> {
    /// Whether the document has the member at all, of whatever type.
    pub fn is_there(&self) -> (there: bool)
        ensures
            there == !(*self is Absent),
    {
        match self {
            Field::Absent => false,
            _ => true,
        }
    }
}

impl MessageRecord {
    /// A record of a document without members.
    pub fn empty() -> (record: MessageRecord)
        ensures
            record.version is Absent,
            record.storage_path is Absent,
            record.message_type is Absent,
            record.message_id is Absent,
            record.sender_device_id is Absent,
            record.recipients is Absent,
            record.size_bytes_plain is Absent,
            record.created_at_client is Absent,
            record.envelopes is Absent,
            record.meta_hash is Absent,
            record.signature is Absent,
            record.nonce is Absent,
    {
        MessageRecord {
            version: Field::Absent,
            storage_path: Field::Absent,
            message_type: Field::Absent,
            message_id: Field::Absent,
            sender_device_id: Field::Absent,
            recipients: Field::Absent,
            size_bytes_plain: Field::Absent,
            created_at_client: Field::Absent,
            envelopes: Field::Absent,
            meta_hash: Field::Absent,
            signature: Field::Absent,
            nonce: Field::Absent,
        }
    }

    /// The strings among the entries of `recipients`, in their order.
    pub fn recipient_ids(entries: &Vec<Option<String>>) -> (ids: Vec<String>)
        ensures
            texts(ids@) == recipient_texts(entries@),
    {
        let mut ids: Vec<String> = Vec::new();
        let mut i: usize = 0;
        assert(entries@.take(0) =~= Seq::<Option<String>>::empty());
        assert(texts(ids@) =~= recipient_texts(entries@.take(0)));
        while i < entries.len()
            invariant
                i <= entries@.len(),
                texts(ids@) == recipient_texts(entries@.take(i as int)),
            decreases entries@.len() - i,
        {
            proof {
                let next = entries@.take(i + 1);
                assert(next.drop_last() =~= entries@.take(i as int));
                assert(next.last() == entries@[i as int]);
            }
            let ghost before = ids@;
            match &entries[i] {
                Some(text) => {
                    ids.push(text.clone());
                    assert(texts(ids@) =~= texts(before).push(text@));
                },
                None => {},
            }
            i += 1;
        }
        assert(entries@.take(i as int) =~= entries@);
        ids
    }

    /// The sealed key of the first envelope addressed to `device_id`.
    pub fn find_envelope<'a>(envelopes: &'a Vec<Envelope>, device_id: &str) -> (found: Option<
        &'a String,
    >)
        ensures
            match found {
                Some(text) => envelope_for(envelopes@, device_id@) == Some(text@),
                None => envelope_for(envelopes@, device_id@) is None,
            },
    {
        let wanted = device_id.to_string();
        let mut i: usize = 0;
        assert(envelopes@.skip(0) =~= envelopes@);
        while i < envelopes.len()
            invariant
                i <= envelopes@.len(),
                wanted@ == device_id@,
                envelope_for(envelopes@, device_id@) == envelope_for(
                    envelopes@.skip(i as int),
                    device_id@,
                ),
            decreases envelopes@.len() - i,
        {
            assert(envelopes@.skip(i as int).drop_first() =~= envelopes@.skip(i + 1));
            if envelopes[i].device_id == wanted {
                return match &envelopes[i].sealed_key {
                    Some(text) => Some(text),
                    None => None,
                };
            }
            i += 1;
        }
        None
    }
}

} // verus!
