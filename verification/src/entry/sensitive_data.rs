//! The sealed fields of an entry: password and notes, each stored as a
//! record of its own or not at all.

use vstd::prelude::*;
use vstd::string::StringExecFns;
use vstd::utf8::decode_utf8;
use vstd::utf8::encode_utf8;
use vstd::utf8::valid_utf8;
use crate::crypto::encrypted_data::EncryptedData;
use crate::crypto::encrypted_data::EncryptedRecord;
use crate::crypto::key_hierarchy::data_seal_fault;
use crate::crypto::key_hierarchy::fresh_nonce;
use crate::crypto::key_hierarchy::KeyHierarchy;
use crate::crypto::key_hierarchy::opened;
use crate::crypto::key_hierarchy::sealed_record;
use crate::crypto::secure::SecureMemory;
use crate::entry::MAX_NOTES_LENGTH;
use crate::entry::MAX_PASS_CHAR_LENGTH;
use crate::error::crypto_error::CryptoError;
use crate::error::entry_error::EntryError;

verus! {

/// `String::from_utf8`: the text that the bytes spell in UTF-8, or `None`
/// where they are not valid UTF-8.
#[verifier::external_body]
fn text_from_utf8(bytes: Vec<u8>) -> (text: Option<String>)
    ensures
        text is Some <==> valid_utf8(bytes@),
        text matches Some(t) ==> t@ == decode_utf8(bytes@),
{
    String::from_utf8(bytes).ok()
}

/// What is stored of a field: an absent field and an empty one are both
/// stored as nothing, any other as its text.
pub open spec fn stored_text(field: Option<Seq<char>>) -> Option<Seq<char>> {
    match field {
        Some(text) => if text.len() == 0 {
            None
        } else {
            Some(text)
        },
        None => None,
    }
}

/// Why a stored field does not read back.
pub enum FieldFault {
    /// The record does not open under the key: wrong key or damaged record.
    Unopened,
    /// The record opens, but not to UTF-8 text.
    NotText,
}

/// What a stored field reads back to under the key `mek`.
pub open spec fn field_read(mek: Seq<u8>, field: Option<EncryptedRecord>) -> Result<
    Option<Seq<char>>,
    FieldFault,
> {
    match field {
        None => Ok(None),
        Some(record) => match opened(mek, record) {
            None => Err(FieldFault::Unopened),
            Some(bytes) => if valid_utf8(bytes) {
                Ok(Some(decode_utf8(bytes)))
            } else {
                Err(FieldFault::NotText)
            },
        },
    }
}

/// Whether `stored` is what sealing `field` under `mek` and `nonce` leaves:
/// nothing for an absent or empty field, else the sealed UTF-8 bytes.
pub open spec fn is_field_sealed(
    stored: Option<EncryptedRecord>,
    mek: Seq<u8>,
    nonce: Seq<u8>,
    field: Option<Seq<char>>,
) -> bool {
    match stored_text(field) {
        None => stored is None,
        Some(text) => {
            &&& data_seal_fault(mek, encode_utf8(text)) is None
            &&& stored == Some(sealed_record(mek, nonce, encode_utf8(text)))
            &&& opened(mek, stored->Some_0) == Some(encode_utf8(text))
        },
    }
}

/// Whether the error `e` reports the fault `fault` of a field.
pub open spec fn reports_field_fault(e: EntryError, fault: FieldFault) -> bool {
    match fault {
        FieldFault::Unopened => e matches EntryError::DecryptionError(
            CryptoError::DecryptionFailed,
        ),
        FieldFault::NotText => e is ValidationError,
    }
}

/// The nonce for sealing a field: a fresh one where the field is stored, and
/// zeros, which seal nothing, where it is absent or empty. `None` where the
/// operating system gives no random bytes for a field that is stored.
pub(crate) fn nonce_for(field: &Option<String>) -> (nonce: Option<[u8; 12]>)
    ensures
        stored_text(text_view(*field)) is None ==> nonce is Some,
{
    match field {
        Some(text) => if text.as_str().is_empty() {
            Some([0u8; 12])
        } else {
            fresh_nonce()
        },
        None => Some([0u8; 12]),
    }
}

/// Seals one field, or stores nothing for an absent or empty one.
fn encrypt_data(data: Option<String>, key_hierarchy: &KeyHierarchy, nonce: [u8; 12]) -> (sealed:
    Result<Option<EncryptedData>, EntryError>)
    ensures
        match sealed {
            Ok(stored) => is_field_sealed(
                match stored {
                    Some(record) => Some(record@),
                    None => None,
                },
                key_hierarchy@.mek,
                nonce@,
                match data {
                    Some(text) => Some(text@),
                    None => None,
                },
            ),
            Err(EntryError::EncryptionError(e)) => data matches Some(text) && text@.len() > 0
                && data_seal_fault(key_hierarchy@.mek, encode_utf8(text@)) == Some(e),
            Err(_) => false,
        },
{
    match data {
        Some(text) => {
            if text.as_str().is_empty() {
                Ok(None)
            } else {
                match key_hierarchy.encrypt_data_with_nonce(text.as_str().as_bytes(), nonce) {
                    Ok(record) => Ok(Some(record)),
                    Err(e) => Err(EntryError::EncryptionError(e)),
                }
            }
        },
        None => Ok(None),
    }
}

/// What an [`EncryptedSensitiveData`] holds, as plain values.
pub struct SensitiveRecord {
    pub password: Option<EncryptedRecord>,
    pub notes: Option<EncryptedRecord>,
}

/// The sealed password and notes of an entry. A field that is absent or
/// empty is stored as no record at all.
#[derive(Debug)]
pub struct EncryptedSensitiveData {
    pub(crate) password: Option<EncryptedData>,
    pub(crate) notes: Option<EncryptedData>,
}

impl View for EncryptedSensitiveData {
    type V = SensitiveRecord;

    closed spec fn view(&self) -> SensitiveRecord {
        SensitiveRecord {
            password: match self.password {
                Some(record) => Some(record@),
                None => None,
            },
            notes: match self.notes {
                Some(record) => Some(record@),
                None => None,
            },
        }
    }
}

/// What a [`DecryptedSensitiveData`] holds, as plain values.
pub struct SensitiveText {
    pub password: Option<Seq<char>>,
    pub notes: Option<Seq<char>>,
}

/// The password and notes of an entry in the clear, each under a guard that
/// wipes it on drop.
pub struct DecryptedSensitiveData {
    pub(crate) password: Option<SecureMemory<String>>,
    pub(crate) notes: Option<SecureMemory<String>>,
}

impl View for DecryptedSensitiveData {
    type V = SensitiveText;

    closed spec fn view(&self) -> SensitiveText {
        SensitiveText {
            password: match self.password {
                Some(text) => Some(text@),
                None => None,
            },
            notes: match self.notes {
                Some(text) => Some(text@),
                None => None,
            },
        }
    }
}

impl DecryptedSensitiveData {
    /// The password, if the entry has one.
    pub fn password(&self) -> (text: Option<&String>)
        ensures
            match text {
                Some(t) => self@.password == Some(t@),
                None => self@.password is None,
            },
    {
        match &self.password {
            Some(held) => Some(held.as_ref()),
            None => None,
        }
    }

    /// The notes, if the entry has any.
    pub fn notes(&self) -> (text: Option<&String>)
        ensures
            match text {
                Some(t) => self@.notes == Some(t@),
                None => self@.notes is None,
            },
    {
        match &self.notes {
            Some(held) => Some(held.as_ref()),
            None => None,
        }
    }

    /// Hands out both fields, each still under its guard.
    pub fn into_parts(self) -> (parts: (Option<SecureMemory<String>>, Option<SecureMemory<String>>))
        ensures
            match parts.0 {
                Some(t) => self@.password == Some(t@),
                None => self@.password is None,
            },
            match parts.1 {
                Some(t) => self@.notes == Some(t@),
                None => self@.notes is None,
            },
    {
        (self.password, self.notes)
    }
}

/// The view of an optional text.
pub open spec fn text_view(text: Option<String>) -> Option<Seq<char>> {
    match text {
        Some(t) => Some(t@),
        None => None,
    }
}

/// Why the fields given cannot be sealed under `mek`; `None` where they can.
/// The lengths are judged first, the password before the notes.
pub enum SealingFault {
    /// The named field is too long.
    TooLong(Seq<char>),
    /// The cipher refused a field.
    Refused(CryptoError),
}

/// Why the cipher refuses a field; `None` where it seals it or where nothing
/// is stored of it.
pub open spec fn field_seal_fault(mek: Seq<u8>, field: Option<Seq<char>>) -> Option<CryptoError> {
    match stored_text(field) {
        None => None,
        Some(text) => data_seal_fault(mek, encode_utf8(text)),
    }
}

/// The judgement on the fields given.
pub open spec fn sealing_fault(
    mek: Seq<u8>,
    password: Option<Seq<char>>,
    notes: Option<Seq<char>>,
) -> Option<SealingFault> {
    if password matches Some(text) && encode_utf8(text).len() > MAX_PASS_CHAR_LENGTH {
        Some(SealingFault::TooLong("Password"@))
    } else if notes matches Some(text) && encode_utf8(text).len() > MAX_NOTES_LENGTH {
        Some(SealingFault::TooLong("Notes"@))
    } else {
        match field_seal_fault(mek, password) {
            Some(e) => Some(SealingFault::Refused(e)),
            None => match field_seal_fault(mek, notes) {
                Some(e) => Some(SealingFault::Refused(e)),
                None => None,
            },
        }
    }
}

/// Whether the error `e` reports the sealing fault `fault`.
pub open spec fn reports_sealing_fault(e: EntryError, fault: SealingFault) -> bool {
    match fault {
        SealingFault::TooLong(field) => e matches EntryError::InvalidLength(name) && name@
            == field,
        SealingFault::Refused(err) => e == EntryError::EncryptionError(err),
    }
}

/// The view of an optional record.
pub open spec fn record_view(record: Option<EncryptedData>) -> Option<EncryptedRecord> {
    match record {
        Some(r) => Some(r@),
        None => None,
    }
}

impl EncryptedSensitiveData {
    /// The sealed fields made of the two records as they were stored.
    pub fn from_parts(password: Option<EncryptedData>, notes: Option<EncryptedData>) -> (sealed:
        Self)
        ensures
            sealed@ == (SensitiveRecord {
                password: record_view(password),
                notes: record_view(notes),
            }),
    {
        Self { password, notes }
    }

    /// The sealed password, if one is stored.
    pub fn password(&self) -> (record: Option<&EncryptedData>)
        ensures
            match record {
                Some(r) => self@.password == Some(r@),
                None => self@.password is None,
            },
    {
        self.password.as_ref()
    }

    /// The sealed notes, if any are stored.
    pub fn notes(&self) -> (record: Option<&EncryptedData>)
        ensures
            match record {
                Some(r) => self@.notes == Some(r@),
                None => self@.notes is None,
            },
    {
        self.notes.as_ref()
    }

    /// Overwrites both records and leaves nothing stored.
    pub fn zeroize(&mut self)
        ensures
            final(self)@.password is None,
            final(self)@.notes is None,
    {
        match &mut self.password {
            Some(record) => {
                record.zeroize();
            },
            None => {},
        }
        self.password = None;
        match &mut self.notes {
            Some(record) => {
                record.zeroize();
            },
            None => {},
        }
        self.notes = None;
    }

    /// Seals the password and the notes under the master encryption key,
    /// each under a fresh nonce. A password over 128 bytes and notes over
    /// 10000 bytes are refused. Where both fields are absent or empty,
    /// nothing is drawn and nothing sealed.
    pub fn new(password: Option<String>, notes: Option<String>, key_hierarchy: &KeyHierarchy) -> (made:
        Result<Self, EntryError>)
        ensures
            match made {
                Ok(sealed) => {
                    &&& sealing_fault(key_hierarchy@.mek, text_view(password), text_view(notes))
                        is None
                    &&& field_read(key_hierarchy@.mek, sealed@.password) == Ok::<
                        Option<Seq<char>>,
                        FieldFault,
                    >(stored_text(text_view(password)))
                    &&& field_read(key_hierarchy@.mek, sealed@.notes) == Ok::<
                        Option<Seq<char>>,
                        FieldFault,
                    >(stored_text(text_view(notes)))
                },
                Err(e) => ((e matches EntryError::EncryptionError(CryptoError::EncryptionFailed))
                    && (stored_text(text_view(password)) is Some || stored_text(text_view(notes))
                    is Some)) || (sealing_fault(
                    key_hierarchy@.mek,
                    text_view(password),
                    text_view(notes),
                ) matches Some(fault) && reports_sealing_fault(e, fault)),
            },
            stored_text(text_view(password)) is None && stored_text(text_view(notes)) is None
                ==> made is Ok,
    {
        let password_nonce = match nonce_for(&password) {
            Some(nonce) => nonce,
            None => {
                return Err(EntryError::EncryptionError(CryptoError::EncryptionFailed));
            },
        };
        let notes_nonce = match nonce_for(&notes) {
            Some(nonce) => nonce,
            None => {
                return Err(EntryError::EncryptionError(CryptoError::EncryptionFailed));
            },
        };
        let made = Self::new_with_nonces(
            password,
            notes,
            key_hierarchy,
            password_nonce,
            notes_nonce,
        );
        proof {
            if made is Ok {
                lemma_sealed_fields_read_back(
                    made->Ok_0@,
                    key_hierarchy@.mek,
                    password_nonce@,
                    notes_nonce@,
                    text_view(password),
                    text_view(notes),
                );
            }
        }
        made
    }

    /// Seals the password and the notes under the master encryption key and
    /// the nonces given.
    pub fn new_with_nonces(
        password: Option<String>,
        notes: Option<String>,
        key_hierarchy: &KeyHierarchy,
        password_nonce: [u8; 12],
        notes_nonce: [u8; 12],
    ) -> (made: Result<Self, EntryError>)
        ensures
            match made {
                Ok(sealed) => {
                    &&& sealing_fault(key_hierarchy@.mek, text_view(password), text_view(notes))
                        is None
                    &&& is_field_sealed(
                        sealed@.password,
                        key_hierarchy@.mek,
                        password_nonce@,
                        text_view(password),
                    )
                    &&& is_field_sealed(
                        sealed@.notes,
                        key_hierarchy@.mek,
                        notes_nonce@,
                        text_view(notes),
                    )
                },
                Err(e) => sealing_fault(key_hierarchy@.mek, text_view(password), text_view(notes))
                    matches Some(fault) && reports_sealing_fault(e, fault),
            },
    {
        if let Some(pass) = &password {
            if pass.as_str().as_bytes().len() > MAX_PASS_CHAR_LENGTH {
                return Err(EntryError::InvalidLength(String::from_str("Password")));
            }
        }
        if let Some(note) = &notes {
            if note.as_str().as_bytes().len() > MAX_NOTES_LENGTH {
                return Err(EntryError::InvalidLength(String::from_str("Notes")));
            }
        }
        let password = match encrypt_data(password, key_hierarchy, password_nonce) {
            Ok(stored) => stored,
            Err(e) => {
                return Err(e);
            },
        };
        let notes = match encrypt_data(notes, key_hierarchy, notes_nonce) {
            Ok(stored) => stored,
            Err(e) => {
                return Err(e);
            },
        };
        Ok(Self { password, notes })
    }

    /// Reads the fields back under the master encryption key. Where nothing
    /// is stored, nothing is opened and nothing is returned. A record that
    /// does not open is reported as a decryption failure; one that opens to
    /// something that is not UTF-8 text is reported as a validation failure.
    pub fn decrypt(&self, key_hierarchy: &KeyHierarchy) -> (read: Result<
        Option<DecryptedSensitiveData>,
        EntryError,
    >)
        ensures
            match read {
                Ok(None) => self@.password is None && self@.notes is None,
                Ok(Some(text)) => {
                    &&& self@.password is Some || self@.notes is Some
                    &&& field_read(key_hierarchy@.mek, self@.password) == Ok::<
                        Option<Seq<char>>,
                        FieldFault,
                    >(text@.password)
                    &&& field_read(key_hierarchy@.mek, self@.notes) == Ok::<
                        Option<Seq<char>>,
                        FieldFault,
                    >(text@.notes)
                },
                Err(e) => match field_read(key_hierarchy@.mek, self@.password) {
                    Err(fault) => reports_field_fault(e, fault),
                    Ok(_) => field_read(key_hierarchy@.mek, self@.notes) matches Err(fault)
                        && reports_field_fault(e, fault),
                },
            },
    {
        if self.password.is_none() && self.notes.is_none() {
            return Ok(None);
        }
        let password = match &self.password {
            Some(enc) => match decrypt_field(enc, key_hierarchy) {
                Ok(text) => Some(text),
                Err(e) => {
                    return Err(e);
                },
            },
            None => None,
        };
        let notes = match &self.notes {
            Some(enc) => match decrypt_field(enc, key_hierarchy) {
                Ok(text) => Some(text),
                Err(e) => {
                    return Err(e);
                },
            },
            None => None,
        };
        Ok(Some(DecryptedSensitiveData { password, notes }))
    }
}

/// Opens one stored field and reads it as text.
fn decrypt_field(encrypted: &EncryptedData, key_hierarchy: &KeyHierarchy) -> (text: Result<
    SecureMemory<String>,
    EntryError,
>)
    ensures
        match text {
            Ok(t) => field_read(key_hierarchy@.mek, Some(encrypted@)) == Ok::<
                Option<Seq<char>>,
                FieldFault,
            >(Some(t@)),
            Err(e) => field_read(key_hierarchy@.mek, Some(encrypted@)) matches Err(fault)
                && reports_field_fault(e, fault),
        },
{
    let bytes = match key_hierarchy.decrypt_data(encrypted) {
        Ok(bytes) => bytes,
        Err(e) => {
            return Err(EntryError::DecryptionError(e));
        },
    };
    match text_from_utf8(bytes) {
        Some(text) => Ok(SecureMemory::new(text)),
        None => Err(
            EntryError::ValidationError(String::from_str("Decrypted field is not valid UTF-8")),
        ),
    }
}

/// Sealed fields read back: what was sealed of a password and of notes under
/// `mek` reads back, under the same key, to the text that was given, with an
/// empty text read back as an absent one.
pub proof fn lemma_sealed_fields_read_back(
    sealed: SensitiveRecord,
    mek: Seq<u8>,
    password_nonce: Seq<u8>,
    notes_nonce: Seq<u8>,
    password: Option<Seq<char>>,
    notes: Option<Seq<char>>,
)
    requires
        is_field_sealed(sealed.password, mek, password_nonce, password),
        is_field_sealed(sealed.notes, mek, notes_nonce, notes),
    ensures
        field_read(mek, sealed.password) == Ok::<Option<Seq<char>>, FieldFault>(
            stored_text(password),
        ),
        field_read(mek, sealed.notes) == Ok::<Option<Seq<char>>, FieldFault>(stored_text(notes)),
{
    if let Some(text) = stored_text(password) {
        vstd::utf8::encode_utf8_valid_utf8(text);
        vstd::utf8::encode_utf8_decode_utf8(text);
    }
    if let Some(text) = stored_text(notes) {
        vstd::utf8::encode_utf8_valid_utf8(text);
        vstd::utf8::encode_utf8_decode_utf8(text);
    }
}

} // verus!
