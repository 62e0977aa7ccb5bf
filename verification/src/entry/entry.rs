//! An entry of the vault: what is shown of it in the clear, and its sealed
//! password and notes.

use vstd::prelude::*;
use crate::clock::now;
use crate::clock::Timestamp;
use crate::crypto::key_hierarchy::KeyHierarchy;
use crate::crypto::secure::zeroize_text;
use crate::entry::overview::EntryData;
use crate::entry::overview::EntryOverview;
use crate::entry::overview::reports_entry_fault;
use crate::entry::sensitive_data::EncryptedSensitiveData;
use crate::entry::sensitive_data::field_read;
use crate::entry::sensitive_data::FieldFault;
use crate::entry::sensitive_data::is_field_sealed;
use crate::entry::sensitive_data::nonce_for;
use crate::entry::sensitive_data::reports_field_fault;
use crate::entry::sensitive_data::reports_sealing_fault;
use crate::entry::sensitive_data::sealing_fault;
use crate::entry::sensitive_data::SensitiveRecord;
use crate::entry::sensitive_data::stored_text;
use crate::entry::sensitive_data::text_view;
use crate::error::crypto_error::CryptoError;
use crate::error::entry_error::EntryError;
use crate::ids::fresh_id;

verus! {

/// What an [`Entry`] holds, as plain values.
pub struct EntryView {
    pub id: u128,
    pub title: Seq<char>,
    pub username: Option<Seq<char>>,
    pub url: Option<Seq<char>>,
    pub category_id: Option<u128>,
    pub category_name: Option<Seq<char>>,
    pub favorite: bool,
    pub created_at: Timestamp,
    pub updated_at: Timestamp,
    pub sensitive_data: SensitiveRecord,
}

/// An entry of the vault.
pub struct Entry {
    pub(crate) id: u128,
    pub(crate) title: String,
    pub(crate) username: Option<String>,
    pub(crate) url: Option<String>,
    pub(crate) category_id: Option<u128>,
    pub(crate) category_name: Option<String>,
    pub(crate) favorite: bool,
    pub(crate) created_at: Timestamp,
    pub(crate) updated_at: Timestamp,
    pub(crate) sensitive_data: EncryptedSensitiveData,
}

impl View for Entry {
    type V = EntryView;

    closed spec fn view(&self) -> EntryView {
        EntryView {
            id: self.id,
            title: self.title@,
            username: text_view(self.username),
            url: text_view(self.url),
            category_id: self.category_id,
            category_name: text_view(self.category_name),
            favorite: self.favorite,
            created_at: self.created_at,
            updated_at: self.updated_at,
            sensitive_data: self.sensitive_data@,
        }
    }
}

/// An entry with all of its fields in the clear. Whoever holds one has to
/// wipe it after use.
pub struct DecryptedEntry {
    pub id: u128,
    pub title: String,
    pub username: Option<String>,
    pub url: Option<String>,
    pub category_id: Option<u128>,
    pub category_name: Option<String>,
    pub favorite: bool,
    pub created_at: Timestamp,
    pub updated_at: Timestamp,
    pub password: Option<String>,
    pub notes: Option<String>,
}

/// A copy of an optional text.
fn copy_text(text: &Option<String>) -> (copy: Option<String>)
    ensures
        text_view(copy) == text_view(*text),
{
    match text {
        Some(t) => Some(t.clone()),
        None => None,
    }
}

/// Wipes an optional text where there is one.
fn wipe_text(text: &mut Option<String>)
    ensures
        match *final(text) {
            Some(t) => *old(text) is Some && t@ == Seq::<char>::empty(),
            None => *old(text) is None,
        },
{
    match text {
        Some(t) => {
            zeroize_text(t);
        },
        None => {},
    }
}

impl EntryView {
    /// The entry that the input makes: its fields in the clear are those of
    /// the input, and its sealed fields are the password and the notes of
    /// the input, sealed under `mek` and the nonces.
    pub open spec fn is_made_of(
        self,
        input: EntryData,
        category_id: Option<u128>,
        mek: Seq<u8>,
        password_nonce: Seq<u8>,
        notes_nonce: Seq<u8>,
    ) -> bool {
        &&& self.title == input.title@
        &&& self.username == text_view(input.username)
        &&& self.url == text_view(input.url)
        &&& self.category_id == category_id
        &&& self.category_name == text_view(input.category_name)
        &&& self.favorite == input.favorite
        &&& is_field_sealed(
            self.sensitive_data.password,
            mek,
            password_nonce,
            text_view(input.password),
        )
        &&& is_field_sealed(self.sensitive_data.notes, mek, notes_nonce, text_view(input.notes))
    }
}

/// Whether the error `e` is the one due for the input: the fault of the
/// input where it has one, else the fault of sealing its fields.
pub open spec fn reports_making_fault(e: EntryError, input: EntryData, mek: Seq<u8>) -> bool {
    match input.fault() {
        Some(fault) => reports_entry_fault(e, fault),
        None => match sealing_fault(mek, text_view(input.password), text_view(input.notes)) {
            Some(fault) => reports_sealing_fault(e, fault),
            None => false,
        },
    }
}

/// Whether the input can be made into an entry under `mek`.
pub open spec fn can_be_made(input: EntryData, mek: Seq<u8>) -> bool {
    input.fault() is None && sealing_fault(mek, text_view(input.password), text_view(input.notes))
        is None
}

impl Entry {
    /// Makes an entry of the input, with a fresh identifier and the time of
    /// the clock as both of its stamps. The input is judged first; only for
    /// input that passes are an identifier and the nonces drawn, a nonce
    /// only for a field that is stored. Where the operating system gives no
    /// random bytes, that is reported as a failure to encrypt.
    pub fn new_internal(input: EntryData, category_id: Option<u128>, key_hierarchy: &KeyHierarchy) -> (made:
        Result<Self, EntryError>)
        ensures
            match made {
                Ok(entry) => {
                    &&& can_be_made(input, key_hierarchy@.mek)
                    &&& exists|password_nonce: Seq<u8>, notes_nonce: Seq<u8>| #[trigger]
                        entry@.is_made_of(
                            input,
                            category_id,
                            key_hierarchy@.mek,
                            password_nonce,
                            notes_nonce,
                        )
                    &&& entry@.created_at == entry@.updated_at
                },
                Err(e) => ((e matches EntryError::EncryptionError(CryptoError::EncryptionFailed))
                    && input.fault() is None) || reports_making_fault(
                    e,
                    input,
                    key_hierarchy@.mek,
                ),
            },
    {
        match input.validate() {
            Ok(()) => {},
            Err(e) => {
                return Err(e);
            },
        }
        let password_nonce = match nonce_for(&input.password) {
            Some(nonce) => nonce,
            None => {
                return Err(EntryError::EncryptionError(CryptoError::EncryptionFailed));
            },
        };
        let notes_nonce = match nonce_for(&input.notes) {
            Some(nonce) => nonce,
            None => {
                return Err(EntryError::EncryptionError(CryptoError::EncryptionFailed));
            },
        };
        let id = match fresh_id() {
            Some(id) => id,
            None => {
                return Err(EntryError::EncryptionError(CryptoError::EncryptionFailed));
            },
        };
        // One reading of the clock, so that both stamps agree.
        let made = Self::new_internal_with(
            input,
            category_id,
            key_hierarchy,
            id,
            now(),
            password_nonce,
            notes_nonce,
        );
        proof {
            if made is Ok {
                assert(made->Ok_0@.is_made_of(
                    input,
                    category_id,
                    key_hierarchy@.mek,
                    password_nonce@,
                    notes_nonce@,
                ));
            }
        }
        made
    }

    /// Makes an entry of the input with the identifier, the stamp and the
    /// nonces given.
    pub fn new_internal_with(
        input: EntryData,
        category_id: Option<u128>,
        key_hierarchy: &KeyHierarchy,
        id: u128,
        stamp: Timestamp,
        password_nonce: [u8; 12],
        notes_nonce: [u8; 12],
    ) -> (made: Result<Self, EntryError>)
        ensures
            match made {
                Ok(entry) => {
                    &&& can_be_made(input, key_hierarchy@.mek)
                    &&& entry@.id == id
                    &&& entry@.created_at == stamp
                    &&& entry@.updated_at == stamp
                    &&& entry@.is_made_of(
                        input,
                        category_id,
                        key_hierarchy@.mek,
                        password_nonce@,
                        notes_nonce@,
                    )
                },
                Err(e) => reports_making_fault(e, input, key_hierarchy@.mek),
            },
    {
        match input.validate() {
            Ok(()) => {},
            Err(e) => {
                return Err(e);
            },
        }
        let sensitive_data = match EncryptedSensitiveData::new_with_nonces(
            input.password,
            input.notes,
            key_hierarchy,
            password_nonce,
            notes_nonce,
        ) {
            Ok(sealed) => sealed,
            Err(e) => {
                return Err(e);
            },
        };
        Ok(
            Self {
                id,
                title: input.title,
                username: input.username,
                url: input.url,
                category_id,
                category_name: input.category_name,
                favorite: input.favorite,
                created_at: stamp,
                updated_at: stamp,
                sensitive_data,
            },
        )
    }

    /// An entry of the parts as they were stored.
    pub fn from_parts(
        id: u128,
        title: String,
        username: Option<String>,
        url: Option<String>,
        category_id: Option<u128>,
        category_name: Option<String>,
        favorite: bool,
        created_at: Timestamp,
        updated_at: Timestamp,
        sensitive_data: EncryptedSensitiveData,
    ) -> (entry: Self)
        ensures
            entry@ == (EntryView {
                id,
                title: title@,
                username: text_view(username),
                url: text_view(url),
                category_id,
                category_name: text_view(category_name),
                favorite,
                created_at,
                updated_at,
                sensitive_data: sensitive_data@,
            }),
    {
        Self {
            id,
            title,
            username,
            url,
            category_id,
            category_name,
            favorite,
            created_at,
            updated_at,
            sensitive_data,
        }
    }

    /// Replaces everything but the identifier and the time of creation, and
    /// stamps the entry with the time of the clock. The input is judged
    /// first; only for input that passes are the nonces drawn, and only for
    /// a field that is stored. Nothing changes on failure.
    pub fn update_internal(
        &mut self,
        changes: EntryData,
        category_id: Option<u128>,
        key_hierarchy: &KeyHierarchy,
    ) -> (updated: Result<(), EntryError>)
        ensures
            match updated {
                Ok(()) => {
                    &&& can_be_made(changes, key_hierarchy@.mek)
                    &&& final(self)@.id == old(self)@.id
                    &&& final(self)@.created_at == old(self)@.created_at
                    &&& exists|password_nonce: Seq<u8>, notes_nonce: Seq<u8>| #[trigger]
                        final(self)@.is_made_of(
                            changes,
                            category_id,
                            key_hierarchy@.mek,
                            password_nonce,
                            notes_nonce,
                        )
                },
                Err(e) => final(self)@ == old(self)@ && (((e matches EntryError::EncryptionError(
                    CryptoError::EncryptionFailed,
                )) && changes.fault() is None && (stored_text(text_view(changes.password))
                    is Some || stored_text(text_view(changes.notes)) is Some))
                    || reports_making_fault(e, changes, key_hierarchy@.mek)),
            },
    {
        match changes.validate() {
            Ok(()) => {},
            Err(e) => {
                return Err(e);
            },
        }
        let password_nonce = match nonce_for(&changes.password) {
            Some(nonce) => nonce,
            None => {
                return Err(EntryError::EncryptionError(CryptoError::EncryptionFailed));
            },
        };
        let notes_nonce = match nonce_for(&changes.notes) {
            Some(nonce) => nonce,
            None => {
                return Err(EntryError::EncryptionError(CryptoError::EncryptionFailed));
            },
        };
        let updated = self.update_internal_with(
            changes,
            category_id,
            key_hierarchy,
            now(),
            password_nonce,
            notes_nonce,
        );
        proof {
            if updated is Ok {
                assert(final(self)@.is_made_of(
                    changes,
                    category_id,
                    key_hierarchy@.mek,
                    password_nonce@,
                    notes_nonce@,
                ));
            }
        }
        updated
    }

    /// Replaces everything but the identifier and the time of creation, with
    /// the stamp and the nonces given. Nothing changes on failure.
    pub fn update_internal_with(
        &mut self,
        changes: EntryData,
        category_id: Option<u128>,
        key_hierarchy: &KeyHierarchy,
        stamp: Timestamp,
        password_nonce: [u8; 12],
        notes_nonce: [u8; 12],
    ) -> (updated: Result<(), EntryError>)
        ensures
            match updated {
                Ok(()) => {
                    &&& can_be_made(changes, key_hierarchy@.mek)
                    &&& final(self)@.id == old(self)@.id
                    &&& final(self)@.created_at == old(self)@.created_at
                    &&& final(self)@.updated_at == stamp
                    &&& final(self)@.is_made_of(
                        changes,
                        category_id,
                        key_hierarchy@.mek,
                        password_nonce@,
                        notes_nonce@,
                    )
                },
                Err(e) => final(self)@ == old(self)@ && reports_making_fault(
                    e,
                    changes,
                    key_hierarchy@.mek,
                ),
            },
    {
        match changes.validate() {
            Ok(()) => {},
            Err(e) => {
                return Err(e);
            },
        }
        let sensitive_data = match EncryptedSensitiveData::new_with_nonces(
            changes.password,
            changes.notes,
            key_hierarchy,
            password_nonce,
            notes_nonce,
        ) {
            Ok(sealed) => sealed,
            Err(e) => {
                return Err(e);
            },
        };
        self.title = changes.title;
        self.username = changes.username;
        self.url = changes.url;
        self.category_id = category_id;
        self.category_name = changes.category_name;
        self.favorite = changes.favorite;
        self.updated_at = stamp;
        self.sensitive_data = sensitive_data;
        Ok(())
    }

    /// The entry with its password and notes in the clear.
    pub fn decrypt(&self, key_hierarchy: &KeyHierarchy) -> (opened: Result<
        DecryptedEntry,
        EntryError,
    >)
        ensures
            match opened {
                Ok(clear) => {
                    &&& clear.id == self@.id
                    &&& clear.title@ == self@.title
                    &&& text_view(clear.username) == self@.username
                    &&& text_view(clear.url) == self@.url
                    &&& clear.category_id == self@.category_id
                    &&& text_view(clear.category_name) == self@.category_name
                    &&& clear.favorite == self@.favorite
                    &&& clear.created_at == self@.created_at
                    &&& clear.updated_at == self@.updated_at
                    &&& field_read(key_hierarchy@.mek, self@.sensitive_data.password) == Ok::<
                        Option<Seq<char>>,
                        FieldFault,
                    >(text_view(clear.password))
                    &&& field_read(key_hierarchy@.mek, self@.sensitive_data.notes) == Ok::<
                        Option<Seq<char>>,
                        FieldFault,
                    >(text_view(clear.notes))
                },
                Err(e) => match field_read(key_hierarchy@.mek, self@.sensitive_data.password) {
                    Err(fault) => reports_field_fault(e, fault),
                    Ok(_) => match field_read(key_hierarchy@.mek, self@.sensitive_data.notes) {
                        Err(fault) => reports_field_fault(e, fault),
                        Ok(_) => false,
                    },
                },
            },
    {
        let (password, notes) = match self.sensitive_data.decrypt(key_hierarchy) {
            Ok(Some(data)) => {
                let (password, notes) = data.into_parts();
                (
                    match password {
                        Some(p) => Some(p.into_inner()),
                        None => None,
                    },
                    match notes {
                        Some(n) => Some(n.into_inner()),
                        None => None,
                    },
                )
            },
            Ok(None) => (None, None),
            Err(e) => {
                return Err(e);
            },
        };
        Ok(
            DecryptedEntry {
                id: self.id,
                title: self.title.clone(),
                username: copy_text(&self.username),
                url: copy_text(&self.url),
                category_id: self.category_id,
                category_name: copy_text(&self.category_name),
                favorite: self.favorite,
                created_at: self.created_at,
                updated_at: self.updated_at,
                password,
                notes,
            },
        )
    }

    /// Files the entry under a category of another name, or under none.
    pub(crate) fn set_category_name(&mut self, name: Option<String>)
        ensures
            final(self)@ == (EntryView { category_name: text_view(name), ..old(self)@ }),
    {
        self.category_name = name;
    }

    /// Takes the entry out of its category.
    pub(crate) fn clear_category(&mut self)
        ensures
            final(self)@ == (EntryView { category_id: None, category_name: None, ..old(self)@ }),
    {
        self.category_id = None;
        self.category_name = None;
    }

    /// The user name as it is held.
    pub(crate) fn username_held(&self) -> (username: &Option<String>)
        ensures
            text_view(*username) == self@.username,
    {
        &self.username
    }

    /// The URL as it is held.
    pub(crate) fn url_held(&self) -> (url: &Option<String>)
        ensures
            text_view(*url) == self@.url,
    {
        &self.url
    }

    /// The category as it is held.
    pub(crate) fn category_held(&self) -> (category: Option<u128>)
        ensures
            category == self@.category_id,
    {
        self.category_id
    }

    /// What the dashboard shows of the entry.
    pub fn to_overview(&self) -> (overview: EntryOverview)
        ensures
            overview.id == self@.id,
            overview.title@ == self@.title,
            text_view(overview.username) == self@.username,
            text_view(overview.url) == self@.url,
            overview.category_id == self@.category_id,
            text_view(overview.category_name) == self@.category_name,
            overview.favorite == self@.favorite,
            overview.created_at == self@.created_at,
            overview.updated_at == self@.updated_at,
    {
        EntryOverview {
            id: self.id,
            title: self.title.clone(),
            username: copy_text(&self.username),
            url: copy_text(&self.url),
            category_id: self.category_id,
            category_name: copy_text(&self.category_name),
            favorite: self.favorite,
            created_at: self.created_at,
            updated_at: self.updated_at,
        }
    }

    /// Overwrites the entry: the title, the user name and the URL are wiped,
    /// and so are the sealed fields. The identifier, the category and the
    /// stamps stay.
    pub fn zeroize(&mut self)
        ensures
            final(self)@.title == Seq::<char>::empty(),
            final(self)@.username == match old(self)@.username {
                Some(_) => Some(Seq::<char>::empty()),
                None => None,
            },
            final(self)@.url == match old(self)@.url {
                Some(_) => Some(Seq::<char>::empty()),
                None => None,
            },
            final(self)@.sensitive_data.password is None,
            final(self)@.sensitive_data.notes is None,
            final(self)@.id == old(self)@.id,
            final(self)@.category_id == old(self)@.category_id,
            final(self)@.category_name == old(self)@.category_name,
            final(self)@.favorite == old(self)@.favorite,
            final(self)@.created_at == old(self)@.created_at,
            final(self)@.updated_at == old(self)@.updated_at,
    {
        zeroize_text(&mut self.title);
        wipe_text(&mut self.username);
        wipe_text(&mut self.url);
        self.sensitive_data.zeroize();
    }

    /// The identifier.
    pub fn id(&self) -> (id: &u128)
        ensures
            *id == self@.id,
    {
        &self.id
    }

    /// The title.
    pub fn title(&self) -> (title: &str)
        ensures
            title@ == self@.title,
    {
        self.title.as_str()
    }

    /// The user name, if the entry has one.
    pub fn username(&self) -> (username: Option<&str>)
        ensures
            match username {
                Some(name) => self@.username == Some(name@),
                None => self@.username is None,
            },
    {
        match &self.username {
            Some(name) => Some(name.as_str()),
            None => None,
        }
    }

    /// The URL, if the entry has one.
    pub fn url(&self) -> (url: Option<&str>)
        ensures
            match url {
                Some(address) => self@.url == Some(address@),
                None => self@.url is None,
            },
    {
        match &self.url {
            Some(address) => Some(address.as_str()),
            None => None,
        }
    }

    /// The category that the entry is filed under, if any.
    pub fn category_id(&self) -> (category_id: Option<&u128>)
        ensures
            match category_id {
                Some(id) => self@.category_id == Some(*id),
                None => self@.category_id is None,
            },
    {
        self.category_id.as_ref()
    }

    /// The name of that category.
    pub fn category_name(&self) -> (category_name: Option<&str>)
        ensures
            match category_name {
                Some(name) => self@.category_name == Some(name@),
                None => self@.category_name is None,
            },
    {
        match &self.category_name {
            Some(name) => Some(name.as_str()),
            None => None,
        }
    }

    /// Whether the entry is marked as a favourite.
    pub fn favorite(&self) -> (favorite: bool)
        ensures
            favorite == self@.favorite,
    {
        self.favorite
    }

    /// When the entry was made.
    pub fn created_at(&self) -> (stamp: Timestamp)
        ensures
            stamp == self@.created_at,
    {
        self.created_at
    }

    /// When the entry was last changed.
    pub fn updated_at(&self) -> (stamp: Timestamp)
        ensures
            stamp == self@.updated_at,
    {
        self.updated_at
    }

    /// The sealed password and notes.
    pub fn sensitive_data(&self) -> (sealed: &EncryptedSensitiveData)
        ensures
            sealed@ == self@.sensitive_data,
    {
        &self.sensitive_data
    }
}

impl DecryptedEntry {
    /// Overwrites every text of the entry.
    pub fn zeroize(&mut self)
        ensures
            final(self).title@ == Seq::<char>::empty(),
            final(self).password is Some ==> final(self).password->Some_0@ == Seq::<char>::empty(),
            final(self).notes is Some ==> final(self).notes->Some_0@ == Seq::<char>::empty(),
            final(self).username is Some ==> final(self).username->Some_0@ == Seq::<
                char,
            >::empty(),
            final(self).url is Some ==> final(self).url->Some_0@ == Seq::<char>::empty(),
            final(self).password is Some <==> old(self).password is Some,
            final(self).notes is Some <==> old(self).notes is Some,
            final(self).id == old(self).id,
    {
        zeroize_text(&mut self.title);
        wipe_text(&mut self.username);
        wipe_text(&mut self.url);
        wipe_text(&mut self.password);
        wipe_text(&mut self.notes);
    }
}

} // verus!
