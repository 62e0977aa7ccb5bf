//! What a user enters for an entry, and the rules it has to meet.

use vstd::prelude::*;
use vstd::string::StringExecFns;
use vstd::utf8::encode_utf8;
use url::Url;
use crate::clock::Timestamp;
use crate::entry::MAX_NOTES_LENGTH;
use crate::entry::MAX_PASS_CHAR_LENGTH;
use crate::entry::MAX_TITLE_LENGTH;
use crate::entry::MAX_URL_LENGTH;
use crate::entry::MAX_USERNAME_LENGTH;
use crate::error::entry_error::EntryError;

verus! {

/// Whether `url::Url::parse` accepts the text as a URL.
pub uninterp spec fn is_url(text: Seq<char>) -> bool;

/// `url::Url::parse`: tells whether the text parses as a URL.
#[verifier::external_body]
fn url_parses(text: &str) -> (accepted: bool)
    ensures
        accepted == is_url(text@),
{
    Url::parse(text).is_ok()
}

/// Why a field is refused.
pub enum EntryFault {
    /// The title is empty.
    NoTitle,
    /// The named field is too long.
    TooLong(Seq<char>),
    /// The URL does not parse.
    BadUrl,
}

/// Whether the error `e` reports the fault `fault`.
pub open spec fn reports_entry_fault(e: EntryError, fault: EntryFault) -> bool {
    match fault {
        EntryFault::NoTitle => e is InvalidTitle,
        EntryFault::TooLong(field) => e matches EntryError::InvalidLength(name) && name@ == field,
        EntryFault::BadUrl => e is InvalidUrl,
    }
}

/// Why a URL is refused; `None` where it is accepted. An empty URL is
/// accepted as it is; any other has to parse. Lengths count bytes.
pub open spec fn url_fault(url: Seq<char>) -> Option<EntryFault> {
    if encode_utf8(url).len() > MAX_URL_LENGTH {
        Some(EntryFault::TooLong("URL"@))
    } else if url.len() > 0 && !is_url(url) {
        Some(EntryFault::BadUrl)
    } else {
        None
    }
}

/// Checks a URL against the rules of the vault.
pub fn validate_url(url: &str) -> (checked: Result<(), EntryError>)
    ensures
        match checked {
            Ok(()) => url_fault(url@) is None,
            Err(e) => url_fault(url@) matches Some(fault) && reports_entry_fault(e, fault),
        },
{
    if url.as_bytes().len() > MAX_URL_LENGTH {
        return Err(EntryError::InvalidLength(String::from_str("URL")));
    }
    if !url.is_empty() {
        if !url_parses(url) {
            return Err(EntryError::InvalidUrl);
        }
    }
    Ok(())
}

/// What a user enters to create or change an entry. Only the title is
/// required.
#[derive(Debug, Clone)]
pub struct EntryData {
    pub title: String,
    pub username: Option<String>,
    pub password: Option<String>,
    pub url: Option<String>,
    pub notes: Option<String>,
    pub category_name: Option<String>,
    pub favorite: bool,
}

/// Whether an optional text is longer than `limit` bytes.
pub open spec fn is_over(text: Option<String>, limit: usize) -> bool {
    text matches Some(t) && encode_utf8(t@).len() > limit
}

impl EntryData {
    /// Why this input is refused; `None` where it is accepted. The fields
    /// are judged in the order title, user name, password, URL, notes.
    pub open spec fn fault(&self) -> Option<EntryFault> {
        if self.title@.len() == 0 {
            Some(EntryFault::NoTitle)
        } else if encode_utf8(self.title@).len() > MAX_TITLE_LENGTH {
            Some(EntryFault::TooLong("Title"@))
        } else if is_over(self.username, MAX_USERNAME_LENGTH) {
            Some(EntryFault::TooLong("Username"@))
        } else if is_over(self.password, MAX_PASS_CHAR_LENGTH) {
            Some(EntryFault::TooLong("Password"@))
        } else if self.url matches Some(url) && url_fault(url@) is Some {
            url_fault(self.url->Some_0@)
        } else if is_over(self.notes, MAX_NOTES_LENGTH) {
            Some(EntryFault::TooLong("Notes"@))
        } else {
            None
        }
    }

    /// Checks the input against the rules of the vault.
    pub fn validate(&self) -> (checked: Result<(), EntryError>)
        ensures
            match checked {
                Ok(()) => self.fault() is None,
                Err(e) => self.fault() matches Some(fault) && reports_entry_fault(e, fault),
            },
    {
        if self.title.as_str().is_empty() {
            return Err(EntryError::InvalidTitle);
        }
        if self.title.as_str().as_bytes().len() > MAX_TITLE_LENGTH {
            return Err(EntryError::InvalidLength(String::from_str("Title")));
        }
        if let Some(username) = &self.username {
            if username.as_str().as_bytes().len() > MAX_USERNAME_LENGTH {
                return Err(EntryError::InvalidLength(String::from_str("Username")));
            }
        }
        if let Some(password) = &self.password {
            if password.as_str().as_bytes().len() > MAX_PASS_CHAR_LENGTH {
                return Err(EntryError::InvalidLength(String::from_str("Password")));
            }
        }
        if let Some(url) = &self.url {
            match validate_url(url.as_str()) {
                Ok(()) => {},
                Err(e) => {
                    return Err(e);
                },
            }
        }
        if let Some(notes) = &self.notes {
            if notes.as_str().as_bytes().len() > MAX_NOTES_LENGTH {
                return Err(EntryError::InvalidLength(String::from_str("Notes")));
            }
        }
        Ok(())
    }
}

/// What the dashboard shows of an entry: everything but its sealed fields.
#[derive(Debug)]
pub struct EntryOverview {
    pub id: u128,
    pub title: String,
    pub username: Option<String>,
    pub url: Option<String>,
    pub category_id: Option<u128>,
    pub category_name: Option<String>,
    pub favorite: bool,
    pub created_at: Timestamp,
    pub updated_at: Timestamp,
}

} // verus!
