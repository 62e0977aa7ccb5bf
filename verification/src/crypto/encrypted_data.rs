//! The stored form of every secret: ciphertext, nonce and tag.

use vstd::prelude::*;
use crate::crypto::secure::zeroize_array;
use crate::crypto::secure::zeroize_bytes;
use crate::error::crypto_error::CryptoError;

verus! {

/// What an [`EncryptedData`] holds, as plain sequences of bytes.
pub struct EncryptedRecord {
    pub ciphertext: Seq<u8>,
    pub nonce: Seq<u8>,
    pub tag: Seq<u8>,
}

impl EncryptedRecord {
    /// The ciphertext followed by its tag, the form in which the cipher takes
    /// the two.
    pub open spec fn sealed(self) -> Seq<u8> {
        self.ciphertext + self.tag
    }
}

/// One sealed secret. It carries no key material.
#[derive(Debug)]
pub struct EncryptedData {
    ciphertext: Vec<u8>,
    nonce: [u8; 12],
    tag: [u8; 16],
}

impl View for EncryptedData {
    type V = EncryptedRecord;

    closed spec fn view(&self) -> EncryptedRecord {
        EncryptedRecord { ciphertext: self.ciphertext@, nonce: self.nonce@, tag: self.tag@ }
    }
}

impl Clone for EncryptedData {
    fn clone(&self) -> (copy: Self)
        ensures
            copy@ == self@,
    {
        EncryptedData { ciphertext: self.ciphertext.clone(), nonce: self.nonce, tag: self.tag }
    }
}

impl EncryptedData {
    /// A record is well formed when its ciphertext is not empty.
    pub open spec fn is_valid(&self) -> bool {
        self@.ciphertext.len() > 0
    }

    /// Builds a record, refusing an empty ciphertext.
    pub fn new(ciphertext: Vec<u8>, nonce: [u8; 12], tag: [u8; 16]) -> (made: Result<
        Self,
        CryptoError,
    >)
        ensures
            match made {
                Ok(record) => ciphertext@.len() > 0 && record@ == (EncryptedRecord {
                    ciphertext: ciphertext@,
                    nonce: nonce@,
                    tag: tag@,
                }),
                Err(e) => ciphertext@.len() == 0 && e is InvalidCiphertext,
            },
    {
        let encrypted_data = Self { ciphertext, nonce, tag };
        match encrypted_data.validate() {
            Ok(()) => Ok(encrypted_data),
            Err(e) => Err(e),
        }
    }

    /// Checks that the ciphertext is not empty.
    pub fn validate(&self) -> (checked: Result<(), CryptoError>)
        ensures
            match checked {
                Ok(()) => self.is_valid(),
                Err(e) => !self.is_valid() && e is InvalidCiphertext,
            },
    {
        if self.ciphertext.is_empty() {
            return Err(CryptoError::InvalidCiphertext);
        }
        Ok(())
    }

    /// The ciphertext, without its tag.
    pub fn ciphertext(&self) -> (bytes: &[u8])
        ensures
            bytes@ == self@.ciphertext,
    {
        self.ciphertext.as_slice()
    }

    /// The nonce under which the ciphertext was made.
    pub fn nonce(&self) -> (bytes: &[u8; 12])
        ensures
            bytes@ == self@.nonce,
    {
        &self.nonce
    }

    /// The authentication tag of the ciphertext.
    pub fn tag(&self) -> (bytes: &[u8; 16])
        ensures
            bytes@ == self@.tag,
    {
        &self.tag
    }

    /// Overwrites the record: the ciphertext is wiped and emptied, nonce and
    /// tag are set to zeros. What is left is no valid record.
    pub fn zeroize(&mut self)
        ensures
            final(self)@.ciphertext == Seq::<u8>::empty(),
            final(self)@.nonce == Seq::new(12, |i: int| 0u8),
            final(self)@.tag == Seq::new(16, |i: int| 0u8),
    {
        zeroize_bytes(&mut self.ciphertext);
        zeroize_array(&mut self.nonce);
        zeroize_array(&mut self.tag);
    }

    /// A record of 32 zero bytes under a zero nonce and a zero tag.
    pub fn zero() -> (record: Self)
        ensures
            record@.ciphertext == Seq::new(32, |i: int| 0u8),
            record@.nonce == Seq::new(12, |i: int| 0u8),
            record@.tag == Seq::new(16, |i: int| 0u8),
    {
        let record = Self { ciphertext: vec![0u8; 32], nonce: [0u8; 12], tag: [0u8; 16] };
        assert(record.ciphertext@ =~= Seq::new(32, |i: int| 0u8));
        assert(record.nonce@ =~= Seq::new(12, |i: int| 0u8));
        assert(record.tag@ =~= Seq::new(16, |i: int| 0u8));
        record
    }
}

} // verus!
