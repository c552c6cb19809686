//! What can go wrong with one entry, and how a batch reports it.

use vstd::prelude::*;

verus! {

/// Why one entry could not be encrypted or decrypted.
#[derive(Debug, Clone, Copy, PartialEq, Eq, Structural)]
pub enum EntryError {
    /// The record could not be encoded.
    Serialization,
    /// The decrypted bytes are not an encoding of a record of the category.
    Deserialization,
    /// No nonce could be drawn, or the cipher refused the plaintext.
    Encryption,
    /// The ciphertext is not well-formed or does not authenticate under the key.
    Decryption,
    /// The entry's content type names none of the four categories.
    UnknownCategory,
}

impl EntryError {
    /// A short description for logs and dialogs.
    pub fn message(&self) -> (text: &'static str)
        ensures
            text@ == self.message_spec(),
    {
        match self {
            EntryError::Serialization => "failed to serialize the record",
            EntryError::Deserialization => "failed to deserialize the record",
            EntryError::Encryption => "failed to encrypt the record",
            EntryError::Decryption => "failed to decrypt the entry",
            EntryError::UnknownCategory => "unknown content type",
        }
    }

    /// The text that `message` returns.
    pub open spec fn message_spec(&self) -> Seq<char> {
        match self {
            EntryError::Serialization => "failed to serialize the record"@,
            EntryError::Deserialization => "failed to deserialize the record"@,
            EntryError::Encryption => "failed to encrypt the record"@,
            EntryError::Decryption => "failed to decrypt the entry"@,
            EntryError::UnknownCategory => "unknown content type"@,
        }
    }
}

/// One entry that a bulk operation left out, with the reason.
#[derive(Debug, Clone, PartialEq, Eq)]
pub struct EntryFailure {
    /// The name of the record or entry.
    pub name: String,
    /// The content type of the entry, as it was given.
    pub content_type: String,
    /// Why it was left out.
    pub error: EntryError,
}

/// An `EntryFailure` with its texts as sequences of characters.
pub struct EntryFailureView {
    pub name: Seq<char>,
    pub content_type: Seq<char>,
    pub error: EntryError,
}

impl View for EntryFailure {
    type V = EntryFailureView;

    open spec fn view(&self) -> EntryFailureView {
        EntryFailureView {
            name: self.name@,
            content_type: self.content_type@,
            error: self.error,
        }
    }
}

} // verus!
