//! Entries: records built from raw fields, sealed one at a time under the
//! key of their category, and opened again.

use crate::codec::{
    deserialize_card, deserialize_note, deserialize_password, deserialize_totp,
    lemma_members_of_another_category, lemma_record_members_round_trip, record_decoding,
    record_members, serialize_card, serialize_note, serialize_password, serialize_totp,
};
use crate::encryption::{
    decrypt_data_entry, encrypt_data_entry, encrypt_data_entry_with_nonce, is_sealing,
    lemma_sealing_opens, open_spec, MAX_PLAINTEXT_LEN, NONCE_LEN, TAG_LEN,
};
use crate::error::EntryError;
use crate::hex::{hex_decode, lemma_hex_decode_injective};
use crate::json::{json_decoding, json_encoding};
use crate::model::{
    Card, Category, EncryptedDataEntry, EncryptedDataEntryView, EntryCipher, Note, Password,
    Record, RecordView, TOTPEntry,
};
use vstd::prelude::*;

verus! {

/// A password from its fields. `created_at` is left empty; no field is checked.
pub fn create_password_entry(
    name: &str,
    username: &str,
    password: &str,
    url: &str,
    expiration_date: &str,
) -> (r: Password)
    ensures
        r@.name == name@,
        r@.username == username@,
        r@.password == password@,
        r@.url == url@,
        r@.expiration_date == expiration_date@,
        r@.created_at.len() == 0,
{
    Password {
        name: name.to_owned(),
        username: username.to_owned(),
        password: password.to_owned(),
        url: url.to_owned(),
        expiration_date: expiration_date.to_owned(),
        created_at: String::new(),
    }
}

/// A note from its fields. `created_at` is left empty; no field is checked.
pub fn create_note_entry(name: &str, content: &str) -> (r: Note)
    ensures
        r@.name == name@,
        r@.content == content@,
        r@.created_at.len() == 0,
{
    Note { name: name.to_owned(), content: content.to_owned(), created_at: String::new() }
}

/// A card from its fields. `created_at` is left empty; no field is checked.
pub fn create_card_entry(
    name: &str,
    cardholder_name: &str,
    card_number: &str,
    security_code: &str,
    expiration_date: &str,
) -> (r: Card)
    ensures
        r@.name == name@,
        r@.cardholder_name == cardholder_name@,
        r@.card_number == card_number@,
        r@.security_code == security_code@,
        r@.expiration_date == expiration_date@,
        r@.created_at.len() == 0,
{
    Card {
        name: name.to_owned(),
        cardholder_name: cardholder_name.to_owned(),
        card_number: card_number.to_owned(),
        security_code: security_code.to_owned(),
        expiration_date: expiration_date.to_owned(),
        created_at: String::new(),
    }
}

/// A TOTP entry from its fields. `created_at` is left empty; no field is
/// checked.
pub fn create_totp_entry(
    name: &str,
    algorithm: &str,
    secret: &str,
    digits: usize,
    skew: u8,
    period: u64,
) -> (r: TOTPEntry)
    ensures
        r@.name == name@,
        r@.algorithm == algorithm@,
        r@.secret == secret@,
        r@.digits == digits,
        r@.skew == skew,
        r@.period == period,
        r@.created_at.len() == 0,
{
    TOTPEntry {
        name: name.to_owned(),
        algorithm: algorithm.to_owned(),
        secret: secret.to_owned(),
        digits,
        skew,
        period,
        created_at: String::new(),
    }
}

/// `entry` is an encryption of `record` under `key`: it carries the record's
/// name and the tag of its category, and its content is the sealing, under
/// the entry's nonce, of the bytes that the record is written as. That the
/// bytes read back as the record's members, and that the sealing opens again
/// to the bytes, is part of it: both are what the JSON writer and the cipher
/// are trusted to do.
pub open spec fn encrypts_to(
    record: RecordView,
    key: Seq<u8>,
    entry: EncryptedDataEntryView,
) -> bool {
    &&& entry.name == record.name()
    &&& entry.content_type == record.category().tag_spec()
    &&& json_encoding(record_members(record)) matches Some(data)
    &&& json_decoding(data) == Some(record_members(record))
    &&& is_sealing(key, entry.nonce, data, entry.content)
}

/// The error that encrypting a record ends in whatever nonce is drawn:
/// `Serialization` where the record cannot be written as bytes, `Encryption`
/// where the bytes are more than the cipher accepts, `None` otherwise.
pub open spec fn encryption_refusal(record: RecordView) -> Option<EntryError> {
    match json_encoding(record_members(record)) {
        None => Some(EntryError::Serialization),
        Some(data) => if data.len() > MAX_PLAINTEXT_LEN {
            Some(EntryError::Encryption)
        } else {
            None
        },
    }
}

/// What encrypting `record` under `key` may give: an entry that is an
/// encryption of the record, or the error that the record forces, or, where
/// it forces none, `Encryption`.
pub open spec fn is_encrypt_outcome(
    record: RecordView,
    key: Seq<u8>,
    outcome: Result<EncryptedDataEntryView, EntryError>,
) -> bool {
    match outcome {
        Ok(entry) => encrypts_to(record, key, entry),
        Err(e) => match encryption_refusal(record) {
            Some(refusal) => e == refusal,
            None => e == EntryError::Encryption,
        },
    }
}

/// An entry or an error, the entry by its view.
pub open spec fn entry_outcome(r: Result<EncryptedDataEntry, EntryError>) -> Result<
    EncryptedDataEntryView,
    EntryError,
> {
    match r {
        Ok(entry) => Ok(entry@),
        Err(e) => Err(e),
    }
}

/// A record or an error, the record by its view.
pub open spec fn record_outcome(r: Result<Record, EntryError>) -> Result<RecordView, EntryError> {
    match r {
        Ok(record) => Ok(record@),
        Err(e) => Err(e),
    }
}

/// What decrypting an entry as a record of `category` under `key` gives:
/// `Decryption` where the content does not open, `Deserialization` where it
/// opens to bytes that are no record of the category, the record otherwise.
/// The entry's own content type plays no part.
pub open spec fn decrypt_spec(
    category: Category,
    entry: EncryptedDataEntryView,
    key: Seq<u8>,
) -> Result<RecordView, EntryError> {
    match open_spec(key, entry.nonce, entry.content) {
        None => Err(EntryError::Decryption),
        Some(data) => match record_decoding(category, data) {
            None => Err(EntryError::Deserialization),
            Some(record) => Ok(record),
        },
    }
}

/// `entry` decrypts under `key`, as a record of the category of `record`, to
/// `record`.
pub open spec fn decrypts_to(
    entry: EncryptedDataEntryView,
    key: Seq<u8>,
    record: RecordView,
) -> bool {
    decrypt_spec(record.category(), entry, key) == Ok::<RecordView, EntryError>(record)
}

/// Round trip: every encryption of a record decrypts, under the same key and
/// as a record of the same category, to that record.
pub proof fn lemma_encrypt_decrypt_round_trip(
    record: RecordView,
    key: Seq<u8>,
    entry: EncryptedDataEntryView,
)
    requires
        encrypts_to(record, key, entry),
    ensures
        decrypts_to(entry, key, record),
{
    let data = json_encoding(record_members(record)).unwrap();
    lemma_sealing_opens(key, entry.nonce, data, entry.content);
    lemma_record_members_round_trip(record);
}

/// The second line of defence: an encryption of a record, decrypted under
/// the same key as a record of another category, fails with
/// `Deserialization`.
pub proof fn lemma_another_category_fails_at_decoding(
    record: RecordView,
    key: Seq<u8>,
    entry: EncryptedDataEntryView,
    category: Category,
)
    requires
        encrypts_to(record, key, entry),
        category != record.category(),
    ensures
        decrypt_spec(category, entry, key) == Err::<RecordView, EntryError>(
            EntryError::Deserialization,
        ),
{
    let data = json_encoding(record_members(record)).unwrap();
    lemma_sealing_opens(key, entry.nonce, data, entry.content);
    lemma_members_of_another_category(record, category);
}

/// An entry whose nonce has not twelve bytes, or whose content is no
/// hexadecimal text for at least sixteen bytes, fails with `Decryption`
/// under every key and as every category.
pub proof fn lemma_malformed_entry_fails(
    category: Category,
    entry: EncryptedDataEntryView,
    key: Seq<u8>,
)
    requires
        entry.nonce.len() != NONCE_LEN || hex_decode(entry.content) is None || entry.content.len()
            < 2 * TAG_LEN,
    ensures
        decrypt_spec(category, entry, key) == Err::<RecordView, EntryError>(EntryError::Decryption),
{
}

/// A changed content is refused, or it is other ciphertext: with any content
/// but its own, an entry fails with `Decryption` unless the content is
/// hexadecimal text for other bytes than the entry's own content stands for.
/// Whether those bytes authenticate is the cipher's to decide.
pub proof fn lemma_changed_content_is_refused_or_other_bytes(
    category: Category,
    entry: EncryptedDataEntryView,
    changed: EncryptedDataEntryView,
    key: Seq<u8>,
)
    requires
        changed.content != entry.content,
    ensures
        decrypt_spec(category, changed, key) == Err::<RecordView, EntryError>(
            EntryError::Decryption,
        ) || (hex_decode(changed.content) is Some && hex_decode(changed.content) != hex_decode(
            entry.content,
        )),
{
    if hex_decode(changed.content) is Some && hex_decode(changed.content) == hex_decode(
        entry.content,
    ) {
        lemma_hex_decode_injective(changed.content, entry.content);
    }
}

/// An entry for serialized bytes, sealed under the given nonce.
///
/// Succeeds exactly where the bytes are no more than the cipher accepts.
pub fn seal_entry_with_nonce(
    name: &str,
    category: Category,
    data: &[u8],
    cipher: &EntryCipher,
    nonce: [u8; NONCE_LEN],
) -> (r: Result<EncryptedDataEntry, EntryError>)
    ensures
        r is Ok <==> data@.len() <= MAX_PLAINTEXT_LEN,
        r matches Ok(entry) ==> entry@.name == name@ && entry@.content_type == category.tag_spec()
            && entry@.nonce == nonce@ && is_sealing(cipher@, nonce@, data@, entry@.content),
        r matches Err(e) ==> e == EntryError::Encryption,
{
    match encrypt_data_entry_with_nonce(data, cipher, nonce) {
        Ok((content, nonce)) => Ok(
            EncryptedDataEntry {
                name: name.to_owned(),
                content,
                nonce,
                content_type: category.tag().to_owned(),
            },
        ),
        Err(e) => Err(e),
    }
}

/// An entry for serialized bytes, sealed under a fresh nonce.
pub fn seal_entry(name: &str, category: Category, data: &[u8], cipher: &EntryCipher) -> (r: Result<
    EncryptedDataEntry,
    EntryError,
>)
    ensures
        r matches Ok(entry) ==> entry@.name == name@ && entry@.content_type == category.tag_spec()
            && is_sealing(cipher@, entry@.nonce, data@, entry@.content),
        r matches Err(e) ==> e == EntryError::Encryption,
        data@.len() > MAX_PLAINTEXT_LEN ==> r is Err,
{
    match encrypt_data_entry(data, cipher) {
        Ok((content, nonce)) => Ok(
            EncryptedDataEntry {
                name: name.to_owned(),
                content,
                nonce,
                content_type: category.tag().to_owned(),
            },
        ),
        Err(e) => Err(e),
    }
}

/// A password or an error, as a record of any category.
pub open spec fn password_outcome(r: Result<Password, EntryError>) -> Result<
    RecordView,
    EntryError,
> {
    match r {
        Ok(password) => Ok(RecordView::Password(password@)),
        Err(e) => Err(e),
    }
}

/// Encrypts a password under the key of its category, with a fresh nonce.
///
/// Fails with `Serialization` where the password cannot be written as bytes,
/// and with `Encryption` where no nonce can be drawn or the cipher refuses
/// the bytes. An entry that comes back decrypts to the password.
pub fn encrypt_password_entry(password: &Password, cipher: &EntryCipher) -> (r: Result<
    EncryptedDataEntry,
    EntryError,
>)
    ensures
        is_encrypt_outcome(RecordView::Password(password@), cipher@, entry_outcome(r)),
        r matches Ok(entry) ==> decrypts_to(entry@, cipher@, RecordView::Password(password@)),
{
    let serialized_data = match serialize_password(password) {
        Ok(data) => data,
        Err(e) => {
            return Err(e);
        },
    };
    let name = password.name.as_str();
    let sealed = seal_entry(name, Category::Password, serialized_data.as_slice(), cipher);
    proof {
        if sealed is Ok {
            let record = RecordView::Password(password@);
            lemma_encrypt_decrypt_round_trip(record, cipher@, sealed.unwrap()@);
        }
    }
    sealed
}

/// Encrypts a password under the key of its category and the given nonce.
///
/// Succeeds exactly where the password can be written as bytes that the cipher
/// accepts; the entry is then the one encryption of the password under that
/// key and nonce, and decrypts to the password.
pub fn encrypt_password_entry_with_nonce(
    password: &Password,
    cipher: &EntryCipher,
    nonce: [u8; NONCE_LEN],
) -> (r: Result<EncryptedDataEntry, EntryError>)
    ensures
        is_encrypt_outcome(RecordView::Password(password@), cipher@, entry_outcome(r)),
        r is Ok <==> encryption_refusal(RecordView::Password(password@)) is None,
        r matches Ok(entry) ==> entry@.nonce == nonce@,
        r matches Ok(entry) ==> decrypts_to(entry@, cipher@, RecordView::Password(password@)),
{
    let serialized_data = match serialize_password(password) {
        Ok(data) => data,
        Err(e) => {
            return Err(e);
        },
    };
    let name = password.name.as_str();
    let data = serialized_data.as_slice();
    let sealed = seal_entry_with_nonce(name, Category::Password, data, cipher, nonce);
    proof {
        if sealed is Ok {
            let record = RecordView::Password(password@);
            lemma_encrypt_decrypt_round_trip(record, cipher@, sealed.unwrap()@);
        }
    }
    sealed
}

/// Decrypts an entry as a password.
///
/// Fails with `Decryption` where the content does not open under the key,
/// and with `Deserialization` where it opens to bytes that are not a password.
pub fn decrypt_password_entry(
    encrypted_data_entry: &EncryptedDataEntry,
    cipher: &EntryCipher,
) -> (r: Result<Password, EntryError>)
    ensures
        password_outcome(r) == decrypt_spec(Category::Password, encrypted_data_entry@, cipher@),
{
    match decrypt_data_entry(encrypted_data_entry, cipher) {
        Ok(data) => deserialize_password(data.as_slice()),
        Err(e) => Err(e),
    }
}

/// A note or an error, as a record of any category.
pub open spec fn note_outcome(r: Result<Note, EntryError>) -> Result<RecordView, EntryError> {
    match r {
        Ok(note) => Ok(RecordView::Note(note@)),
        Err(e) => Err(e),
    }
}

/// Encrypts a note under the key of its category, with a fresh nonce.
///
/// Fails with `Serialization` where the note cannot be written as bytes,
/// and with `Encryption` where no nonce can be drawn or the cipher refuses
/// the bytes. An entry that comes back decrypts to the note.
pub fn encrypt_note_entry(note: &Note, cipher: &EntryCipher) -> (r: Result<
    EncryptedDataEntry,
    EntryError,
>)
    ensures
        is_encrypt_outcome(RecordView::Note(note@), cipher@, entry_outcome(r)),
        r matches Ok(entry) ==> decrypts_to(entry@, cipher@, RecordView::Note(note@)),
{
    let serialized_data = match serialize_note(note) {
        Ok(data) => data,
        Err(e) => {
            return Err(e);
        },
    };
    let name = note.name.as_str();
    let sealed = seal_entry(name, Category::Note, serialized_data.as_slice(), cipher);
    proof {
        if sealed is Ok {
            let record = RecordView::Note(note@);
            lemma_encrypt_decrypt_round_trip(record, cipher@, sealed.unwrap()@);
        }
    }
    sealed
}

/// Encrypts a note under the key of its category and the given nonce.
///
/// Succeeds exactly where the note can be written as bytes that the cipher
/// accepts; the entry is then the one encryption of the note under that
/// key and nonce, and decrypts to the note.
pub fn encrypt_note_entry_with_nonce(
    note: &Note,
    cipher: &EntryCipher,
    nonce: [u8; NONCE_LEN],
) -> (r: Result<EncryptedDataEntry, EntryError>)
    ensures
        is_encrypt_outcome(RecordView::Note(note@), cipher@, entry_outcome(r)),
        r is Ok <==> encryption_refusal(RecordView::Note(note@)) is None,
        r matches Ok(entry) ==> entry@.nonce == nonce@,
        r matches Ok(entry) ==> decrypts_to(entry@, cipher@, RecordView::Note(note@)),
{
    let serialized_data = match serialize_note(note) {
        Ok(data) => data,
        Err(e) => {
            return Err(e);
        },
    };
    let name = note.name.as_str();
    let data = serialized_data.as_slice();
    let sealed = seal_entry_with_nonce(name, Category::Note, data, cipher, nonce);
    proof {
        if sealed is Ok {
            let record = RecordView::Note(note@);
            lemma_encrypt_decrypt_round_trip(record, cipher@, sealed.unwrap()@);
        }
    }
    sealed
}

/// Decrypts an entry as a note.
///
/// Fails with `Decryption` where the content does not open under the key,
/// and with `Deserialization` where it opens to bytes that are not a note.
pub fn decrypt_note_entry(
    encrypted_data_entry: &EncryptedDataEntry,
    cipher: &EntryCipher,
) -> (r: Result<Note, EntryError>)
    ensures
        note_outcome(r) == decrypt_spec(Category::Note, encrypted_data_entry@, cipher@),
{
    match decrypt_data_entry(encrypted_data_entry, cipher) {
        Ok(data) => deserialize_note(data.as_slice()),
        Err(e) => Err(e),
    }
}

/// A card or an error, as a record of any category.
pub open spec fn card_outcome(r: Result<Card, EntryError>) -> Result<RecordView, EntryError> {
    match r {
        Ok(card) => Ok(RecordView::Card(card@)),
        Err(e) => Err(e),
    }
}

/// Encrypts a card under the key of its category, with a fresh nonce.
///
/// Fails with `Serialization` where the card cannot be written as bytes,
/// and with `Encryption` where no nonce can be drawn or the cipher refuses
/// the bytes. An entry that comes back decrypts to the card.
pub fn encrypt_card_entry(card: &Card, cipher: &EntryCipher) -> (r: Result<
    EncryptedDataEntry,
    EntryError,
>)
    ensures
        is_encrypt_outcome(RecordView::Card(card@), cipher@, entry_outcome(r)),
        r matches Ok(entry) ==> decrypts_to(entry@, cipher@, RecordView::Card(card@)),
{
    let serialized_data = match serialize_card(card) {
        Ok(data) => data,
        Err(e) => {
            return Err(e);
        },
    };
    let name = card.name.as_str();
    let sealed = seal_entry(name, Category::Card, serialized_data.as_slice(), cipher);
    proof {
        if sealed is Ok {
            let record = RecordView::Card(card@);
            lemma_encrypt_decrypt_round_trip(record, cipher@, sealed.unwrap()@);
        }
    }
    sealed
}

/// Encrypts a card under the key of its category and the given nonce.
///
/// Succeeds exactly where the card can be written as bytes that the cipher
/// accepts; the entry is then the one encryption of the card under that
/// key and nonce, and decrypts to the card.
pub fn encrypt_card_entry_with_nonce(
    card: &Card,
    cipher: &EntryCipher,
    nonce: [u8; NONCE_LEN],
) -> (r: Result<EncryptedDataEntry, EntryError>)
    ensures
        is_encrypt_outcome(RecordView::Card(card@), cipher@, entry_outcome(r)),
        r is Ok <==> encryption_refusal(RecordView::Card(card@)) is None,
        r matches Ok(entry) ==> entry@.nonce == nonce@,
        r matches Ok(entry) ==> decrypts_to(entry@, cipher@, RecordView::Card(card@)),
{
    let serialized_data = match serialize_card(card) {
        Ok(data) => data,
        Err(e) => {
            return Err(e);
        },
    };
    let name = card.name.as_str();
    let data = serialized_data.as_slice();
    let sealed = seal_entry_with_nonce(name, Category::Card, data, cipher, nonce);
    proof {
        if sealed is Ok {
            let record = RecordView::Card(card@);
            lemma_encrypt_decrypt_round_trip(record, cipher@, sealed.unwrap()@);
        }
    }
    sealed
}

/// Decrypts an entry as a card.
///
/// Fails with `Decryption` where the content does not open under the key,
/// and with `Deserialization` where it opens to bytes that are not a card.
pub fn decrypt_card_entry(
    encrypted_data_entry: &EncryptedDataEntry,
    cipher: &EntryCipher,
) -> (r: Result<Card, EntryError>)
    ensures
        card_outcome(r) == decrypt_spec(Category::Card, encrypted_data_entry@, cipher@),
{
    match decrypt_data_entry(encrypted_data_entry, cipher) {
        Ok(data) => deserialize_card(data.as_slice()),
        Err(e) => Err(e),
    }
}

/// A TOTP entry or an error, as a record of any category.
pub open spec fn totp_outcome(r: Result<TOTPEntry, EntryError>) -> Result<RecordView, EntryError> {
    match r {
        Ok(totp_entry) => Ok(RecordView::TOTPEntry(totp_entry@)),
        Err(e) => Err(e),
    }
}

/// Encrypts a TOTP entry under the key of its category, with a fresh nonce.
///
/// Fails with `Serialization` where the TOTP entry cannot be written as bytes,
/// and with `Encryption` where no nonce can be drawn or the cipher refuses
/// the bytes. An entry that comes back decrypts to the TOTP entry.
pub fn encrypt_totp_entry(totp_entry: &TOTPEntry, cipher: &EntryCipher) -> (r: Result<
    EncryptedDataEntry,
    EntryError,
>)
    ensures
        is_encrypt_outcome(RecordView::TOTPEntry(totp_entry@), cipher@, entry_outcome(r)),
        r matches Ok(entry) ==> decrypts_to(entry@, cipher@, RecordView::TOTPEntry(totp_entry@)),
{
    let serialized_data = match serialize_totp(totp_entry) {
        Ok(data) => data,
        Err(e) => {
            return Err(e);
        },
    };
    let name = totp_entry.name.as_str();
    let sealed = seal_entry(name, Category::TotpEntry, serialized_data.as_slice(), cipher);
    proof {
        if sealed is Ok {
            let record = RecordView::TOTPEntry(totp_entry@);
            lemma_encrypt_decrypt_round_trip(record, cipher@, sealed.unwrap()@);
        }
    }
    sealed
}

/// Encrypts a TOTP entry under the key of its category and the given nonce.
///
/// Succeeds exactly where the TOTP entry can be written as bytes that the cipher
/// accepts; the entry is then the one encryption of the TOTP entry under that
/// key and nonce, and decrypts to the TOTP entry.
pub fn encrypt_totp_entry_with_nonce(
    totp_entry: &TOTPEntry,
    cipher: &EntryCipher,
    nonce: [u8; NONCE_LEN],
) -> (r: Result<EncryptedDataEntry, EntryError>)
    ensures
        is_encrypt_outcome(RecordView::TOTPEntry(totp_entry@), cipher@, entry_outcome(r)),
        r is Ok <==> encryption_refusal(RecordView::TOTPEntry(totp_entry@)) is None,
        r matches Ok(entry) ==> entry@.nonce == nonce@,
        r matches Ok(entry) ==> decrypts_to(entry@, cipher@, RecordView::TOTPEntry(totp_entry@)),
{
    let serialized_data = match serialize_totp(totp_entry) {
        Ok(data) => data,
        Err(e) => {
            return Err(e);
        },
    };
    let name = totp_entry.name.as_str();
    let data = serialized_data.as_slice();
    let sealed = seal_entry_with_nonce(name, Category::TotpEntry, data, cipher, nonce);
    proof {
        if sealed is Ok {
            let record = RecordView::TOTPEntry(totp_entry@);
            lemma_encrypt_decrypt_round_trip(record, cipher@, sealed.unwrap()@);
        }
    }
    sealed
}

/// Decrypts an entry as a TOTP entry.
///
/// Fails with `Decryption` where the content does not open under the key,
/// and with `Deserialization` where it opens to bytes that are not a TOTP entry.
pub fn decrypt_totp_entry(
    encrypted_data_entry: &EncryptedDataEntry,
    cipher: &EntryCipher,
) -> (r: Result<TOTPEntry, EntryError>)
    ensures
        totp_outcome(r) == decrypt_spec(Category::TotpEntry, encrypted_data_entry@, cipher@),
{
    match decrypt_data_entry(encrypted_data_entry, cipher) {
        Ok(data) => deserialize_totp(data.as_slice()),
        Err(e) => Err(e),
    }
}

} // verus!
