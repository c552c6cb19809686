//! Records as JSON objects: which members a record writes, and which it
//! needs to be read back.
//!
//! Every field of a record is one member under the field's name. Reading
//! asks for each member by name and ignores the rest, so an object with more
//! members than a record needs is still that record.

use crate::error::EntryError;
use crate::json::{
    is_flat, json_decoding, json_encoding, json_members, json_object_from_bytes,
    json_object_insert_text, json_object_insert_unsigned, json_object_new, json_object_to_bytes,
    member_text, member_u8, member_unsigned, member_usize, object_text, object_u8,
    object_unsigned, object_usize, JsonItem, JsonMembers, JsonObject,
};
use crate::model::{
    Card, CardView, Category, Note, NoteView, Password, PasswordView, RecordView, TOTPEntry,
    TOTPEntryView,
};
use vstd::prelude::*;

verus! {

/// The members that a password writes.
pub open spec fn password_members(p: PasswordView) -> JsonMembers {
    JsonMembers::empty().insert("name"@, JsonItem::Text(p.name)).insert(
        "username"@,
        JsonItem::Text(p.username),
    ).insert("password"@, JsonItem::Text(p.password)).insert("url"@, JsonItem::Text(p.url)).insert(
        "expiration_date"@,
        JsonItem::Text(p.expiration_date),
    ).insert("created_at"@, JsonItem::Text(p.created_at))
}

/// The password that an object stands for: all six members must be texts.
pub open spec fn password_from_members(m: JsonMembers) -> Option<PasswordView> {
    if member_text(m, "name"@) is Some && member_text(m, "username"@) is Some && member_text(
        m,
        "password"@,
    ) is Some && member_text(m, "url"@) is Some && member_text(m, "expiration_date"@) is Some
        && member_text(m, "created_at"@) is Some {
        Some(
            PasswordView {
                name: member_text(m, "name"@).unwrap(),
                username: member_text(m, "username"@).unwrap(),
                password: member_text(m, "password"@).unwrap(),
                url: member_text(m, "url"@).unwrap(),
                expiration_date: member_text(m, "expiration_date"@).unwrap(),
                created_at: member_text(m, "created_at"@).unwrap(),
            },
        )
    } else {
        None
    }
}

/// The members that a note writes.
pub open spec fn note_members(n: NoteView) -> JsonMembers {
    JsonMembers::empty().insert("name"@, JsonItem::Text(n.name)).insert(
        "content"@,
        JsonItem::Text(n.content),
    ).insert("created_at"@, JsonItem::Text(n.created_at))
}

/// The note that an object stands for: all three members must be texts.
pub open spec fn note_from_members(m: JsonMembers) -> Option<NoteView> {
    if member_text(m, "name"@) is Some && member_text(m, "content"@) is Some && member_text(
        m,
        "created_at"@,
    ) is Some {
        Some(
            NoteView {
                name: member_text(m, "name"@).unwrap(),
                content: member_text(m, "content"@).unwrap(),
                created_at: member_text(m, "created_at"@).unwrap(),
            },
        )
    } else {
        None
    }
}

/// The members that a card writes.
pub open spec fn card_members(c: CardView) -> JsonMembers {
    JsonMembers::empty().insert("name"@, JsonItem::Text(c.name)).insert(
        "cardholder_name"@,
        JsonItem::Text(c.cardholder_name),
    ).insert("card_number"@, JsonItem::Text(c.card_number)).insert(
        "security_code"@,
        JsonItem::Text(c.security_code),
    ).insert("expiration_date"@, JsonItem::Text(c.expiration_date)).insert(
        "created_at"@,
        JsonItem::Text(c.created_at),
    )
}

/// The card that an object stands for: all six members must be texts.
pub open spec fn card_from_members(m: JsonMembers) -> Option<CardView> {
    if member_text(m, "name"@) is Some && member_text(m, "cardholder_name"@) is Some
        && member_text(m, "card_number"@) is Some && member_text(m, "security_code"@) is Some
        && member_text(m, "expiration_date"@) is Some && member_text(m, "created_at"@) is Some {
        Some(
            CardView {
                name: member_text(m, "name"@).unwrap(),
                cardholder_name: member_text(m, "cardholder_name"@).unwrap(),
                card_number: member_text(m, "card_number"@).unwrap(),
                security_code: member_text(m, "security_code"@).unwrap(),
                expiration_date: member_text(m, "expiration_date"@).unwrap(),
                created_at: member_text(m, "created_at"@).unwrap(),
            },
        )
    } else {
        None
    }
}

/// The members that a TOTP entry writes. The three numbers are whole numbers.
pub open spec fn totp_members(t: TOTPEntryView) -> JsonMembers {
    JsonMembers::empty().insert("name"@, JsonItem::Text(t.name)).insert(
        "algorithm"@,
        JsonItem::Text(t.algorithm),
    ).insert("secret"@, JsonItem::Text(t.secret)).insert(
        "digits"@,
        JsonItem::Unsigned(t.digits as u64),
    ).insert("skew"@, JsonItem::Unsigned(t.skew as u64)).insert(
        "period"@,
        JsonItem::Unsigned(t.period),
    ).insert("created_at"@, JsonItem::Text(t.created_at))
}

/// The TOTP entry that an object stands for: four members must be texts and
/// three unsigned numbers, `digits` within `usize` and `skew` below 256.
pub open spec fn totp_from_members(m: JsonMembers) -> Option<TOTPEntryView> {
    if member_text(m, "name"@) is Some && member_text(m, "algorithm"@) is Some && member_text(
        m,
        "secret"@,
    ) is Some && member_usize(m, "digits"@) is Some && member_u8(m, "skew"@) is Some
        && member_unsigned(m, "period"@) is Some && member_text(m, "created_at"@) is Some {
        Some(
            TOTPEntryView {
                name: member_text(m, "name"@).unwrap(),
                algorithm: member_text(m, "algorithm"@).unwrap(),
                secret: member_text(m, "secret"@).unwrap(),
                digits: member_usize(m, "digits"@).unwrap(),
                skew: member_u8(m, "skew"@).unwrap(),
                period: member_unsigned(m, "period"@).unwrap(),
                created_at: member_text(m, "created_at"@).unwrap(),
            },
        )
    } else {
        None
    }
}

/// The members that a record writes.
pub open spec fn record_members(record: RecordView) -> JsonMembers {
    match record {
        RecordView::Password(p) => password_members(p),
        RecordView::Note(n) => note_members(n),
        RecordView::Card(c) => card_members(c),
        RecordView::TOTPEntry(t) => totp_members(t),
    }
}

/// The record of a category that an object stands for.
pub open spec fn record_from_members(category: Category, m: JsonMembers) -> Option<RecordView> {
    match category {
        Category::Password => match password_from_members(m) {
            Some(p) => Some(RecordView::Password(p)),
            None => None,
        },
        Category::Note => match note_from_members(m) {
            Some(n) => Some(RecordView::Note(n)),
            None => None,
        },
        Category::Card => match card_from_members(m) {
            Some(c) => Some(RecordView::Card(c)),
            None => None,
        },
        Category::TotpEntry => match totp_from_members(m) {
            Some(t) => Some(RecordView::TOTPEntry(t)),
            None => None,
        },
    }
}

/// The record of a category that bytes stand for: the bytes must be a JSON
/// object, and the object a record of the category.
pub open spec fn record_decoding(category: Category, bytes: Seq<u8>) -> Option<RecordView> {
    match json_decoding(bytes) {
        Some(m) => record_from_members(category, m),
        None => None,
    }
}

/// `bytes` are what a record's members are written as, and read back as the
/// same members.
pub open spec fn is_encoding(members: JsonMembers, bytes: Seq<u8>) -> bool {
    &&& json_encoding(members) == Some(bytes)
    &&& json_decoding(bytes) == Some(members)
}

/// The length and the first character of every member name. No two names
/// agree in both, so the names are pairwise different.
pub proof fn lemma_member_names()
    ensures
        "name"@.len() == 4 && "name"@[0] == 'n',
        "username"@.len() == 8 && "username"@[0] == 'u',
        "password"@.len() == 8 && "password"@[0] == 'p',
        "url"@.len() == 3 && "url"@[0] == 'u',
        "expiration_date"@.len() == 15 && "expiration_date"@[0] == 'e',
        "created_at"@.len() == 10 && "created_at"@[0] == 'c',
        "content"@.len() == 7 && "content"@[0] == 'c',
        "cardholder_name"@.len() == 15 && "cardholder_name"@[0] == 'c',
        "card_number"@.len() == 11 && "card_number"@[0] == 'c',
        "security_code"@.len() == 13 && "security_code"@[0] == 's',
        "algorithm"@.len() == 9 && "algorithm"@[0] == 'a',
        "secret"@.len() == 6 && "secret"@[0] == 's',
        "digits"@.len() == 6 && "digits"@[0] == 'd',
        "skew"@.len() == 4 && "skew"@[0] == 's',
        "period"@.len() == 6 && "period"@[0] == 'p',
{
    reveal_strlit("name");
    reveal_strlit("username");
    reveal_strlit("password");
    reveal_strlit("url");
    reveal_strlit("expiration_date");
    reveal_strlit("created_at");
    reveal_strlit("content");
    reveal_strlit("cardholder_name");
    reveal_strlit("card_number");
    reveal_strlit("security_code");
    reveal_strlit("algorithm");
    reveal_strlit("secret");
    reveal_strlit("digits");
    reveal_strlit("skew");
    reveal_strlit("period");
}

/// Reading the members that a password wrote gives the password back.
pub proof fn lemma_password_members_round_trip(p: PasswordView)
    ensures
        password_from_members(password_members(p)) == Some(p),
        is_flat(password_members(p)),
{
    lemma_member_names();
}

/// Reading the members that a note wrote gives the note back.
pub proof fn lemma_note_members_round_trip(n: NoteView)
    ensures
        note_from_members(note_members(n)) == Some(n),
        is_flat(note_members(n)),
{
    lemma_member_names();
}

/// Reading the members that a card wrote gives the card back.
pub proof fn lemma_card_members_round_trip(c: CardView)
    ensures
        card_from_members(card_members(c)) == Some(c),
        is_flat(card_members(c)),
{
    lemma_member_names();
}

/// Reading the members that a TOTP entry wrote gives the entry back.
pub proof fn lemma_totp_members_round_trip(t: TOTPEntryView)
    ensures
        totp_from_members(totp_members(t)) == Some(t),
        is_flat(totp_members(t)),
{
    lemma_member_names();
}

/// Reading the members that a record wrote, as a record of its own category,
/// gives the record back.
pub proof fn lemma_record_members_round_trip(record: RecordView)
    ensures
        record_from_members(record.category(), record_members(record)) == Some(record),
        is_flat(record_members(record)),
{
    match record {
        RecordView::Password(p) => lemma_password_members_round_trip(p),
        RecordView::Note(n) => lemma_note_members_round_trip(n),
        RecordView::Card(c) => lemma_card_members_round_trip(c),
        RecordView::TOTPEntry(t) => lemma_totp_members_round_trip(t),
    }
}

/// The members that a record wrote are no record of another category: a
/// member that the other category needs is missing.
pub proof fn lemma_members_of_another_category(record: RecordView, category: Category)
    requires
        category != record.category(),
    ensures
        record_from_members(category, record_members(record)) is None,
{
    lemma_member_names();
}

/// The JSON object of a password: one member per field.
pub fn password_to_object(password: &Password) -> (object: JsonObject)
    ensures
        json_members(object) == password_members(password@),
{
    let mut object = json_object_new();
    json_object_insert_text(&mut object, "name", password.name.as_str());
    json_object_insert_text(&mut object, "username", password.username.as_str());
    json_object_insert_text(&mut object, "password", password.password.as_str());
    json_object_insert_text(&mut object, "url", password.url.as_str());
    json_object_insert_text(&mut object, "expiration_date", password.expiration_date.as_str());
    json_object_insert_text(&mut object, "created_at", password.created_at.as_str());
    object
}

/// Reads a password from a JSON object. Members that a password does not have
/// are ignored; a missing member or one of the wrong kind gives `None`.
pub fn password_from_object(object: &JsonObject) -> (r: Option<Password>)
    ensures
        r matches Some(password) ==> password_from_members(json_members(*object)) == Some(
            password@,
        ),
        r is None ==> password_from_members(json_members(*object)) is None,
{
    let name = object_text(object, "name")?;
    let username = object_text(object, "username")?;
    let password = object_text(object, "password")?;
    let url = object_text(object, "url")?;
    let expiration_date = object_text(object, "expiration_date")?;
    let created_at = object_text(object, "created_at")?;
    Some(Password { name, username, password, url, expiration_date, created_at })
}

/// Writes a password as the bytes of its JSON object.
///
/// Fails with `Serialization` where the object cannot be written.
pub fn serialize_password(password: &Password) -> (r: Result<Vec<u8>, EntryError>)
    ensures
        r matches Ok(bytes) ==> is_encoding(password_members(password@), bytes@),
        r matches Err(e) ==> e == EntryError::Serialization && json_encoding(
            password_members(password@),
        ) is None,
{
    let object = password_to_object(password);
    proof {
        lemma_password_members_round_trip(password@);
    }
    match json_object_to_bytes(&object) {
        Ok(bytes) => Ok(bytes),
        Err(_) => Err(EntryError::Serialization),
    }
}

/// Reads a password from the bytes of a JSON object.
///
/// Fails with `Deserialization` where the bytes are no JSON object or the
/// object lacks a member of a password.
pub fn deserialize_password(bytes: &[u8]) -> (r: Result<Password, EntryError>)
    ensures
        r matches Ok(password) ==> record_decoding(Category::Password, bytes@) == Some(
            RecordView::Password(password@),
        ),
        r matches Err(e) ==> e == EntryError::Deserialization && record_decoding(
            Category::Password,
            bytes@,
        ) is None,
{
    match json_object_from_bytes(bytes) {
        Ok(object) => match password_from_object(&object) {
            Some(password) => Ok(password),
            None => Err(EntryError::Deserialization),
        },
        Err(_) => Err(EntryError::Deserialization),
    }
}

/// The JSON object of a note: one member per field.
pub fn note_to_object(note: &Note) -> (object: JsonObject)
    ensures
        json_members(object) == note_members(note@),
{
    let mut object = json_object_new();
    json_object_insert_text(&mut object, "name", note.name.as_str());
    json_object_insert_text(&mut object, "content", note.content.as_str());
    json_object_insert_text(&mut object, "created_at", note.created_at.as_str());
    object
}

/// Reads a note from a JSON object. Members that a note does not have
/// are ignored; a missing member or one of the wrong kind gives `None`.
pub fn note_from_object(object: &JsonObject) -> (r: Option<Note>)
    ensures
        r matches Some(note) ==> note_from_members(json_members(*object)) == Some(note@),
        r is None ==> note_from_members(json_members(*object)) is None,
{
    let name = object_text(object, "name")?;
    let content = object_text(object, "content")?;
    let created_at = object_text(object, "created_at")?;
    Some(Note { name, content, created_at })
}

/// Writes a note as the bytes of its JSON object.
///
/// Fails with `Serialization` where the object cannot be written.
pub fn serialize_note(note: &Note) -> (r: Result<Vec<u8>, EntryError>)
    ensures
        r matches Ok(bytes) ==> is_encoding(note_members(note@), bytes@),
        r matches Err(e) ==> e == EntryError::Serialization && json_encoding(
            note_members(note@),
        ) is None,
{
    let object = note_to_object(note);
    proof {
        lemma_note_members_round_trip(note@);
    }
    match json_object_to_bytes(&object) {
        Ok(bytes) => Ok(bytes),
        Err(_) => Err(EntryError::Serialization),
    }
}

/// Reads a note from the bytes of a JSON object.
///
/// Fails with `Deserialization` where the bytes are no JSON object or the
/// object lacks a member of a note.
pub fn deserialize_note(bytes: &[u8]) -> (r: Result<Note, EntryError>)
    ensures
        r matches Ok(note) ==> record_decoding(Category::Note, bytes@) == Some(
            RecordView::Note(note@),
        ),
        r matches Err(e) ==> e == EntryError::Deserialization && record_decoding(
            Category::Note,
            bytes@,
        ) is None,
{
    match json_object_from_bytes(bytes) {
        Ok(object) => match note_from_object(&object) {
            Some(note) => Ok(note),
            None => Err(EntryError::Deserialization),
        },
        Err(_) => Err(EntryError::Deserialization),
    }
}

/// The JSON object of a card: one member per field.
pub fn card_to_object(card: &Card) -> (object: JsonObject)
    ensures
        json_members(object) == card_members(card@),
{
    let mut object = json_object_new();
    json_object_insert_text(&mut object, "name", card.name.as_str());
    json_object_insert_text(&mut object, "cardholder_name", card.cardholder_name.as_str());
    json_object_insert_text(&mut object, "card_number", card.card_number.as_str());
    json_object_insert_text(&mut object, "security_code", card.security_code.as_str());
    json_object_insert_text(&mut object, "expiration_date", card.expiration_date.as_str());
    json_object_insert_text(&mut object, "created_at", card.created_at.as_str());
    object
}

/// Reads a card from a JSON object. Members that a card does not have
/// are ignored; a missing member or one of the wrong kind gives `None`.
pub fn card_from_object(object: &JsonObject) -> (r: Option<Card>)
    ensures
        r matches Some(card) ==> card_from_members(json_members(*object)) == Some(card@),
        r is None ==> card_from_members(json_members(*object)) is None,
{
    let name = object_text(object, "name")?;
    let cardholder_name = object_text(object, "cardholder_name")?;
    let card_number = object_text(object, "card_number")?;
    let security_code = object_text(object, "security_code")?;
    let expiration_date = object_text(object, "expiration_date")?;
    let created_at = object_text(object, "created_at")?;
    Some(Card { name, cardholder_name, card_number, security_code, expiration_date, created_at })
}

/// Writes a card as the bytes of its JSON object.
///
/// Fails with `Serialization` where the object cannot be written.
pub fn serialize_card(card: &Card) -> (r: Result<Vec<u8>, EntryError>)
    ensures
        r matches Ok(bytes) ==> is_encoding(card_members(card@), bytes@),
        r matches Err(e) ==> e == EntryError::Serialization && json_encoding(
            card_members(card@),
        ) is None,
{
    let object = card_to_object(card);
    proof {
        lemma_card_members_round_trip(card@);
    }
    match json_object_to_bytes(&object) {
        Ok(bytes) => Ok(bytes),
        Err(_) => Err(EntryError::Serialization),
    }
}

/// Reads a card from the bytes of a JSON object.
///
/// Fails with `Deserialization` where the bytes are no JSON object or the
/// object lacks a member of a card.
pub fn deserialize_card(bytes: &[u8]) -> (r: Result<Card, EntryError>)
    ensures
        r matches Ok(card) ==> record_decoding(Category::Card, bytes@) == Some(
            RecordView::Card(card@),
        ),
        r matches Err(e) ==> e == EntryError::Deserialization && record_decoding(
            Category::Card,
            bytes@,
        ) is None,
{
    match json_object_from_bytes(bytes) {
        Ok(object) => match card_from_object(&object) {
            Some(card) => Ok(card),
            None => Err(EntryError::Deserialization),
        },
        Err(_) => Err(EntryError::Deserialization),
    }
}

/// The JSON object of a TOTP entry: one member per field.
pub fn totp_to_object(entry: &TOTPEntry) -> (object: JsonObject)
    ensures
        json_members(object) == totp_members(entry@),
{
    let mut object = json_object_new();
    json_object_insert_text(&mut object, "name", entry.name.as_str());
    json_object_insert_text(&mut object, "algorithm", entry.algorithm.as_str());
    json_object_insert_text(&mut object, "secret", entry.secret.as_str());
    json_object_insert_unsigned(&mut object, "digits", entry.digits as u64);
    json_object_insert_unsigned(&mut object, "skew", entry.skew as u64);
    json_object_insert_unsigned(&mut object, "period", entry.period);
    json_object_insert_text(&mut object, "created_at", entry.created_at.as_str());
    object
}

/// Reads a TOTP entry from a JSON object. Members that a TOTP entry does not have
/// are ignored; a missing member or one of the wrong kind gives `None`.
pub fn totp_from_object(object: &JsonObject) -> (r: Option<TOTPEntry>)
    ensures
        r matches Some(entry) ==> totp_from_members(json_members(*object)) == Some(entry@),
        r is None ==> totp_from_members(json_members(*object)) is None,
{
    let name = object_text(object, "name")?;
    let algorithm = object_text(object, "algorithm")?;
    let secret = object_text(object, "secret")?;
    let digits: usize = object_usize(object, "digits")?;
    let skew: u8 = object_u8(object, "skew")?;
    let period: u64 = object_unsigned(object, "period")?;
    let created_at = object_text(object, "created_at")?;
    Some(TOTPEntry { name, algorithm, secret, digits, skew, period, created_at })
}

/// Writes a TOTP entry as the bytes of its JSON object.
///
/// Fails with `Serialization` where the object cannot be written.
pub fn serialize_totp(entry: &TOTPEntry) -> (r: Result<Vec<u8>, EntryError>)
    ensures
        r matches Ok(bytes) ==> is_encoding(totp_members(entry@), bytes@),
        r matches Err(e) ==> e == EntryError::Serialization && json_encoding(
            totp_members(entry@),
        ) is None,
{
    let object = totp_to_object(entry);
    proof {
        lemma_totp_members_round_trip(entry@);
    }
    match json_object_to_bytes(&object) {
        Ok(bytes) => Ok(bytes),
        Err(_) => Err(EntryError::Serialization),
    }
}

/// Reads a TOTP entry from the bytes of a JSON object.
///
/// Fails with `Deserialization` where the bytes are no JSON object or the
/// object lacks a member of a TOTP entry.
pub fn deserialize_totp(bytes: &[u8]) -> (r: Result<TOTPEntry, EntryError>)
    ensures
        r matches Ok(entry) ==> record_decoding(Category::TotpEntry, bytes@) == Some(
            RecordView::TOTPEntry(entry@),
        ),
        r matches Err(e) ==> e == EntryError::Deserialization && record_decoding(
            Category::TotpEntry,
            bytes@,
        ) is None,
{
    match json_object_from_bytes(bytes) {
        Ok(object) => match totp_from_object(&object) {
            Some(entry) => Ok(entry),
            None => Err(EntryError::Deserialization),
        },
        Err(_) => Err(EntryError::Deserialization),
    }
}

} // verus!
