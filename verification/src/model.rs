//! The records of a vault, their encrypted form, and the vault itself.

use crate::text::texts_equal;
use vstd::prelude::*;

verus! {

/// The four kinds of record. Each has a key of its own.
#[derive(Debug, Clone, Copy, PartialEq, Eq, Structural)]
pub enum Category {
    Password,
    Note,
    Card,
    TotpEntry,
}

impl Category {
    /// The content type that entries of this category carry.
    pub open spec fn tag_spec(self) -> Seq<char> {
        match self {
            Category::Password => "password"@,
            Category::Note => "note"@,
            Category::Card => "card"@,
            Category::TotpEntry => "totp_entry"@,
        }
    }

    /// The content type that entries of this category carry.
    pub fn tag(&self) -> (text: &'static str)
        ensures
            text@ == self.tag_spec(),
    {
        match self {
            Category::Password => "password",
            Category::Note => "note",
            Category::Card => "card",
            Category::TotpEntry => "totp_entry",
        }
    }
}

/// The category that a content type names, `None` for any other text.
pub open spec fn category_of_tag(tag: Seq<char>) -> Option<Category> {
    if tag == "password"@ {
        Some(Category::Password)
    } else if tag == "note"@ {
        Some(Category::Note)
    } else if tag == "card"@ {
        Some(Category::Card)
    } else if tag == "totp_entry"@ {
        Some(Category::TotpEntry)
    } else {
        None
    }
}

/// The category that a content type names, `None` for any other text.
pub fn category_from_tag(tag: &str) -> (category: Option<Category>)
    ensures
        category == category_of_tag(tag@),
{
    if texts_equal(tag, "password") {
        Some(Category::Password)
    } else if texts_equal(tag, "note") {
        Some(Category::Note)
    } else if texts_equal(tag, "card") {
        Some(Category::Card)
    } else if texts_equal(tag, "totp_entry") {
        Some(Category::TotpEntry)
    } else {
        None
    }
}

/// The content type of a category names that category and no other.
pub proof fn lemma_tag_names_category(category: Category)
    ensures
        category_of_tag(category.tag_spec()) == Some(category),
{
    reveal_strlit("password");
    reveal_strlit("note");
    reveal_strlit("card");
    reveal_strlit("totp_entry");
    assert("password"@.len() == 8);
    assert("note"@.len() == 4 && "note"@[0] == 'n');
    assert("card"@.len() == 4 && "card"@[0] == 'c');
}

/// The views of a sequence of values, one for one.
pub open spec fn views<T: View>(items: Seq<T>) -> Seq<T::V> {
    items.map_values(|item: T| item@)
}

/// A login: where, who, and the secret.
#[derive(Debug, Clone, PartialEq, Eq)]
pub struct Password {
    pub name: String,
    pub username: String,
    pub password: String,
    pub url: String,
    pub expiration_date: String,
    pub created_at: String,
}

/// A `Password` with its texts as sequences of characters.
pub struct PasswordView {
    pub name: Seq<char>,
    pub username: Seq<char>,
    pub password: Seq<char>,
    pub url: Seq<char>,
    pub expiration_date: Seq<char>,
    pub created_at: Seq<char>,
}

impl View for Password {
    type V = PasswordView;

    open spec fn view(&self) -> PasswordView {
        PasswordView {
            name: self.name@,
            username: self.username@,
            password: self.password@,
            url: self.url@,
            expiration_date: self.expiration_date@,
            created_at: self.created_at@,
        }
    }
}

/// A free-form secret note.
#[derive(Debug, Clone, PartialEq, Eq)]
pub struct Note {
    pub name: String,
    pub content: String,
    pub created_at: String,
}

/// A `Note` with its texts as sequences of characters.
pub struct NoteView {
    pub name: Seq<char>,
    pub content: Seq<char>,
    pub created_at: Seq<char>,
}

impl View for Note {
    type V = NoteView;

    open spec fn view(&self) -> NoteView {
        NoteView { name: self.name@, content: self.content@, created_at: self.created_at@ }
    }
}

/// A payment card.
#[derive(Debug, Clone, PartialEq, Eq)]
pub struct Card {
    pub name: String,
    pub cardholder_name: String,
    pub card_number: String,
    pub security_code: String,
    pub expiration_date: String,
    pub created_at: String,
}

/// A `Card` with its texts as sequences of characters.
pub struct CardView {
    pub name: Seq<char>,
    pub cardholder_name: Seq<char>,
    pub card_number: Seq<char>,
    pub security_code: Seq<char>,
    pub expiration_date: Seq<char>,
    pub created_at: Seq<char>,
}

impl View for Card {
    type V = CardView;

    open spec fn view(&self) -> CardView {
        CardView {
            name: self.name@,
            cardholder_name: self.cardholder_name@,
            card_number: self.card_number@,
            security_code: self.security_code@,
            expiration_date: self.expiration_date@,
            created_at: self.created_at@,
        }
    }
}

/// The seed and parameters of a time-based one-time password.
#[derive(Debug, Clone, PartialEq, Eq)]
pub struct TOTPEntry {
    pub name: String,
    pub algorithm: String,
    pub secret: String,
    pub digits: usize,
    pub skew: u8,
    pub period: u64,
    pub created_at: String,
}

/// A `TOTPEntry` with its texts as sequences of characters.
pub struct TOTPEntryView {
    pub name: Seq<char>,
    pub algorithm: Seq<char>,
    pub secret: Seq<char>,
    pub digits: usize,
    pub skew: u8,
    pub period: u64,
    pub created_at: Seq<char>,
}

impl View for TOTPEntry {
    type V = TOTPEntryView;

    open spec fn view(&self) -> TOTPEntryView {
        TOTPEntryView {
            name: self.name@,
            algorithm: self.algorithm@,
            secret: self.secret@,
            digits: self.digits,
            skew: self.skew,
            period: self.period,
            created_at: self.created_at@,
        }
    }
}

/// A record of any of the four categories.
#[derive(Debug, Clone, PartialEq, Eq)]
pub enum Record {
    Password(Password),
    Note(Note),
    Card(Card),
    TOTPEntry(TOTPEntry),
}

/// A `Record` with its texts as sequences of characters.
pub enum RecordView {
    Password(PasswordView),
    Note(NoteView),
    Card(CardView),
    TOTPEntry(TOTPEntryView),
}

impl View for Record {
    type V = RecordView;

    open spec fn view(&self) -> RecordView {
        match self {
            Record::Password(p) => RecordView::Password(p@),
            Record::Note(n) => RecordView::Note(n@),
            Record::Card(c) => RecordView::Card(c@),
            Record::TOTPEntry(t) => RecordView::TOTPEntry(t@),
        }
    }
}

impl RecordView {
    /// The category that the record belongs to.
    pub open spec fn category(self) -> Category {
        match self {
            RecordView::Password(_) => Category::Password,
            RecordView::Note(_) => Category::Note,
            RecordView::Card(_) => Category::Card,
            RecordView::TOTPEntry(_) => Category::TotpEntry,
        }
    }

    /// The name by which the record is found again.
    pub open spec fn name(self) -> Seq<char> {
        match self {
            RecordView::Password(p) => p.name,
            RecordView::Note(n) => n.name,
            RecordView::Card(c) => c.name,
            RecordView::TOTPEntry(t) => t.name,
        }
    }
}

/// One record as it is stored: its name in the clear, its content sealed.
#[derive(Debug, Clone, PartialEq, Eq)]
pub struct EncryptedDataEntry {
    /// The name of the record, copied from it.
    pub name: String,
    /// The ciphertext with its tag, as lower-case hexadecimal text.
    pub content: String,
    /// The nonce that the content was sealed with.
    pub nonce: Vec<u8>,
    /// The tag of the category whose key sealed the content.
    pub content_type: String,
}

/// An `EncryptedDataEntry` with its texts and bytes as sequences.
pub struct EncryptedDataEntryView {
    pub name: Seq<char>,
    pub content: Seq<char>,
    pub nonce: Seq<u8>,
    pub content_type: Seq<char>,
}

impl View for EncryptedDataEntry {
    type V = EncryptedDataEntryView;

    open spec fn view(&self) -> EncryptedDataEntryView {
        EncryptedDataEntryView {
            name: self.name@,
            content: self.content@,
            nonce: self.nonce@,
            content_type: self.content_type@,
        }
    }
}

/// What the storage backend answers when asked for every entry of a user.
#[derive(Debug, Clone, PartialEq, Eq)]
pub struct GetAllEncryptedDataEntriesResponse {
    pub data: Vec<EncryptedDataEntry>,
}

/// The length of a key in bytes.
pub const KEY_LEN: usize = 32;

/// The key of one category: 32 bytes for AES-256-GCM-SIV.
#[derive(Clone)]
pub struct EntryCipher {
    pub(crate) key: [u8; KEY_LEN],
}

impl View for EntryCipher {
    type V = Seq<u8>;

    /// The 32 bytes of the key.
    closed spec fn view(&self) -> Seq<u8> {
        self.key@
    }
}

impl EntryCipher {
    /// The cipher of a category from its key.
    pub fn new(key: [u8; KEY_LEN]) -> (cipher: EntryCipher)
        ensures
            cipher@ == key@,
    {
        EntryCipher { key }
    }
}

/// The four keys of a session, one per category.
#[derive(Clone)]
pub struct Ciphers {
    pub password_cipher: EntryCipher,
    pub note_cipher: EntryCipher,
    pub card_cipher: EntryCipher,
    pub totp_entry_cipher: EntryCipher,
}

/// The four keys of a session as byte sequences.
pub struct CiphersView {
    pub password: Seq<u8>,
    pub note: Seq<u8>,
    pub card: Seq<u8>,
    pub totp_entry: Seq<u8>,
}

impl CiphersView {
    /// The key of a category.
    pub open spec fn key(self, category: Category) -> Seq<u8> {
        match category {
            Category::Password => self.password,
            Category::Note => self.note,
            Category::Card => self.card,
            Category::TotpEntry => self.totp_entry,
        }
    }
}

impl View for Ciphers {
    type V = CiphersView;

    open spec fn view(&self) -> CiphersView {
        CiphersView {
            password: self.password_cipher@,
            note: self.note_cipher@,
            card: self.card_cipher@,
            totp_entry: self.totp_entry_cipher@,
        }
    }
}

impl Ciphers {
    /// The cipher of a category.
    pub fn cipher(&self, category: Category) -> (cipher: &EntryCipher)
        ensures
            cipher@ == self@.key(category),
    {
        match category {
            Category::Password => &self.password_cipher,
            Category::Note => &self.note_cipher,
            Category::Card => &self.card_cipher,
            Category::TotpEntry => &self.totp_entry_cipher,
        }
    }
}

/// The decrypted records of one user, one ordered collection per category.
#[derive(Debug, Clone, PartialEq, Eq)]
pub struct EntriesVault {
    pub passwords: Vec<Password>,
    pub notes: Vec<Note>,
    pub cards: Vec<Card>,
    pub totp_entries: Vec<TOTPEntry>,
}

/// An `EntriesVault` as four sequences of record views.
pub struct EntriesVaultView {
    pub passwords: Seq<PasswordView>,
    pub notes: Seq<NoteView>,
    pub cards: Seq<CardView>,
    pub totp_entries: Seq<TOTPEntryView>,
}

impl View for EntriesVault {
    type V = EntriesVaultView;

    open spec fn view(&self) -> EntriesVaultView {
        EntriesVaultView {
            passwords: views(self.passwords@),
            notes: views(self.notes@),
            cards: views(self.cards@),
            totp_entries: views(self.totp_entries@),
        }
    }
}

impl EntriesVault {
    /// A vault that holds no record.
    pub fn new() -> (vault: EntriesVault)
        ensures
            vault@.passwords.len() == 0,
            vault@.notes.len() == 0,
            vault@.cards.len() == 0,
            vault@.totp_entries.len() == 0,
    {
        EntriesVault {
            passwords: Vec::new(),
            notes: Vec::new(),
            cards: Vec::new(),
            totp_entries: Vec::new(),
        }
    }
}

/// The vault of a logged-in session with the keys that seal it.
pub struct DataVault {
    pub entries_vault: EntriesVault,
    pub ciphers: Ciphers,
}

impl DataVault {
    /// An empty vault with the keys of a session.
    pub fn new(ciphers: Ciphers) -> (vault: DataVault)
        ensures
            vault.ciphers == ciphers,
            vault.entries_vault@.passwords.len() == 0,
            vault.entries_vault@.notes.len() == 0,
            vault.entries_vault@.cards.len() == 0,
            vault.entries_vault@.totp_entries.len() == 0,
    {
        DataVault { entries_vault: EntriesVault::new(), ciphers }
    }
}

} // verus!
