//! A whole vault at once: every entry of a payload decrypted into the vault,
//! every record of a vault encrypted for storage.
//!
//! Each item is worked on by itself, in parallel with the others. One that
//! fails is left out and reported; it never keeps the others from going
//! through. Within the result the items stand in the order in which they were
//! given.

use crate::entries::{
    decrypt_card_entry, decrypt_note_entry, decrypt_password_entry, decrypt_spec,
    decrypt_totp_entry, encrypt_card_entry, encrypt_note_entry, encrypt_password_entry,
    encrypt_totp_entry, encrypts_to, is_encrypt_outcome, record_outcome,
};
use crate::error::{EntryError, EntryFailure, EntryFailureView};
use crate::model::{
    category_from_tag, category_of_tag, views, Card, CardView, Category, Ciphers, CiphersView,
    DataVault, EncryptedDataEntry, EncryptedDataEntryView, EntriesVault, EntriesVaultView,
    GetAllEncryptedDataEntriesResponse, Note, NoteView, Password, PasswordView, Record,
    RecordView, TOTPEntry, TOTPEntryView,
};
use crate::parallel::par_map;
use crate::sequences::lemma_filter_map_join;
use vstd::prelude::*;

verus! {

/// What decrypting an entry with the keys of a session gives: the entry's
/// content type picks the category and its key; a content type that names no
/// category gives `UnknownCategory`.
pub open spec fn decrypt_entry_spec(entry: EncryptedDataEntryView, ciphers: CiphersView) -> Result<
    RecordView,
    EntryError,
> {
    match category_of_tag(entry.content_type) {
        None => Err(EntryError::UnknownCategory),
        Some(category) => decrypt_spec(category, entry, ciphers.key(category)),
    }
}

/// Decrypts one entry with the key that its content type asks for.
pub fn decrypt_entry(entry: &EncryptedDataEntry, ciphers: &Ciphers) -> (r: Result<
    Record,
    EntryError,
>)
    ensures
        record_outcome(r) == decrypt_entry_spec(entry@, ciphers@),
{
    match category_from_tag(entry.content_type.as_str()) {
        None => Err(EntryError::UnknownCategory),
        Some(Category::Password) => match decrypt_password_entry(entry, &ciphers.password_cipher) {
            Ok(password) => Ok(Record::Password(password)),
            Err(e) => Err(e),
        },
        Some(Category::Note) => match decrypt_note_entry(entry, &ciphers.note_cipher) {
            Ok(note) => Ok(Record::Note(note)),
            Err(e) => Err(e),
        },
        Some(Category::Card) => match decrypt_card_entry(entry, &ciphers.card_cipher) {
            Ok(card) => Ok(Record::Card(card)),
            Err(e) => Err(e),
        },
        Some(Category::TotpEntry) => match decrypt_totp_entry(entry, &ciphers.totp_entry_cipher) {
            Ok(totp_entry) => Ok(Record::TOTPEntry(totp_entry)),
            Err(e) => Err(e),
        },
    }
}

/// The password that an outcome holds, if it holds one.
pub open spec fn password_in(outcome: Result<RecordView, EntryError>) -> Option<PasswordView> {
    match outcome {
        Ok(RecordView::Password(password)) => Some(password),
        _ => None,
    }
}

/// The note that an outcome holds, if it holds one.
pub open spec fn note_in(outcome: Result<RecordView, EntryError>) -> Option<NoteView> {
    match outcome {
        Ok(RecordView::Note(note)) => Some(note),
        _ => None,
    }
}

/// The card that an outcome holds, if it holds one.
pub open spec fn card_in(outcome: Result<RecordView, EntryError>) -> Option<CardView> {
    match outcome {
        Ok(RecordView::Card(card)) => Some(card),
        _ => None,
    }
}

/// The TOTP entry that an outcome holds, if it holds one.
pub open spec fn totp_in(outcome: Result<RecordView, EntryError>) -> Option<TOTPEntryView> {
    match outcome {
        Ok(RecordView::TOTPEntry(totp_entry)) => Some(totp_entry),
        _ => None,
    }
}

/// The report on an entry that did not decrypt, `None` for one that did.
pub open spec fn failure_in(
    entry: EncryptedDataEntryView,
    outcome: Result<RecordView, EntryError>,
) -> Option<EntryFailureView> {
    match outcome {
        Ok(_) => None,
        Err(error) => Some(
            EntryFailureView { name: entry.name, content_type: entry.content_type, error },
        ),
    }
}

/// Picks the password that an entry decrypts to.
pub open spec fn password_picker(ciphers: CiphersView) -> spec_fn(EncryptedDataEntryView) -> Option<
    PasswordView,
> {
    |entry: EncryptedDataEntryView| password_in(decrypt_entry_spec(entry, ciphers))
}

/// Picks the note that an entry decrypts to.
pub open spec fn note_picker(ciphers: CiphersView) -> spec_fn(EncryptedDataEntryView) -> Option<
    NoteView,
> {
    |entry: EncryptedDataEntryView| note_in(decrypt_entry_spec(entry, ciphers))
}

/// Picks the card that an entry decrypts to.
pub open spec fn card_picker(ciphers: CiphersView) -> spec_fn(EncryptedDataEntryView) -> Option<
    CardView,
> {
    |entry: EncryptedDataEntryView| card_in(decrypt_entry_spec(entry, ciphers))
}

/// Picks the TOTP entry that an entry decrypts to.
pub open spec fn totp_picker(ciphers: CiphersView) -> spec_fn(EncryptedDataEntryView) -> Option<
    TOTPEntryView,
> {
    |entry: EncryptedDataEntryView| totp_in(decrypt_entry_spec(entry, ciphers))
}

/// Picks the report on an entry that does not decrypt.
pub open spec fn failure_picker(ciphers: CiphersView) -> spec_fn(EncryptedDataEntryView) -> Option<
    EntryFailureView,
> {
    |entry: EncryptedDataEntryView| failure_in(entry, decrypt_entry_spec(entry, ciphers))
}

/// The passwords that a payload decrypts to, in the order of their entries.
pub open spec fn decrypted_passwords(
    entries: Seq<EncryptedDataEntryView>,
    ciphers: CiphersView,
) -> Seq<PasswordView> {
    entries.filter_map(password_picker(ciphers))
}

/// The notes that a payload decrypts to, in the order of their entries.
pub open spec fn decrypted_notes(entries: Seq<EncryptedDataEntryView>, ciphers: CiphersView) -> Seq<
    NoteView,
> {
    entries.filter_map(note_picker(ciphers))
}

/// The cards that a payload decrypts to, in the order of their entries.
pub open spec fn decrypted_cards(entries: Seq<EncryptedDataEntryView>, ciphers: CiphersView) -> Seq<
    CardView,
> {
    entries.filter_map(card_picker(ciphers))
}

/// The TOTP entries that a payload decrypts to, in the order of their entries.
pub open spec fn decrypted_totp_entries(
    entries: Seq<EncryptedDataEntryView>,
    ciphers: CiphersView,
) -> Seq<TOTPEntryView> {
    entries.filter_map(totp_picker(ciphers))
}

/// The reports on the entries of a payload that do not decrypt, in the order
/// of the entries.
pub open spec fn decrypt_failures(
    entries: Seq<EncryptedDataEntryView>,
    ciphers: CiphersView,
) -> Seq<EntryFailureView> {
    entries.filter_map(failure_picker(ciphers))
}

/// A vault after a payload was decrypted into it: each collection is followed
/// by the records of its category that the payload decrypts to.
pub open spec fn vault_with(
    vault: EntriesVaultView,
    entries: Seq<EncryptedDataEntryView>,
    ciphers: CiphersView,
) -> EntriesVaultView {
    EntriesVaultView {
        passwords: vault.passwords + decrypted_passwords(entries, ciphers),
        notes: vault.notes + decrypted_notes(entries, ciphers),
        cards: vault.cards + decrypted_cards(entries, ciphers),
        totp_entries: vault.totp_entries + decrypted_totp_entries(entries, ciphers),
    }
}

/// Decrypts every entry of a payload and appends the records to the vault,
/// each to the collection of its category, in the order of the entries.
///
/// An entry that does not decrypt, or whose content type names no category,
/// is left out of the vault and reported in the result; the other entries go
/// through. The keys are those of the vault and stay as they are.
pub fn fill_data_vault_from_response(
    data_vault: &mut DataVault,
    response: GetAllEncryptedDataEntriesResponse,
) -> (failures: Vec<EntryFailure>)
    ensures
        final(data_vault).ciphers == old(data_vault).ciphers,
        final(data_vault).entries_vault@ == vault_with(
            old(data_vault).entries_vault@,
            views(response.data@),
            old(data_vault).ciphers@,
        ),
        views(failures@) == decrypt_failures(views(response.data@), old(data_vault).ciphers@),
{
    let ghost entries = views(response.data@);
    let ghost keys = data_vault.ciphers@;
    let outcomes = {
        let ciphers = &data_vault.ciphers;
        let decrypt = |entry: &EncryptedDataEntry| -> (r: Result<Record, EntryError>)
            ensures
                record_outcome(r) == decrypt_entry_spec(entry@, ciphers@),
            { decrypt_entry(entry, ciphers) };
        par_map(&response.data, decrypt)
    };
    let ghost all = outcomes@;
    assert(forall|j: int|
        0 <= j < all.len() ==> record_outcome(#[trigger] all[j]) == decrypt_entry_spec(
            entries[j],
            keys,
        ));

    let mut passwords: Vec<Password> = Vec::new();
    let mut notes: Vec<Note> = Vec::new();
    let mut cards: Vec<Card> = Vec::new();
    let mut totp_entries: Vec<TOTPEntry> = Vec::new();
    let mut failures: Vec<EntryFailure> = Vec::new();
    let count: usize = response.data.len();
    let mut i: usize = 0;
    for outcome in it: outcomes
        invariant
            it.seq() == all,
            i == it.index(),
            all.len() == count,
            count == response.data@.len(),
            entries == views(response.data@),
            forall|j: int|
                0 <= j < all.len() ==> record_outcome(#[trigger] all[j]) == decrypt_entry_spec(
                    entries[j],
                    keys,
                ),
            views(passwords@) == decrypted_passwords(entries.take(i as int), keys),
            views(notes@) == decrypted_notes(entries.take(i as int), keys),
            views(cards@) == decrypted_cards(entries.take(i as int), keys),
            views(totp_entries@) == decrypted_totp_entries(entries.take(i as int), keys),
            views(failures@) == decrypt_failures(entries.take(i as int), keys),
    {
        proof {
            entries.lemma_filter_map_take_succ(password_picker(keys), i as int);
            entries.lemma_filter_map_take_succ(note_picker(keys), i as int);
            entries.lemma_filter_map_take_succ(card_picker(keys), i as int);
            entries.lemma_filter_map_take_succ(totp_picker(keys), i as int);
            entries.lemma_filter_map_take_succ(failure_picker(keys), i as int);
        }
        match outcome {
            Ok(Record::Password(password)) => {
                passwords.push(password);
            },
            Ok(Record::Note(note)) => {
                notes.push(note);
            },
            Ok(Record::Card(card)) => {
                cards.push(card);
            },
            Ok(Record::TOTPEntry(totp_entry)) => {
                totp_entries.push(totp_entry);
            },
            Err(error) => {
                let entry = &response.data[i];
                let failure = EntryFailure {
                    name: entry.name.clone(),
                    content_type: entry.content_type.clone(),
                    error,
                };
                failures.push(failure);
            },
        }
        i += 1;
    }
    assert(entries.take(i as int) =~= entries);
    let ghost before = data_vault.entries_vault@;
    data_vault.entries_vault.passwords.append(&mut passwords);
    data_vault.entries_vault.notes.append(&mut notes);
    data_vault.entries_vault.cards.append(&mut cards);
    data_vault.entries_vault.totp_entries.append(&mut totp_entries);
    proof {
        assert(data_vault.entries_vault@.passwords =~= before.passwords + decrypted_passwords(
            entries,
            keys,
        ));
        assert(data_vault.entries_vault@.notes =~= before.notes + decrypted_notes(entries, keys));
        assert(data_vault.entries_vault@.cards =~= before.cards + decrypted_cards(entries, keys));
        assert(data_vault.entries_vault@.totp_entries =~= before.totp_entries
            + decrypted_totp_entries(entries, keys));
    }
    failures
}

/// What becomes of one record when a vault is encrypted: its entry, or the
/// report that it was left out.
pub type EncryptReport = Result<EncryptedDataEntryView, EntryFailureView>;

/// An entry or a report, each by its view.
pub open spec fn report_view(r: Result<EncryptedDataEntry, EntryFailure>) -> EncryptReport {
    match r {
        Ok(entry) => Ok(entry@),
        Err(failure) => Err(failure@),
    }
}

/// The views of a sequence of entries and reports, one for one.
pub open spec fn report_views(items: Seq<Result<EncryptedDataEntry, EntryFailure>>) -> Seq<
    EncryptReport,
> {
    items.map_values(|r: Result<EncryptedDataEntry, EntryFailure>| report_view(r))
}

/// `report` is what encrypting `record` under `key` may leave: an encryption
/// of the record, or a report that names the record and its category and
/// holds an error that encrypting the record may end in.
pub open spec fn is_encrypt_report(
    record: RecordView,
    key: Seq<u8>,
    report: EncryptReport,
) -> bool {
    match report {
        Ok(entry) => encrypts_to(record, key, entry),
        Err(failure) => {
            &&& failure.name == record.name()
            &&& failure.content_type == record.category().tag_spec()
            &&& is_encrypt_outcome(record, key, Err(failure.error))
        },
    }
}

/// The entry of a report that holds one.
pub open spec fn entry_in(report: EncryptReport) -> Option<EncryptedDataEntryView> {
    match report {
        Ok(entry) => Some(entry),
        Err(_) => None,
    }
}

/// The failure of a report that holds one.
pub open spec fn failure_of(report: EncryptReport) -> Option<EntryFailureView> {
    match report {
        Ok(_) => None,
        Err(failure) => Some(failure),
    }
}

/// The entries among reports, in their order.
pub open spec fn encrypted_entries(reports: Seq<EncryptReport>) -> Seq<EncryptedDataEntryView> {
    reports.filter_map(|report: EncryptReport| entry_in(report))
}

/// The failures among reports, in their order.
pub open spec fn encrypt_failures(reports: Seq<EncryptReport>) -> Seq<EntryFailureView> {
    reports.filter_map(|report: EncryptReport| failure_of(report))
}

/// The records of a vault in the order in which they are encrypted:
/// passwords, notes, cards, TOTP entries.
pub open spec fn vault_records(vault: EntriesVaultView) -> Seq<RecordView> {
    vault.passwords.map_values(|p: PasswordView| RecordView::Password(p)) + vault.notes.map_values(
        |n: NoteView| RecordView::Note(n),
    ) + vault.cards.map_values(|c: CardView| RecordView::Card(c)) + vault.totp_entries.map_values(
        |t: TOTPEntryView| RecordView::TOTPEntry(t),
    )
}

/// `reports` hold, record by record, what encrypting the vault under the
/// keys of the session may leave.
pub open spec fn are_vault_reports(
    vault: EntriesVaultView,
    ciphers: CiphersView,
    reports: Seq<EncryptReport>,
) -> bool {
    &&& reports.len() == vault_records(vault).len()
    &&& forall|i: int|
        0 <= i < reports.len() ==> is_encrypt_report(
            vault_records(vault)[i],
            ciphers.key(vault_records(vault)[i].category()),
            #[trigger] reports[i],
        )
}

/// `entries` and `failures` are what encrypting the vault under the keys of
/// the session may leave: there is one report per record, in the order of the
/// vault, of which `entries` are the entries and `failures` the failures.
pub open spec fn is_vault_encryption(
    vault: EntriesVaultView,
    ciphers: CiphersView,
    entries: Seq<EncryptedDataEntryView>,
    failures: Seq<EntryFailureView>,
) -> bool {
    exists|reports: Seq<EncryptReport>|
        #[trigger] are_vault_reports(vault, ciphers, reports) && entries == encrypted_entries(
            reports,
        ) && failures == encrypt_failures(reports)
}

/// The entry of an encryption, or the report on the record that failed.
pub fn entry_or_report(
    name: &str,
    category: Category,
    r: Result<EncryptedDataEntry, EntryError>,
) -> (report: Result<EncryptedDataEntry, EntryFailure>)
    ensures
        r matches Ok(entry) ==> report == Ok::<EncryptedDataEntry, EntryFailure>(entry),
        r matches Err(error) ==> report matches Err(failure) && failure@ == (EntryFailureView {
            name: name@,
            content_type: category.tag_spec(),
            error,
        }),
{
    match r {
        Ok(entry) => Ok(entry),
        Err(error) => Err(
            EntryFailure { name: name.to_owned(), content_type: category.tag().to_owned(), error },
        ),
    }
}

/// Moves the entries and the failures of a run of reports to the end of two
/// lists, each in the order of the reports.
pub fn gather_reports(
    reports: Vec<Result<EncryptedDataEntry, EntryFailure>>,
    entries: &mut Vec<EncryptedDataEntry>,
    failures: &mut Vec<EntryFailure>,
)
    ensures
        views(final(entries)@) == views(old(entries)@) + encrypted_entries(report_views(reports@)),
        views(final(failures)@) == views(old(failures)@) + encrypt_failures(
            report_views(reports@),
        ),
{
    let ghost all = reports@;
    let ghost all_views = report_views(all);
    let ghost pick_entry = |report: EncryptReport| entry_in(report);
    let ghost pick_failure = |report: EncryptReport| failure_of(report);
    let ghost entries_before = views(entries@);
    let ghost failures_before = views(failures@);
    for report in it: reports
        invariant
            it.seq() == all,
            all_views == report_views(all),
            pick_entry == |report: EncryptReport| entry_in(report),
            pick_failure == |report: EncryptReport| failure_of(report),
            views(entries@) == entries_before + all_views.take(it.index() as int).filter_map(
                pick_entry,
            ),
            views(failures@) == failures_before + all_views.take(it.index() as int).filter_map(
                pick_failure,
            ),
    {
        let ghost i = it.index() as int;
        let ghost entries_so_far = entries@;
        let ghost failures_so_far = failures@;
        proof {
            all_views.lemma_filter_map_take_succ(pick_entry, i);
            all_views.lemma_filter_map_take_succ(pick_failure, i);
        }
        match report {
            Ok(entry) => {
                entries.push(entry);
                assert(views(entries@) =~= views(entries_so_far) + seq![entry@]);
            },
            Err(failure) => {
                failures.push(failure);
                assert(views(failures@) =~= views(failures_so_far) + seq![failure@]);
            },
        }
    }
    assert(all_views.take(all.len() as int) =~= all_views);
}

/// Encrypts every record of a vault, each under the key of its category and
/// a fresh nonce: first the passwords, then the notes, the cards and the TOTP
/// entries, each kind in the order of the vault.
///
/// A record that cannot be encrypted is left out of the entries and reported
/// beside them; the other records go through.
pub fn encrypt_entry_vault(entry_vault: &EntriesVault, ciphers: Ciphers) -> (r: (
    Vec<EncryptedDataEntry>,
    Vec<EntryFailure>,
))
    ensures
        is_vault_encryption(entry_vault@, ciphers@, views(r.0@), views(r.1@)),
{
    let password_cipher = &ciphers.password_cipher;
    let note_cipher = &ciphers.note_cipher;
    let card_cipher = &ciphers.card_cipher;
    let totp_entry_cipher = &ciphers.totp_entry_cipher;
    let encrypt_password = |password: &Password| -> (report: Result<
        EncryptedDataEntry,
        EntryFailure,
    >)
        ensures
            is_encrypt_report(
                RecordView::Password(password@),
                password_cipher@,
                report_view(report),
            ),
        {
            let outcome = encrypt_password_entry(password, password_cipher);
            entry_or_report(password.name.as_str(), Category::Password, outcome)
        };
    let encrypt_note = |note: &Note| -> (report: Result<EncryptedDataEntry, EntryFailure>)
        ensures
            is_encrypt_report(RecordView::Note(note@), note_cipher@, report_view(report)),
        {
            let outcome = encrypt_note_entry(note, note_cipher);
            entry_or_report(note.name.as_str(), Category::Note, outcome)
        };
    let encrypt_card = |card: &Card| -> (report: Result<EncryptedDataEntry, EntryFailure>)
        ensures
            is_encrypt_report(RecordView::Card(card@), card_cipher@, report_view(report)),
        {
            let outcome = encrypt_card_entry(card, card_cipher);
            entry_or_report(card.name.as_str(), Category::Card, outcome)
        };
    let encrypt_totp = |totp_entry: &TOTPEntry| -> (report: Result<
        EncryptedDataEntry,
        EntryFailure,
    >)
        ensures
            is_encrypt_report(
                RecordView::TOTPEntry(totp_entry@),
                totp_entry_cipher@,
                report_view(report),
            ),
        {
            let outcome = encrypt_totp_entry(totp_entry, totp_entry_cipher);
            entry_or_report(totp_entry.name.as_str(), Category::TotpEntry, outcome)
        };
    let password_reports = par_map(&entry_vault.passwords, encrypt_password);
    let note_reports = par_map(&entry_vault.notes, encrypt_note);
    let card_reports = par_map(&entry_vault.cards, encrypt_card);
    let totp_reports = par_map(&entry_vault.totp_entries, encrypt_totp);
    let ghost p = report_views(password_reports@);
    let ghost n = report_views(note_reports@);
    let ghost c = report_views(card_reports@);
    let ghost t = report_views(totp_reports@);
    let ghost reports = p + n + c + t;
    let ghost pick_entry = |report: EncryptReport| entry_in(report);
    let ghost pick_failure = |report: EncryptReport| failure_of(report);

    let mut entries: Vec<EncryptedDataEntry> = Vec::new();
    let mut failures: Vec<EntryFailure> = Vec::new();
    gather_reports(password_reports, &mut entries, &mut failures);
    gather_reports(note_reports, &mut entries, &mut failures);
    gather_reports(card_reports, &mut entries, &mut failures);
    gather_reports(totp_reports, &mut entries, &mut failures);
    proof {
        lemma_filter_map_join(p, n, pick_entry);
        lemma_filter_map_join(p + n, c, pick_entry);
        lemma_filter_map_join(p + n + c, t, pick_entry);
        lemma_filter_map_join(p, n, pick_failure);
        lemma_filter_map_join(p + n, c, pick_failure);
        lemma_filter_map_join(p + n + c, t, pick_failure);
        let vault = entry_vault@;
        let records = vault_records(vault);
        let np = vault.passwords.len() as int;
        let nn = vault.notes.len() as int;
        let nc = vault.cards.len() as int;
        assert forall|i: int| 0 <= i < reports.len() implies is_encrypt_report(
            records[i],
            ciphers@.key(records[i].category()),
            #[trigger] reports[i],
        ) by {
            if i < np {
                assert(reports[i] == report_view(password_reports@[i]));
            } else if i < np + nn {
                assert(reports[i] == report_view(note_reports@[i - np]));
            } else if i < np + nn + nc {
                assert(reports[i] == report_view(card_reports@[i - np - nn]));
            } else {
                assert(reports[i] == report_view(totp_reports@[i - np - nn - nc]));
            }
        }
        assert(are_vault_reports(entry_vault@, ciphers@, reports));
    }
    (entries, failures)
}

} // verus!
