//! What holds of every payload and every vault: each item is accounted for,
//! one that fails leaves the others alone, and what was encrypted comes back.

use crate::entries::lemma_encrypt_decrypt_round_trip;
use crate::error::{EntryError, EntryFailureView};
use crate::model::{
    category_of_tag, lemma_tag_names_category, CardView, CiphersView, EncryptedDataEntryView,
    EntriesVaultView, NoteView, PasswordView, RecordView, TOTPEntryView,
};
use crate::sequences::{
    lemma_filter_map_join, lemma_filter_map_keeps_all, lemma_filter_map_keeps_none,
    lemma_filter_map_pointwise,
};
use crate::vault::{
    are_vault_reports, card_in, card_picker, decrypt_entry_spec, decrypt_failures,
    decrypted_cards, decrypted_notes, decrypted_passwords, decrypted_totp_entries,
    encrypt_failures, encrypted_entries, failure_in, failure_picker, is_encrypt_report,
    is_vault_encryption, note_in, note_picker, password_in, password_picker, totp_in,
    totp_picker, vault_records, EncryptReport,
};
use vstd::prelude::*;

verus! {

/// Every entry of a payload is accounted for once: it adds one record to the
/// collection of its category, or one failure to the report.
pub proof fn lemma_every_entry_accounted_for(
    entries: Seq<EncryptedDataEntryView>,
    ciphers: CiphersView,
)
    ensures
        decrypted_passwords(entries, ciphers).len() + decrypted_notes(entries, ciphers).len()
            + decrypted_cards(entries, ciphers).len() + decrypted_totp_entries(
            entries,
            ciphers,
        ).len() + decrypt_failures(entries, ciphers).len() == entries.len(),
    decreases entries.len(),
{
    if entries.len() > 0 {
        lemma_every_entry_accounted_for(entries.drop_last(), ciphers);
    }
}

/// A payload of which every entry decrypts leaves no failure.
pub proof fn lemma_no_failure_without_error(
    entries: Seq<EncryptedDataEntryView>,
    ciphers: CiphersView,
)
    requires
        forall|j: int|
            0 <= j < entries.len() ==> decrypt_entry_spec(#[trigger] entries[j], ciphers) is Ok,
    ensures
        decrypt_failures(entries, ciphers).len() == 0,
    decreases entries.len(),
{
    if entries.len() > 0 {
        let rest = entries.drop_last();
        assert(forall|j: int| 0 <= j < rest.len() ==> rest[j] == entries[j]);
        lemma_no_failure_without_error(rest, ciphers);
    }
}

/// Partial failure: where exactly one entry of a payload does not decrypt,
/// the report holds one failure, that of this entry, and the vault gains as
/// many records as the payload has other entries.
pub proof fn lemma_one_failure_among_many(
    entries: Seq<EncryptedDataEntryView>,
    ciphers: CiphersView,
    bad: int,
)
    requires
        0 <= bad < entries.len(),
        decrypt_entry_spec(entries[bad], ciphers) is Err,
        forall|j: int|
            0 <= j < entries.len() && j != bad ==> decrypt_entry_spec(
                #[trigger] entries[j],
                ciphers,
            ) is Ok,
    ensures
        decrypt_failures(entries, ciphers) == seq![
            failure_in(entries[bad], decrypt_entry_spec(entries[bad], ciphers)).unwrap(),
        ],
        decrypted_passwords(entries, ciphers).len() + decrypted_notes(entries, ciphers).len()
            + decrypted_cards(entries, ciphers).len() + decrypted_totp_entries(
            entries,
            ciphers,
        ).len() == entries.len() - 1,
{
    let before = entries.take(bad);
    let after = entries.skip(bad + 1);
    let pick = failure_picker(ciphers);
    assert(entries =~= before + seq![entries[bad]] + after);
    lemma_no_failure_without_error(before, ciphers);
    lemma_no_failure_without_error(after, ciphers);
    Seq::lemma_filter_map_singleton(entries[bad], pick);
    lemma_filter_map_join(before, seq![entries[bad]], pick);
    lemma_filter_map_join(before + seq![entries[bad]], after, pick);
    lemma_every_entry_accounted_for(entries, ciphers);
}

/// Unknown category: an entry whose content type names none of the four
/// categories is reported with `UnknownCategory` and adds nothing to any
/// collection; the records are those of the payload without it, and the
/// other failures stand around its own as they were.
pub proof fn lemma_unknown_category_is_skipped(
    entries: Seq<EncryptedDataEntryView>,
    ciphers: CiphersView,
    at: int,
)
    requires
        0 <= at < entries.len(),
        category_of_tag(entries[at].content_type) is None,
    ensures
        decrypted_passwords(entries, ciphers) == decrypted_passwords(entries.remove(at), ciphers),
        decrypted_notes(entries, ciphers) == decrypted_notes(entries.remove(at), ciphers),
        decrypted_cards(entries, ciphers) == decrypted_cards(entries.remove(at), ciphers),
        decrypted_totp_entries(entries, ciphers) == decrypted_totp_entries(
            entries.remove(at),
            ciphers,
        ),
        decrypt_failures(entries, ciphers) == decrypt_failures(entries.take(at), ciphers) + seq![
            (EntryFailureView {
                name: entries[at].name,
                content_type: entries[at].content_type,
                error: EntryError::UnknownCategory,
            }),
        ] + decrypt_failures(entries.skip(at + 1), ciphers),
{
    let before = entries.take(at);
    let one = seq![entries[at]];
    let after = entries.skip(at + 1);
    assert(entries =~= before + one + after);
    assert(entries.remove(at) =~= before + after);
    Seq::lemma_filter_map_singleton(entries[at], password_picker(ciphers));
    Seq::lemma_filter_map_singleton(entries[at], note_picker(ciphers));
    Seq::lemma_filter_map_singleton(entries[at], card_picker(ciphers));
    Seq::lemma_filter_map_singleton(entries[at], totp_picker(ciphers));
    Seq::lemma_filter_map_singleton(entries[at], failure_picker(ciphers));
    lemma_filter_map_join(before, one, password_picker(ciphers));
    lemma_filter_map_join(before + one, after, password_picker(ciphers));
    lemma_filter_map_join(before, after, password_picker(ciphers));
    lemma_filter_map_join(before, one, note_picker(ciphers));
    lemma_filter_map_join(before + one, after, note_picker(ciphers));
    lemma_filter_map_join(before, after, note_picker(ciphers));
    lemma_filter_map_join(before, one, card_picker(ciphers));
    lemma_filter_map_join(before + one, after, card_picker(ciphers));
    lemma_filter_map_join(before, after, card_picker(ciphers));
    lemma_filter_map_join(before, one, totp_picker(ciphers));
    lemma_filter_map_join(before + one, after, totp_picker(ciphers));
    lemma_filter_map_join(before, after, totp_picker(ciphers));
    lemma_filter_map_join(before, one, failure_picker(ciphers));
    lemma_filter_map_join(before + one, after, failure_picker(ciphers));
}

/// Every report leaves one entry or one failure.
pub proof fn lemma_every_report_accounted_for(reports: Seq<EncryptReport>)
    ensures
        encrypted_entries(reports).len() + encrypt_failures(reports).len() == reports.len(),
    decreases reports.len(),
{
    if reports.len() > 0 {
        lemma_every_report_accounted_for(reports.drop_last());
    }
}

/// Every record of a vault is accounted for once: encrypting the vault
/// leaves as many entries and failures together as the vault has records.
pub proof fn lemma_every_record_accounted_for(
    vault: EntriesVaultView,
    ciphers: CiphersView,
    entries: Seq<EncryptedDataEntryView>,
    failures: Seq<EntryFailureView>,
)
    requires
        is_vault_encryption(vault, ciphers, entries, failures),
    ensures
        entries.len() + failures.len() == vault.passwords.len() + vault.notes.len()
            + vault.cards.len() + vault.totp_entries.len(),
{
    let reports = choose|reports: Seq<EncryptReport>|
        #[trigger] are_vault_reports(vault, ciphers, reports) && entries == encrypted_entries(
            reports,
        ) && failures == encrypt_failures(reports);
    lemma_every_report_accounted_for(reports);
}

/// Reports without a failure are entries, one per report and in its place.
pub proof fn lemma_reports_without_failure(reports: Seq<EncryptReport>)
    requires
        encrypt_failures(reports).len() == 0,
    ensures
        encrypted_entries(reports).len() == reports.len(),
        forall|i: int|
            0 <= i < reports.len() ==> #[trigger] reports[i] == Ok::<
                EncryptedDataEntryView,
                EntryFailureView,
            >(encrypted_entries(reports)[i]),
    decreases reports.len(),
{
    if reports.len() > 0 {
        let rest = reports.drop_last();
        lemma_reports_without_failure(rest);
        assert forall|i: int| 0 <= i < reports.len() implies #[trigger] reports[i] == Ok::<
            EncryptedDataEntryView,
            EntryFailureView,
        >(encrypted_entries(reports)[i]) by {
            if i < rest.len() {
                assert(reports[i] == rest[i]);
            }
        }
    }
}

/// Vault round trip: where encrypting a vault left no failure, decrypting
/// the entries with the same keys gives the records of the vault back, each
/// collection in its order, and no failure.
pub proof fn lemma_vault_round_trip(
    vault: EntriesVaultView,
    ciphers: CiphersView,
    entries: Seq<EncryptedDataEntryView>,
    failures: Seq<EntryFailureView>,
)
    requires
        is_vault_encryption(vault, ciphers, entries, failures),
        failures.len() == 0,
    ensures
        decrypted_passwords(entries, ciphers) == vault.passwords,
        decrypted_notes(entries, ciphers) == vault.notes,
        decrypted_cards(entries, ciphers) == vault.cards,
        decrypted_totp_entries(entries, ciphers) == vault.totp_entries,
        decrypt_failures(entries, ciphers).len() == 0,
{
    let reports = choose|reports: Seq<EncryptReport>|
        #[trigger] are_vault_reports(vault, ciphers, reports) && entries == encrypted_entries(
            reports,
        ) && failures == encrypt_failures(reports);
    let records = vault_records(vault);
    lemma_reports_without_failure(reports);
    assert forall|i: int| 0 <= i < entries.len() implies decrypt_entry_spec(
        #[trigger] entries[i],
        ciphers,
    ) == Ok::<RecordView, EntryError>(records[i]) by {
        let category = records[i].category();
        assert(is_encrypt_report(records[i], ciphers.key(category), reports[i]));
        lemma_encrypt_decrypt_round_trip(records[i], ciphers.key(category), entries[i]);
        lemma_tag_names_category(category);
    }
    lemma_no_failure_without_error(entries, ciphers);

    let p = vault.passwords.map_values(|p: PasswordView| RecordView::Password(p));
    let n = vault.notes.map_values(|n: NoteView| RecordView::Note(n));
    let c = vault.cards.map_values(|c: CardView| RecordView::Card(c));
    let t = vault.totp_entries.map_values(|t: TOTPEntryView| RecordView::TOTPEntry(t));
    assert(records == p + n + c + t);

    let passwords = |r: RecordView| password_in(Ok(r));
    lemma_filter_map_pointwise(entries, records, password_picker(ciphers), passwords);
    lemma_filter_map_join(p + n + c, t, passwords);
    lemma_filter_map_join(p + n, c, passwords);
    lemma_filter_map_join(p, n, passwords);
    lemma_filter_map_keeps_all(p, vault.passwords, passwords);
    lemma_filter_map_keeps_none(n, passwords);
    lemma_filter_map_keeps_none(c, passwords);
    lemma_filter_map_keeps_none(t, passwords);

    let notes = |r: RecordView| note_in(Ok(r));
    lemma_filter_map_pointwise(entries, records, note_picker(ciphers), notes);
    lemma_filter_map_join(p + n + c, t, notes);
    lemma_filter_map_join(p + n, c, notes);
    lemma_filter_map_join(p, n, notes);
    lemma_filter_map_keeps_none(p, notes);
    lemma_filter_map_keeps_all(n, vault.notes, notes);
    lemma_filter_map_keeps_none(c, notes);
    lemma_filter_map_keeps_none(t, notes);

    let cards = |r: RecordView| card_in(Ok(r));
    lemma_filter_map_pointwise(entries, records, card_picker(ciphers), cards);
    lemma_filter_map_join(p + n + c, t, cards);
    lemma_filter_map_join(p + n, c, cards);
    lemma_filter_map_join(p, n, cards);
    lemma_filter_map_keeps_none(p, cards);
    lemma_filter_map_keeps_none(n, cards);
    lemma_filter_map_keeps_all(c, vault.cards, cards);
    lemma_filter_map_keeps_none(t, cards);

    let totp_entries = |r: RecordView| totp_in(Ok(r));
    lemma_filter_map_pointwise(entries, records, totp_picker(ciphers), totp_entries);
    lemma_filter_map_join(p + n + c, t, totp_entries);
    lemma_filter_map_join(p + n, c, totp_entries);
    lemma_filter_map_join(p, n, totp_entries);
    lemma_filter_map_keeps_none(p, totp_entries);
    lemma_filter_map_keeps_none(n, totp_entries);
    lemma_filter_map_keeps_none(c, totp_entries);
    lemma_filter_map_keeps_all(t, vault.totp_entries, totp_entries);
}

} // verus!
