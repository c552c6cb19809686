use aes_gcm_siv::aead::{KeyInit, OsRng};
use aes_gcm_siv::Aes256GcmSiv;
use password_vault::entries::{
    create_card_entry, create_note_entry, create_password_entry, create_totp_entry,
    decrypt_password_entry, encrypt_card_entry, encrypt_note_entry, encrypt_password_entry,
    encrypt_totp_entry,
};
use password_vault::error::{EntryError, EntryFailure};
use password_vault::model::{
    Ciphers, DataVault, EncryptedDataEntry, EntriesVault, EntryCipher,
    GetAllEncryptedDataEntriesResponse, Record,
};
use password_vault::model::Category;
use password_vault::vault::{
    decrypt_entry, encrypt_entry_vault, entry_or_report, fill_data_vault_from_response,
    gather_reports,
};

fn fresh_cipher() -> EntryCipher {
    EntryCipher::new(Aes256GcmSiv::generate_key(&mut OsRng).into())
}

fn fresh_ciphers() -> Ciphers {
    Ciphers {
        password_cipher: fresh_cipher(),
        note_cipher: fresh_cipher(),
        card_cipher: fresh_cipher(),
        totp_entry_cipher: fresh_cipher(),
    }
}

fn empty_vault(ciphers: &Ciphers) -> DataVault {
    DataVault { entries_vault: EntriesVault::new(), ciphers: ciphers.clone() }
}

fn corrupt(entry: &mut EncryptedDataEntry) {
    let last = entry.content.pop().unwrap();
    entry.content.push(if last == '0' { '1' } else { '0' });
}

fn failure(name: &str, content_type: &str, error: EntryError) -> EntryFailure {
    EntryFailure { name: name.to_string(), content_type: content_type.to_string(), error }
}

fn sample_vault() -> EntriesVault {
    EntriesVault {
        passwords: vec![
            create_password_entry("Bank", "u", "p", "https://x", "2030-01-01"),
            create_password_entry("Mail", "me", "secret", "https://mail", ""),
        ],
        notes: vec![create_note_entry("Wifi", "guest")],
        cards: vec![
            create_card_entry("Visa", "A. Holder", "4111", "123", "12/30"),
            create_card_entry("Amex", "A. Holder", "3782", "1234", "01/29"),
            create_card_entry("Debit", "A. Holder", "5500", "999", "07/28"),
        ],
        totp_entries: vec![create_totp_entry("Mail", "SHA1", "JBSWY3DPEHPK3PXP", 6, 1, 30)],
    }
}

#[test]
fn a_payload_fills_each_collection_in_the_order_of_its_entries() {
    let ciphers = fresh_ciphers();
    let vault = sample_vault();
    let data = vec![
        encrypt_card_entry(&vault.cards[0], &ciphers.card_cipher).unwrap(),
        encrypt_password_entry(&vault.passwords[0], &ciphers.password_cipher).unwrap(),
        encrypt_totp_entry(&vault.totp_entries[0], &ciphers.totp_entry_cipher).unwrap(),
        encrypt_card_entry(&vault.cards[1], &ciphers.card_cipher).unwrap(),
        encrypt_note_entry(&vault.notes[0], &ciphers.note_cipher).unwrap(),
        encrypt_password_entry(&vault.passwords[1], &ciphers.password_cipher).unwrap(),
        encrypt_card_entry(&vault.cards[2], &ciphers.card_cipher).unwrap(),
    ];
    let mut data_vault = empty_vault(&ciphers);
    let failures =
        fill_data_vault_from_response(&mut data_vault, GetAllEncryptedDataEntriesResponse { data });
    assert_eq!(failures, vec![]);
    assert_eq!(data_vault.entries_vault, vault);
}

#[test]
fn a_payload_is_appended_to_what_the_vault_holds() {
    let ciphers = fresh_ciphers();
    let mut data_vault = empty_vault(&ciphers);
    data_vault.entries_vault.notes.push(create_note_entry("old", "kept"));
    data_vault.entries_vault.passwords.push(create_password_entry("old", "", "", "", ""));
    let data = vec![
        encrypt_note_entry(&create_note_entry("new", "added"), &ciphers.note_cipher).unwrap(),
        encrypt_note_entry(&create_note_entry("newer", "added"), &ciphers.note_cipher).unwrap(),
    ];
    let failures =
        fill_data_vault_from_response(&mut data_vault, GetAllEncryptedDataEntriesResponse { data });
    assert!(failures.is_empty());
    assert_eq!(
        data_vault.entries_vault.notes,
        vec![
            create_note_entry("old", "kept"),
            create_note_entry("new", "added"),
            create_note_entry("newer", "added"),
        ]
    );
    assert_eq!(data_vault.entries_vault.passwords, vec![create_password_entry("old", "", "", "", "")]);
    assert!(data_vault.entries_vault.cards.is_empty());
    assert!(data_vault.entries_vault.totp_entries.is_empty());
}

#[test]
fn the_keys_of_the_vault_stay_as_they_are() {
    let ciphers = fresh_ciphers();
    let mut data_vault = empty_vault(&ciphers);
    let record = create_password_entry("Bank", "u", "p", "https://x", "2030-01-01");
    let data = vec![encrypt_password_entry(&record, &ciphers.password_cipher).unwrap()];
    fill_data_vault_from_response(
        &mut data_vault,
        GetAllEncryptedDataEntriesResponse { data: data.clone() },
    );
    assert_eq!(decrypt_password_entry(&data[0], &data_vault.ciphers.password_cipher), Ok(record));
}

#[test]
fn an_empty_payload_changes_nothing() {
    let ciphers = fresh_ciphers();
    let mut data_vault = empty_vault(&ciphers);
    data_vault.entries_vault = sample_vault();
    let failures = fill_data_vault_from_response(
        &mut data_vault,
        GetAllEncryptedDataEntriesResponse { data: vec![] },
    );
    assert!(failures.is_empty());
    assert_eq!(data_vault.entries_vault, sample_vault());
}

#[test]
fn one_corrupted_entry_among_many_is_the_only_failure() {
    let ciphers = fresh_ciphers();
    let count = 9;
    for bad in 0..count {
        let mut data = Vec::new();
        for i in 0..count {
            let record = create_note_entry(&format!("note {}", i), "content");
            data.push(encrypt_note_entry(&record, &ciphers.note_cipher).unwrap());
        }
        corrupt(&mut data[bad]);
        let mut data_vault = empty_vault(&ciphers);
        let failures = fill_data_vault_from_response(
            &mut data_vault,
            GetAllEncryptedDataEntriesResponse { data },
        );
        assert_eq!(failures, vec![failure(&format!("note {}", bad), "note", EntryError::Decryption)]);
        assert_eq!(data_vault.entries_vault.notes.len(), count - 1);
        let expected: Vec<_> = (0..count)
            .filter(|i| *i != bad)
            .map(|i| create_note_entry(&format!("note {}", i), "content"))
            .collect();
        assert_eq!(data_vault.entries_vault.notes, expected);
        assert!(data_vault.entries_vault.passwords.is_empty());
    }
}

#[test]
fn one_corrupted_entry_in_a_mixed_payload_leaves_the_rest() {
    let ciphers = fresh_ciphers();
    let vault = sample_vault();
    let mut data = vec![
        encrypt_password_entry(&vault.passwords[0], &ciphers.password_cipher).unwrap(),
        encrypt_note_entry(&vault.notes[0], &ciphers.note_cipher).unwrap(),
        encrypt_card_entry(&vault.cards[0], &ciphers.card_cipher).unwrap(),
        encrypt_totp_entry(&vault.totp_entries[0], &ciphers.totp_entry_cipher).unwrap(),
        encrypt_password_entry(&vault.passwords[1], &ciphers.password_cipher).unwrap(),
    ];
    corrupt(&mut data[2]);
    let mut data_vault = empty_vault(&ciphers);
    let failures =
        fill_data_vault_from_response(&mut data_vault, GetAllEncryptedDataEntriesResponse { data });
    assert_eq!(failures, vec![failure("Visa", "card", EntryError::Decryption)]);
    assert_eq!(data_vault.entries_vault.passwords, vault.passwords);
    assert_eq!(data_vault.entries_vault.notes, vault.notes);
    assert!(data_vault.entries_vault.cards.is_empty());
    assert_eq!(data_vault.entries_vault.totp_entries, vault.totp_entries);
}

#[test]
fn an_unknown_content_type_is_skipped_and_reported() {
    let ciphers = fresh_ciphers();
    let record = create_password_entry("Bank", "u", "p", "https://x", "2030-01-01");
    let mut unknown = encrypt_password_entry(&record, &ciphers.password_cipher).unwrap();
    unknown.content_type = "unknown_tag".to_string();
    let known = encrypt_password_entry(&record, &ciphers.password_cipher).unwrap();
    let mut data_vault = empty_vault(&ciphers);
    let failures = fill_data_vault_from_response(
        &mut data_vault,
        GetAllEncryptedDataEntriesResponse { data: vec![unknown, known] },
    );
    assert_eq!(failures, vec![failure("Bank", "unknown_tag", EntryError::UnknownCategory)]);
    assert_eq!(data_vault.entries_vault.passwords, vec![record]);
    assert!(data_vault.entries_vault.notes.is_empty());
    assert!(data_vault.entries_vault.cards.is_empty());
    assert!(data_vault.entries_vault.totp_entries.is_empty());
}

#[test]
fn an_unknown_content_type_alone_leaves_the_vault_empty() {
    let ciphers = fresh_ciphers();
    let entry = EncryptedDataEntry {
        name: "x".to_string(),
        content: String::new(),
        nonce: vec![],
        content_type: "unknown_tag".to_string(),
    };
    let mut data_vault = empty_vault(&ciphers);
    let failures = fill_data_vault_from_response(
        &mut data_vault,
        GetAllEncryptedDataEntriesResponse { data: vec![entry] },
    );
    assert_eq!(failures, vec![failure("x", "unknown_tag", EntryError::UnknownCategory)]);
    assert_eq!(data_vault.entries_vault, EntriesVault::new());
}

#[test]
fn failures_are_reported_in_the_order_of_the_entries() {
    let ciphers = fresh_ciphers();
    let note = create_note_entry("Wifi", "guest");
    let mut wrong_key = encrypt_note_entry(&note, &ciphers.card_cipher).unwrap();
    wrong_key.name = "wrong key".to_string();
    let mut not_a_note = encrypt_password_entry(
        &create_password_entry("Bank", "u", "p", "https://x", "2030-01-01"),
        &ciphers.note_cipher,
    )
    .unwrap();
    not_a_note.content_type = "note".to_string();
    let mut unknown = encrypt_note_entry(&note, &ciphers.note_cipher).unwrap();
    unknown.content_type = "Note".to_string();
    let good = encrypt_note_entry(&note, &ciphers.note_cipher).unwrap();
    let mut short_nonce = encrypt_note_entry(&note, &ciphers.note_cipher).unwrap();
    short_nonce.nonce.pop();
    short_nonce.name = "short nonce".to_string();
    let mut data_vault = empty_vault(&ciphers);
    let failures = fill_data_vault_from_response(
        &mut data_vault,
        GetAllEncryptedDataEntriesResponse {
            data: vec![wrong_key, not_a_note, unknown, good, short_nonce],
        },
    );
    assert_eq!(
        failures,
        vec![
            failure("wrong key", "note", EntryError::Decryption),
            failure("Bank", "note", EntryError::Deserialization),
            failure("Wifi", "Note", EntryError::UnknownCategory),
            failure("short nonce", "note", EntryError::Decryption),
        ]
    );
    assert_eq!(data_vault.entries_vault.notes, vec![note]);
}

#[test]
fn a_long_payload_keeps_its_order() {
    let ciphers = fresh_ciphers();
    let count = 500;
    let mut data = Vec::new();
    for i in 0..count {
        let entry = if i % 7 == 3 {
            let mut entry = encrypt_note_entry(
                &create_note_entry(&format!("bad {}", i), ""),
                &ciphers.note_cipher,
            )
            .unwrap();
            corrupt(&mut entry);
            entry
        } else if i % 2 == 0 {
            encrypt_note_entry(&create_note_entry(&format!("note {}", i), "c"), &ciphers.note_cipher)
                .unwrap()
        } else {
            encrypt_password_entry(
                &create_password_entry(&format!("password {}", i), "", "", "", ""),
                &ciphers.password_cipher,
            )
            .unwrap()
        };
        data.push(entry);
    }
    let mut data_vault = empty_vault(&ciphers);
    let failures =
        fill_data_vault_from_response(&mut data_vault, GetAllEncryptedDataEntriesResponse { data });
    let bad: Vec<String> = (0..count).filter(|i| i % 7 == 3).map(|i| format!("bad {}", i)).collect();
    let notes: Vec<String> = (0..count)
        .filter(|i| i % 7 != 3 && i % 2 == 0)
        .map(|i| format!("note {}", i))
        .collect();
    let passwords: Vec<String> = (0..count)
        .filter(|i| i % 7 != 3 && i % 2 == 1)
        .map(|i| format!("password {}", i))
        .collect();
    assert_eq!(failures.iter().map(|f| f.name.clone()).collect::<Vec<_>>(), bad);
    assert_eq!(
        data_vault.entries_vault.notes.iter().map(|n| n.name.clone()).collect::<Vec<_>>(),
        notes
    );
    assert_eq!(
        data_vault.entries_vault.passwords.iter().map(|p| p.name.clone()).collect::<Vec<_>>(),
        passwords
    );
    assert_eq!(failures.len() + notes.len() + passwords.len(), count);
}

#[test]
fn decrypt_entry_picks_the_key_by_the_content_type() {
    let ciphers = fresh_ciphers();
    let vault = sample_vault();
    let entry = encrypt_password_entry(&vault.passwords[0], &ciphers.password_cipher).unwrap();
    assert_eq!(decrypt_entry(&entry, &ciphers), Ok(Record::Password(vault.passwords[0].clone())));
    let entry = encrypt_note_entry(&vault.notes[0], &ciphers.note_cipher).unwrap();
    assert_eq!(decrypt_entry(&entry, &ciphers), Ok(Record::Note(vault.notes[0].clone())));
    let entry = encrypt_card_entry(&vault.cards[0], &ciphers.card_cipher).unwrap();
    assert_eq!(decrypt_entry(&entry, &ciphers), Ok(Record::Card(vault.cards[0].clone())));
    let entry = encrypt_totp_entry(&vault.totp_entries[0], &ciphers.totp_entry_cipher).unwrap();
    assert_eq!(
        decrypt_entry(&entry, &ciphers),
        Ok(Record::TOTPEntry(vault.totp_entries[0].clone()))
    );
}

#[test]
fn decrypt_entry_fails_where_the_content_type_asks_for_another_key() {
    let ciphers = fresh_ciphers();
    let vault = sample_vault();
    let mut entry = encrypt_password_entry(&vault.passwords[0], &ciphers.password_cipher).unwrap();
    entry.content_type = "note".to_string();
    assert_eq!(decrypt_entry(&entry, &ciphers), Err(EntryError::Decryption));
    entry.content_type = "unknown_tag".to_string();
    assert_eq!(decrypt_entry(&entry, &ciphers), Err(EntryError::UnknownCategory));
    entry.content_type = String::new();
    assert_eq!(decrypt_entry(&entry, &ciphers), Err(EntryError::UnknownCategory));
}

#[test]
fn a_vault_is_encrypted_record_by_record_in_its_order() {
    let ciphers = fresh_ciphers();
    let vault = sample_vault();
    let (entries, failures) = encrypt_entry_vault(&vault, ciphers.clone());
    assert!(failures.is_empty());
    let described: Vec<(&str, &str)> =
        entries.iter().map(|e| (e.name.as_str(), e.content_type.as_str())).collect();
    assert_eq!(
        described,
        vec![
            ("Bank", "password"),
            ("Mail", "password"),
            ("Wifi", "note"),
            ("Visa", "card"),
            ("Amex", "card"),
            ("Debit", "card"),
            ("Mail", "totp_entry"),
        ]
    );
    for entry in &entries {
        assert_eq!(entry.nonce.len(), 12);
        assert!(decrypt_entry(entry, &ciphers).is_ok());
    }
}

#[test]
fn an_encrypted_vault_decrypts_to_the_same_vault() {
    let ciphers = fresh_ciphers();
    let vault = sample_vault();
    let (entries, failures) = encrypt_entry_vault(&vault, ciphers.clone());
    assert_eq!(failures, vec![]);
    let mut data_vault = empty_vault(&ciphers);
    let failures = fill_data_vault_from_response(
        &mut data_vault,
        GetAllEncryptedDataEntriesResponse { data: entries },
    );
    assert_eq!(failures, vec![]);
    assert_eq!(data_vault.entries_vault, vault);
}

#[test]
fn an_empty_vault_encrypts_to_nothing() {
    let (entries, failures) = encrypt_entry_vault(&EntriesVault::new(), fresh_ciphers());
    assert!(entries.is_empty());
    assert!(failures.is_empty());
}

#[test]
fn a_large_vault_round_trips_in_order() {
    let ciphers = fresh_ciphers();
    let mut vault = EntriesVault::new();
    for i in 0..300 {
        vault.passwords.push(create_password_entry(&format!("p{}", i), "u", "p", "", ""));
        vault.notes.push(create_note_entry(&format!("n{}", i), "c"));
        if i % 3 == 0 {
            vault.cards.push(create_card_entry(&format!("c{}", i), "", "", "", ""));
        }
        if i % 5 == 0 {
            vault.totp_entries.push(create_totp_entry(&format!("t{}", i), "SHA1", "s", 6, 1, 30));
        }
    }
    let (entries, failures) = encrypt_entry_vault(&vault, ciphers.clone());
    assert!(failures.is_empty());
    assert_eq!(entries.len(), 300 + 300 + 100 + 60);
    let mut nonces: Vec<Vec<u8>> = entries.iter().map(|e| e.nonce.clone()).collect();
    nonces.sort();
    nonces.dedup();
    assert_eq!(nonces.len(), entries.len());
    let mut data_vault = empty_vault(&ciphers);
    let failures = fill_data_vault_from_response(
        &mut data_vault,
        GetAllEncryptedDataEntriesResponse { data: entries },
    );
    assert!(failures.is_empty());
    assert_eq!(data_vault.entries_vault, vault);
}

#[test]
fn entries_of_one_session_do_not_open_in_another() {
    let vault = sample_vault();
    let (entries, _) = encrypt_entry_vault(&vault, fresh_ciphers());
    let other = fresh_ciphers();
    let mut data_vault = empty_vault(&other);
    let failures = fill_data_vault_from_response(
        &mut data_vault,
        GetAllEncryptedDataEntriesResponse { data: entries },
    );
    assert_eq!(failures.len(), 7);
    assert!(failures.iter().all(|f| f.error == EntryError::Decryption));
    assert_eq!(data_vault.entries_vault, EntriesVault::new());
}

fn entry(name: &str) -> EncryptedDataEntry {
    EncryptedDataEntry {
        name: name.to_string(),
        content: "00".to_string(),
        nonce: vec![0; 12],
        content_type: "note".to_string(),
    }
}

#[test]
fn an_entry_is_handed_on_and_an_error_becomes_a_report() {
    assert_eq!(entry_or_report("Wifi", Category::Note, Ok(entry("Wifi"))), Ok(entry("Wifi")));
    assert_eq!(
        entry_or_report("Wifi", Category::Note, Err(EntryError::Encryption)),
        Err(failure("Wifi", "note", EntryError::Encryption))
    );
    assert_eq!(
        entry_or_report("Bank", Category::Password, Err(EntryError::Serialization)),
        Err(failure("Bank", "password", EntryError::Serialization))
    );
    assert_eq!(
        entry_or_report("", Category::TotpEntry, Err(EntryError::Encryption)),
        Err(failure("", "totp_entry", EntryError::Encryption))
    );
    assert_eq!(
        entry_or_report("c", Category::Card, Err(EntryError::Serialization)),
        Err(failure("c", "card", EntryError::Serialization))
    );
}

#[test]
fn reports_are_split_into_entries_and_failures_in_order() {
    let mut entries = vec![entry("before")];
    let mut failures = vec![failure("earlier", "card", EntryError::Encryption)];
    let reports = vec![
        Ok(entry("a")),
        Err(failure("b", "note", EntryError::Serialization)),
        Ok(entry("c")),
        Err(failure("d", "note", EntryError::Encryption)),
        Err(failure("e", "note", EntryError::Encryption)),
        Ok(entry("f")),
    ];
    gather_reports(reports, &mut entries, &mut failures);
    assert_eq!(entries, vec![entry("before"), entry("a"), entry("c"), entry("f")]);
    assert_eq!(
        failures,
        vec![
            failure("earlier", "card", EntryError::Encryption),
            failure("b", "note", EntryError::Serialization),
            failure("d", "note", EntryError::Encryption),
            failure("e", "note", EntryError::Encryption),
        ]
    );
}

#[test]
fn no_reports_leave_the_lists_as_they_were() {
    let mut entries = vec![entry("before")];
    let mut failures = Vec::new();
    gather_reports(Vec::new(), &mut entries, &mut failures);
    assert_eq!(entries, vec![entry("before")]);
    assert!(failures.is_empty());
}
