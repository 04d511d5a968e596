use pwvault::crypto::vault_file::VaultFile;
use pwvault::error::AppError;
use pwvault::model::entry::{ClipboardField, Entry, NewEntryInput, UpdateEntryInput};
use pwvault::model::vault_data::VaultData;
use pwvault::session::VaultSession;

fn sample_entry_input(title: &str) -> NewEntryInput {
    NewEntryInput {
        title: title.to_string(),
        username: "alice".to_string(),
        password: "s3cret".to_string(),
        url: "https://example.com".to_string(),
        notes: "".to_string(),
        tags: vec!["work".to_string()],
    }
}

fn entry(id: &str, title: &str) -> Entry {
    Entry {
        id: id.to_string(),
        title: title.to_string(),
        username: "u".to_string(),
        password: "p".to_string(),
        url: "".to_string(),
        notes: "".to_string(),
        tags: vec![],
        created_at: 10,
        updated_at: 10,
    }
}

fn unlocked_with(entries: Vec<Entry>) -> VaultSession {
    let mut vault_file = VaultFile {
        magic: "PWMGRVAULT".to_string(),
        format_version: 1,
        kdf: pwvault::crypto::vault_file::KdfHeader {
            algorithm: "argon2id".to_string(),
            salt: "c2FsdHNhbHRzYWx0c2FsdA==".to_string(),
            memory_kib: 8,
            iterations: 1,
            parallelism: 1,
        },
        cipher: pwvault::crypto::vault_file::CipherHeader {
            algorithm: "aes-256-gcm".to_string(),
            nonce: String::new(),
        },
        created_at: 0,
        modified_at: 0,
        ciphertext: String::new(),
    };
    let key = pwvault::crypto::kdf::derive_key(
        "hunter2",
        b"saltsaltsaltsalt",
        &pwvault::crypto::kdf::KdfParams { memory_kib: 8, iterations: 1, parallelism: 1 },
    )
    .unwrap();
    vault_file.reencrypt(&key, b"{}").unwrap();
    VaultSession::Unlocked {
        key,
        vault_file,
        data: VaultData { schema_version: 1, entries },
    }
}

#[test]
fn session_add_entry_then_list_and_get() {
    let mut session = unlocked_with(vec![]);
    let summary = session.add_entry(sample_entry_input("GitHub")).unwrap();
    assert_eq!(summary.title, "GitHub");
    assert_eq!(summary.id.len(), 36);

    let list = session.list_entries().unwrap();
    assert_eq!(list.len(), 1);
    assert_eq!(list[0].id, summary.id);

    let full = session.get_entry(&summary.id).unwrap();
    assert_eq!(full.password, "s3cret");
    assert_eq!(full.created_at, full.updated_at);
    assert_eq!(full.tags, vec!["work".to_string()]);
}

#[test]
fn session_entry_commands_fail_when_locked() {
    let mut session = VaultSession::Locked;
    assert!(matches!(session.list_entries(), Err(AppError::Locked)));
    assert!(matches!(session.add_entry(sample_entry_input("X")), Err(AppError::Locked)));
    assert!(matches!(session.get_entry("a"), Err(AppError::Locked)));
    assert!(matches!(session.delete_entry("a"), Err(AppError::Locked)));
    assert!(matches!(session.persist(b"{}"), Err(AppError::Locked)));
    assert!(matches!(
        session.change_master_password("a", "b", b"{}"),
        Err(AppError::Locked)
    ));
    assert!(!session.is_unlocked());
}

#[test]
fn session_lock_forgets_the_document() {
    let mut session = unlocked_with(vec![entry("1", "one")]);
    assert!(session.is_unlocked());
    session.lock();
    assert!(!session.is_unlocked());
    assert!(session.data().is_none());
    assert!(session.vault_file().is_none());
}

#[test]
fn session_get_finds_the_first_match() {
    let session = unlocked_with(vec![entry("1", "first"), entry("2", "two"), entry("1", "second")]);
    assert_eq!(session.get_entry("1").unwrap().title, "first");
    assert!(matches!(session.get_entry("3"), Err(AppError::NotFound)));
}

#[test]
fn session_update_entry_changes_fields_and_keeps_identity() {
    let mut session = unlocked_with(vec![entry("1", "one"), entry("2", "two")]);
    let update = UpdateEntryInput {
        title: "GitHub (work)".to_string(),
        username: "alice2".to_string(),
        password: "new-secret".to_string(),
        url: "https://github.com".to_string(),
        notes: "rotated".to_string(),
        tags: vec![],
    };
    let summary = session.update_entry("2", update).unwrap();
    assert_eq!(summary.id, "2");
    assert_eq!(summary.title, "GitHub (work)");
    let e = session.get_entry("2").unwrap();
    assert_eq!(e.password, "new-secret");
    assert_eq!(e.notes, "rotated");
    assert_eq!(e.created_at, 10);
    assert_eq!(session.get_entry("1").unwrap().title, "one");
}

#[test]
fn session_update_fails_for_unknown_id() {
    let mut session = unlocked_with(vec![entry("1", "one")]);
    let update = UpdateEntryInput {
        title: "x".to_string(),
        username: "x".to_string(),
        password: "x".to_string(),
        url: "x".to_string(),
        notes: "x".to_string(),
        tags: vec![],
    };
    assert!(matches!(session.update_entry("nonexistent", update), Err(AppError::NotFound)));
    assert_eq!(session.get_entry("1").unwrap().title, "one");
}

#[test]
fn session_delete_removes_every_match() {
    let mut session = unlocked_with(vec![entry("1", "a"), entry("2", "b"), entry("1", "c")]);
    session.delete_entry("1").unwrap();
    let list = session.list_entries().unwrap();
    assert_eq!(list.len(), 1);
    assert_eq!(list[0].id, "2");
    assert!(matches!(session.delete_entry("1"), Err(AppError::NotFound)));
    assert!(matches!(session.get_entry("1"), Err(AppError::NotFound)));
}

#[test]
fn session_clipboard_value_picks_the_field() {
    let session = unlocked_with(vec![entry("1", "a")]);
    assert_eq!(session.clipboard_value("1", ClipboardField::Username).unwrap(), "u");
    assert_eq!(session.clipboard_value("1", ClipboardField::Password).unwrap(), "p");
    assert!(matches!(
        session.clipboard_value("9", ClipboardField::Password),
        Err(AppError::NotFound)
    ));
}

#[test]
fn session_persist_reseals_under_the_session_key() {
    let mut session = unlocked_with(vec![]);
    session.persist(b"{\"entries\":[1]}").unwrap();
    let file = session.vault_file().unwrap().clone();
    let (_key, plaintext) = file.unlock("hunter2").unwrap();
    assert_eq!(&*plaintext, b"{\"entries\":[1]}");
}

#[test]
fn session_change_password_requires_the_current_one() {
    let session = unlocked_with(vec![]);
    assert!(matches!(
        session.change_master_password("wrong", "new", b"{}"),
        Err(AppError::Crypto(_))
    ));
}

#[test]
fn session_change_password_makes_a_vault_for_the_new_one() {
    let mut session = unlocked_with(vec![entry("1", "a")]);
    let (file, key) = session.change_master_password("hunter2", "new-pass", b"doc").unwrap();
    let (_k, plaintext) = file.unlock("new-pass").unwrap();
    assert_eq!(&*plaintext, b"doc");
    assert!(file.unlock("hunter2").is_err());
    session.replace_vault_file(file, key);
    assert_eq!(session.get_entry("1").unwrap().title, "a");
}

#[test]
fn session_create_and_open_vault() {
    assert!(matches!(VaultSession::check_vault_absent(true), Err(AppError::AlreadyExists)));
    assert!(VaultSession::check_vault_absent(false).is_ok());
    assert!(matches!(VaultSession::check_vault_present(false), Err(AppError::NotFound)));
    assert!(VaultSession::check_vault_present(true).is_ok());
    let (file, key) = VaultSession::create_vault("pw", b"doc").unwrap();
    let (key2, plaintext) = VaultSession::open_vault(&file, "pw").unwrap();
    assert_eq!(*key, *key2);
    assert_eq!(&*plaintext, b"doc");
    assert!(matches!(VaultSession::open_vault(&file, "other"), Err(AppError::Crypto(_))));
}

#[test]
fn entry_ids_are_hyphenated_version_4_uuids() {
    let id = pwvault::session::new_entry_id().unwrap();
    assert_eq!(id.len(), 36);
    for (i, c) in id.chars().enumerate() {
        if i == 8 || i == 13 || i == 18 || i == 23 {
            assert_eq!(c, '-');
        } else {
            assert!(c.is_ascii_digit() || ('a'..='f').contains(&c));
        }
    }
    assert_eq!(id.as_bytes()[14], b'4');
    assert!(b"89ab".contains(&id.as_bytes()[19]));
    assert_ne!(id, pwvault::session::new_entry_id().unwrap());
}

#[test]
fn add_entry_at_appends_the_entry_with_the_given_id_and_time() {
    let mut session = unlocked_with(vec![entry("a", "First")]);
    let summary = session
        .add_entry_at(sample_entry_input("Second"), "b".to_string(), 77)
        .unwrap();
    assert_eq!(summary.id, "b");
    assert_eq!(summary.title, "Second");
    assert_eq!(summary.username, "alice");
    let list = session.list_entries().unwrap();
    assert_eq!(list.len(), 2);
    assert_eq!(list[0].id, "a");
    assert_eq!(list[1].id, "b");
    let full = session.get_entry("b").unwrap();
    assert_eq!(full.created_at, 77);
    assert_eq!(full.updated_at, 77);
    assert_eq!(full.password, "s3cret");

    let mut locked = VaultSession::Locked;
    assert!(matches!(
        locked.add_entry_at(sample_entry_input("x"), "c".to_string(), 1),
        Err(AppError::Locked)
    ));
}
