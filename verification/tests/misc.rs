use pwvault::clock::{now_unix, unix_timestamp};
use pwvault::autolock::{should_autolock, DEFAULT_TIMEOUT_SECS};
use pwvault::clipboard::{sha256_hex, should_clear_clipboard};
use pwvault::json::{decimal_string, push_decimal, push_quoted};
use pwvault::model::entry::{Entry, EntrySummary};
use pwvault::model::vault_data::{VaultData, CURRENT_SCHEMA_VERSION};
use pwvault::settings::{Settings, Theme};

#[test]
fn sha256_hex_is_lowercase_hex_of_the_digest() {
    assert_eq!(
        sha256_hex("abc"),
        "ba7816bf8f01cfea414140de5dae2223b00361a396177a9cb410ff61f20015ad"
    );
    assert_eq!(
        sha256_hex(""),
        "e3b0c44298fc1c149afbf4c8996fb92427ae41e4649b934ca495991b7852b855"
    );
}

#[test]
fn clipboard_clears_only_the_latest_unchanged_copy() {
    let hash = sha256_hex("s3cret");
    assert!(should_clear_clipboard(3, 3, Some("s3cret"), &hash));
    assert!(!should_clear_clipboard(4, 3, Some("s3cret"), &hash));
    assert!(!should_clear_clipboard(3, 3, Some("something else"), &hash));
    assert!(!should_clear_clipboard(3, 3, None, &hash));
}

#[test]
fn autolock_after_the_timeout_only() {
    assert_eq!(DEFAULT_TIMEOUT_SECS, 300);
    assert!(should_autolock(true, 300));
    assert!(should_autolock(true, 301));
    assert!(!should_autolock(true, 299));
    assert!(!should_autolock(false, 1000));
}

#[test]
fn settings_default_to_system_theme() {
    let s = Settings::default();
    assert_eq!(s.theme, Theme::System);
    assert!(!s.always_on_top);
    let stored = Settings { theme: Theme::Dark, always_on_top: true };
    assert_eq!(Settings::from_stored(Some(stored)), stored);
    assert_eq!(Settings::from_stored(None), Settings::default());
}

#[test]
fn vault_data_default_is_empty_current_schema() {
    let d = VaultData::default();
    assert_eq!(d.schema_version, CURRENT_SCHEMA_VERSION);
    assert_eq!(d.schema_version, 1);
    assert!(d.entries.is_empty());
}

#[test]
fn summary_drops_the_secret() {
    let e = Entry {
        id: "id".to_string(),
        title: "t".to_string(),
        username: "u".to_string(),
        password: "p".to_string(),
        url: "w".to_string(),
        notes: "n".to_string(),
        tags: vec!["a".to_string(), "b".to_string()],
        created_at: 1,
        updated_at: 2,
    };
    let s = EntrySummary::from_entry(&e);
    assert_eq!(s.id, "id");
    assert_eq!(s.title, "t");
    assert_eq!(s.username, "u");
    assert_eq!(s.url, "w");
    assert_eq!(s.tags, vec!["a".to_string(), "b".to_string()]);
    assert_eq!(e.duplicate().password, "p");
}

#[test]
fn json_pieces() {
    assert_eq!(decimal_string(0), "0");
    assert_eq!(decimal_string(65536), "65536");
    let mut out = Vec::new();
    push_decimal(&mut out, 1234567890);
    assert_eq!(out, b"1234567890");
    let mut out = Vec::new();
    push_quoted(&mut out, "tab\there\u{8}\u{c}\r\u{1f}/");
    assert_eq!(out, b"\"tab\\there\\b\\f\\r\\u001f/\"");
}

#[test]
fn clock_readings_become_timestamps() {
    assert_eq!(unix_timestamp(0), 0);
    assert_eq!(unix_timestamp(1_700_000_000), 1_700_000_000);
    assert_eq!(unix_timestamp(i64::MAX as u64), i64::MAX);
    assert_eq!(unix_timestamp(u64::MAX), -1);
    assert!(now_unix().unwrap() > 1_600_000_000);
}

#[test]
fn base64_fields_use_the_padded_standard_alphabet() {
    let (v, _key) = pwvault::crypto::vault_file::VaultFile::create_with(
        "pw",
        b"",
        &[0xFBu8; 16],
        &[0xFFu8; 12],
        5,
    )
    .unwrap();
    assert_eq!(v.kdf.salt, "+/v7+/v7+/v7+/v7+/v7+w==");
    assert_eq!(v.cipher.nonce, "////////////////");
}
