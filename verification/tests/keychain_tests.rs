use auvro::keychain::{delete_keychain_entry, keychain_read_result, KeyringFailure};
use auvro::secrets::{FallbackFile, SecretBackend, SecretStore, SecretWrite};

fn mock_store() -> SecretStore {
    keyring::set_default_credential_builder(keyring::mock::default_credential_builder());
    SecretStore::with_backend("auvro-test", SecretBackend::Keyring, "/tmp/unused".to_owned())
}

#[test]
fn keychain_deletion_ignores_a_missing_credential() {
    let store = mock_store();
    let entry = store.keychain_entry("nobody").unwrap();
    assert!(delete_keychain_entry(Ok(entry)).is_ok());
    assert!(matches!(store.delete("nobody", &FallbackFile::Missing, &None), Ok(SecretWrite::Keychain(_))));
}

#[test]
fn keychain_deletion_reports_the_entry_error() {
    assert_eq!(delete_keychain_entry(Err("no keychain".to_owned())).err(), Some("no keychain".to_owned()));
}

#[test]
fn keychain_writes_report_the_call() {
    let store = mock_store();
    assert!(matches!(store.set("token", "abc", &FallbackFile::Missing, &None), Ok(SecretWrite::Keychain(_))));
}

#[test]
fn keychain_reads_report_the_password_or_the_failure() {
    assert_eq!(keychain_read_result(Ok("tok".to_owned())), Ok("tok".to_owned()));
    assert_eq!(
        keychain_read_result(Err(KeyringFailure::NoEntry("No matching entry found in secure storage".to_owned()))),
        Err("No matching entry found in secure storage".to_owned())
    );
    assert_eq!(keychain_read_result(Err(KeyringFailure::Other("locked".to_owned()))), Err("locked".to_owned()));
}

#[test]
fn a_missing_keychain_credential_reads_as_an_error() {
    let store = mock_store();
    assert!(store.get("absent", &FallbackFile::Missing, &None).is_err());
}
