use cw_skeleton::error::ContractError;
use cw_skeleton::state::{version_key_bytes, ContractVersion, StateStore};

fn v(name: &str, version: &str) -> ContractVersion {
    ContractVersion { name: name.to_string(), version: version.to_string() }
}

#[test]
fn set_then_get_returns_the_value() {
    let mut store = StateStore::new();
    store.initialize_version(&v("crates.io:demo", "0.1.0")).unwrap();
    store.set(&b"config".to_vec(), &b"payload".to_vec()).unwrap();
    assert_eq!(store.get(&b"config".to_vec()).unwrap(), b"payload".to_vec());
}

#[test]
fn get_of_an_absent_key_carries_the_key() {
    let store = StateStore::new();
    let err = store.get(&b"missing".to_vec()).unwrap_err();
    assert_eq!(err, ContractError::NotFound(b"missing".to_vec()));
}

#[test]
fn the_protected_key_and_empty_values_are_refused() {
    let mut store = StateStore::new();
    let err = store.set(&version_key_bytes(), &b"hijack".to_vec()).unwrap_err();
    assert_eq!(
        err,
        ContractError::InvalidArgument("the version key is protected".to_string())
    );

    let err = store.set(&b"k".to_vec(), &Vec::new()).unwrap_err();
    assert_eq!(
        err,
        ContractError::InvalidArgument("an empty value cannot be stored".to_string())
    );
}

#[test]
fn initialize_version_is_exactly_once() {
    let mut store = StateStore::new();
    assert!(store.version().is_none());
    store.initialize_version(&v("crates.io:demo", "0.1.0")).unwrap();
    let err = store.initialize_version(&v("crates.io:demo", "0.2.0")).unwrap_err();
    assert_eq!(err, ContractError::AlreadyInitialized);
    let stored = store.version().as_ref().unwrap();
    assert_eq!(stored.version, "0.1.0");
}

#[test]
fn migrate_with_the_exact_prior_version_replaces_the_record() {
    let mut store = StateStore::new();
    store.initialize_version(&v("crates.io:demo", "0.1.0")).unwrap();
    store.migrate(&v("crates.io:demo", "0.1.0"), &v("crates.io:demo", "0.2.0")).unwrap();
    let stored = store.version().as_ref().unwrap();
    assert_eq!(stored.name, "crates.io:demo");
    assert_eq!(stored.version, "0.2.0");
}

#[test]
fn migrate_with_a_mismatched_prior_version_changes_nothing() {
    let mut store = StateStore::new();
    store.initialize_version(&v("crates.io:demo", "0.1.0")).unwrap();

    // A wrong version, then a wrong name: both must name the exact record.
    for wrong in [v("crates.io:demo", "0.0.9"), v("crates.io:other", "0.1.0")] {
        let err = store.migrate(&wrong, &v("crates.io:demo", "0.2.0")).unwrap_err();
        match err {
            ContractError::VersionMismatch(expected, found) => {
                assert_eq!(expected, wrong);
                assert_eq!(found, Some(v("crates.io:demo", "0.1.0")));
            },
            other => panic!("expected a version mismatch, got {:?}", other),
        }
        let stored = store.version().as_ref().unwrap();
        assert_eq!(stored.name, "crates.io:demo");
        assert_eq!(stored.version, "0.1.0");
    }
}

#[test]
fn migrate_before_initialize_reports_no_stored_version() {
    let mut store = StateStore::new();
    let err = store.migrate(&v("crates.io:demo", "0.1.0"), &v("crates.io:demo", "0.2.0"))
        .unwrap_err();
    match err {
        ContractError::VersionMismatch(expected, found) => {
            assert_eq!(expected, v("crates.io:demo", "0.1.0"));
            assert_eq!(found, None);
        },
        other => panic!("expected a version mismatch, got {:?}", other),
    }
    assert!(store.version().is_none());
}
