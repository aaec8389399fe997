use u2f_core::app_id::AppId;
use u2f_core::application_key::ApplicationKey;
use u2f_core::authenticator::{version, Authenticator, Command, Response};
use u2f_core::counter::{CounterError, CounterSource, MemoryCounter};
use u2f_core::crypto::{Attestation, PrivateKey, TransparentCrypto};
use u2f_core::error::U2fError;
use u2f_core::key_handle::KeyHandle;
use u2f_core::key_store::{KeyStore, StoreError};
use u2f_core::memory_store::MemoryKeyStore;

fn app(byte: u8) -> AppId {
    AppId::from_bytes(vec![byte])
}

fn record(app_byte: u8, handle_byte: u8, key_byte: u8) -> ApplicationKey {
    ApplicationKey::new(
        app(app_byte),
        KeyHandle::from_bytes(vec![handle_byte; 32]),
        PrivateKey::from_bytes(vec![key_byte; 32]),
    )
}

#[test]
fn put_refuses_duplicate_pair_with_conflict() {
    let mut store = MemoryKeyStore::new();
    assert!(store.put(record(0x41, 1, 10)).is_ok());
    assert_eq!(store.put(record(0x41, 1, 11)).unwrap_err(), StoreError::Conflict);
    // The same handle under another application is no conflict.
    assert!(store.put(record(0x42, 1, 12)).is_ok());
}

#[test]
fn get_misses_under_foreign_application() {
    let mut store = MemoryKeyStore::new();
    store.put(record(0x41, 1, 10)).unwrap();
    let handle = KeyHandle::from_bytes(vec![1u8; 32]);
    // Valid under application A...
    assert!(store.get(&app(0x41), &handle).unwrap().is_some());
    // ...but "not found" under application B, not "found but wrong app".
    assert!(store.get(&app(0x42), &handle).unwrap().is_none());
}

#[test]
fn get_returns_the_matching_record() {
    let mut store = MemoryKeyStore::new();
    store.put(record(0x41, 1, 10)).unwrap();
    store.put(record(0x41, 2, 11)).unwrap();
    let found = store
        .get(&app(0x41), &KeyHandle::from_bytes(vec![2u8; 32]))
        .unwrap()
        .unwrap();
    assert_eq!(found.application().as_bytes(), &[0x41u8][..]);
    assert_eq!(found.handle().as_bytes(), &[2u8; 32][..]);
}

#[test]
fn list_returns_only_matching_records_in_order() {
    let mut store = MemoryKeyStore::new();
    store.put(record(0x41, 1, 10)).unwrap();
    store.put(record(0x42, 2, 11)).unwrap();
    store.put(record(0x41, 3, 12)).unwrap();
    let listed = store.list(&app(0x41)).unwrap();
    assert_eq!(listed.len(), 2);
    assert_eq!(listed[0].handle().as_bytes(), &[1u8; 32][..]);
    assert_eq!(listed[1].handle().as_bytes(), &[3u8; 32][..]);
    assert_eq!(store.list(&app(0x42)).unwrap().len(), 1);
    assert_eq!(store.list(&app(0x43)).unwrap().len(), 0);
}

#[test]
fn delete_removes_exactly_the_named_record() {
    let mut store = MemoryKeyStore::new();
    store.put(record(0x41, 1, 10)).unwrap();
    store.put(record(0x41, 2, 11)).unwrap();
    let handle = KeyHandle::from_bytes(vec![1u8; 32]);
    assert_eq!(store.delete(&app(0x41), &handle).unwrap(), true);
    assert!(store.get(&app(0x41), &handle).unwrap().is_none());
    assert_eq!(store.delete(&app(0x41), &handle).unwrap(), false);
    // The other record is untouched.
    assert!(store
        .get(&app(0x41), &KeyHandle::from_bytes(vec![2u8; 32]))
        .unwrap()
        .is_some());
}

#[test]
fn unavailable_store_fails_every_operation() {
    let mut store = MemoryKeyStore::new();
    store.put(record(0x41, 1, 10)).unwrap();
    store.set_available(false);
    let handle = KeyHandle::from_bytes(vec![1u8; 32]);
    assert_eq!(store.put(record(0x41, 2, 11)).unwrap_err(), StoreError::Unavailable);
    assert!(matches!(store.get(&app(0x41), &handle), Err(StoreError::Unavailable)));
    assert!(matches!(store.list(&app(0x41)), Err(StoreError::Unavailable)));
    assert_eq!(store.delete(&app(0x41), &handle).unwrap_err(), StoreError::Unavailable);
    // Recovery: the records survived the outage.
    store.set_available(true);
    assert!(store.get(&app(0x41), &handle).unwrap().is_some());
}

#[test]
fn counter_is_exhausted_at_maximum() {
    let mut counter = MemoryCounter::resume(u32::MAX);
    assert_eq!(counter.next().unwrap_err(), CounterError::Exhausted);
    assert_eq!(counter.current(), u32::MAX);
}

#[test]
fn counter_next_persists_each_value_once() {
    let mut counter = MemoryCounter::new();
    assert_eq!(counter.next().unwrap(), 1);
    assert_eq!(counter.next().unwrap(), 2);
    assert_eq!(counter.current(), 2);
    counter.set_available(false);
    assert_eq!(counter.next().unwrap_err(), CounterError::Unavailable);
    assert_eq!(counter.current(), 2);
}

#[test]
fn version_query_returns_static_string() {
    assert_eq!(version(), b"U2F_V2".to_vec());
}

fn facade() -> Authenticator<MemoryKeyStore, MemoryCounter, TransparentCrypto> {
    Authenticator::new(
        MemoryKeyStore::new(),
        MemoryCounter::new(),
        TransparentCrypto::new(),
        Some(Attestation::new(
            PrivateKey::from_bytes(vec![0xEEu8; 32]),
            vec![0xC0, 0xFF, 0x11],
        )),
    )
}

#[test]
fn facade_dispatches_register_then_authenticate() {
    let mut authenticator = facade();
    let registered = authenticator
        .process(
            Command::Register { application: app(0x41), challenge: vec![1, 2, 3] },
            0x01,
        )
        .unwrap();
    let handle = match registered {
        Response::Registration(resp) => resp.key_handle,
        _ => panic!("expected a registration response"),
    };
    let authenticated = authenticator
        .process(
            Command::Authenticate {
                application: app(0x41),
                key_handle: handle,
                challenge: vec![4, 5],
            },
            0x01,
        )
        .unwrap();
    match authenticated {
        Response::Authentication(resp) => assert_eq!(resp.counter, 1),
        _ => panic!("expected an authentication response"),
    }
    let versioned = authenticator.process(Command::Version, 0x01).unwrap();
    match versioned {
        Response::Version(v) => assert_eq!(v, b"U2F_V2".to_vec()),
        _ => panic!("expected a version response"),
    }
}

#[test]
fn facade_without_attestation_refuses_registration_only() {
    let mut authenticator = Authenticator::new(
        MemoryKeyStore::new(),
        MemoryCounter::new(),
        TransparentCrypto::new(),
        None,
    );
    let r = authenticator.process(
        Command::Register { application: app(0x41), challenge: vec![1] },
        0x01,
    );
    assert_eq!(r.unwrap_err(), U2fError::SigningUnavailable);

    // Authentication never needs the attestation key: a lookup miss is
    // still reported as such, not as a signing failure.
    let r = authenticator.process(
        Command::Authenticate {
            application: app(0x41),
            key_handle: KeyHandle::from_bytes(vec![1u8; 32]),
            challenge: vec![1],
        },
        0x01,
    );
    assert_eq!(r.unwrap_err(), U2fError::UnknownKeyHandle);

    // The version query is served regardless.
    assert!(authenticator.process(Command::Version, 0x01).is_ok());
}
