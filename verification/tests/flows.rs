use u2f_core::app_id::AppId;
use u2f_core::authenticate::authenticate;
use u2f_core::counter::MemoryCounter;
use u2f_core::crypto::{Attestation, Crypto, PrivateKey, TransparentCrypto};
use u2f_core::error::U2fError;
use u2f_core::key_handle::KeyHandle;
use u2f_core::key_store::KeyStore;
use u2f_core::memory_store::MemoryKeyStore;
use u2f_core::register::register;

const ATTESTATION_SEED: u8 = 0xEE;
const USER_PRESENCE: u8 = 0x01;

fn attestation() -> Attestation {
    Attestation::new(
        PrivateKey::from_bytes(vec![ATTESTATION_SEED; 32]),
        vec![0xC0, 0xFF, 0x11],
    )
}

fn app(byte: u8) -> AppId {
    AppId::from_bytes(vec![byte])
}

#[test]
fn registration_returns_expected_response() {
    let mut store = MemoryKeyStore::new();
    let mut crypto = TransparentCrypto::new();
    let att = attestation();
    let challenge = vec![1u8, 2, 3];
    let resp = register(&mut store, &mut crypto, &att, &app(0x41), &challenge).unwrap();

    // First minted handle and keypair both use seed 1.
    assert_eq!(resp.key_handle.as_bytes(), &[1u8; 32][..]);
    assert_eq!(resp.public_key.as_bytes(), &[1u8 ^ 0xA5; 32][..]);
    assert_eq!(resp.attestation_certificate, vec![0xC0, 0xFF, 0x11]);

    // Signature: the attestation key (identified by its public half) over
    // 0x00 ++ app ++ challenge ++ handle ++ public key.
    let mut payload = vec![0x00u8, 0x41, 1, 2, 3];
    payload.extend_from_slice(&[1u8; 32]);
    payload.extend_from_slice(&[1u8 ^ 0xA5; 32]);
    let mut expected = vec![ATTESTATION_SEED ^ 0xA5; 32];
    expected.extend_from_slice(&payload);
    assert_eq!(resp.signature, expected);

    // The attestation private key itself appears nowhere in the response.
    assert_ne!(&resp.signature[..32], &[ATTESTATION_SEED; 32][..]);
}

#[test]
fn registration_signature_verifies_with_attestation_key_only() {
    let mut store = MemoryKeyStore::new();
    let mut crypto = TransparentCrypto::new();
    let att = attestation();
    let challenge = vec![7u8];
    let resp = register(&mut store, &mut crypto, &att, &app(0x41), &challenge).unwrap();

    let mut payload = vec![0x00u8, 0x41, 7];
    payload.extend_from_slice(resp.key_handle.as_bytes());
    payload.extend_from_slice(resp.public_key.as_bytes());

    let att_public =
        TransparentCrypto::derive_public(&PrivateKey::from_bytes(vec![ATTESTATION_SEED; 32]));
    assert!(TransparentCrypto::verify(&att_public, &payload, &resp.signature));
    // Not the freshly generated credential key.
    assert!(!TransparentCrypto::verify(&resp.public_key, &payload, &resp.signature));
}

#[test]
fn authentication_counts_and_signs_with_credential_key() {
    let mut store = MemoryKeyStore::new();
    let mut counter = MemoryCounter::new();
    let mut crypto = TransparentCrypto::new();
    let att = attestation();
    let reg = register(&mut store, &mut crypto, &att, &app(0x41), &vec![1u8, 2, 3]).unwrap();

    let challenge = vec![9u8, 8];
    let resp = authenticate(
        &store,
        &mut counter,
        &crypto,
        &app(0x41),
        &reg.key_handle,
        &challenge,
        USER_PRESENCE,
    )
    .unwrap();

    assert_eq!(resp.counter, 1);
    assert_eq!(resp.user_presence, USER_PRESENCE);

    // Signature: the credential key (identified by its public half) over
    // app ++ user presence ++ counter bytes ++ challenge.
    let mut payload = vec![0x41u8, USER_PRESENCE, 0, 0, 0, 1];
    payload.extend_from_slice(&challenge);
    let mut expected = vec![1u8 ^ 0xA5; 32];
    expected.extend_from_slice(&payload);
    assert_eq!(resp.signature, expected);

    // The credential's private key itself appears nowhere in the response.
    assert_ne!(&resp.signature[..32], &[1u8; 32][..]);

    assert!(TransparentCrypto::verify(&reg.public_key, &payload, &resp.signature));
    let att_public =
        TransparentCrypto::derive_public(&PrivateKey::from_bytes(vec![ATTESTATION_SEED; 32]));
    assert!(!TransparentCrypto::verify(&att_public, &payload, &resp.signature));
}

#[test]
fn unknown_handle_rejected_without_counter_advance() {
    let mut store = MemoryKeyStore::new();
    let mut counter = MemoryCounter::new();
    let mut crypto = TransparentCrypto::new();
    let att = attestation();
    register(&mut store, &mut crypto, &att, &app(0x41), &vec![1u8]).unwrap();

    let bogus = KeyHandle::from_bytes(vec![9u8; 32]);
    let r = authenticate(
        &store,
        &mut counter,
        &crypto,
        &app(0x41),
        &bogus,
        &vec![2u8],
        USER_PRESENCE,
    );
    assert_eq!(r.unwrap_err(), U2fError::UnknownKeyHandle);
    assert_eq!(counter.current(), 0);
}

#[test]
fn cross_application_handle_is_unknown() {
    let mut store = MemoryKeyStore::new();
    let mut counter = MemoryCounter::new();
    let mut crypto = TransparentCrypto::new();
    let att = attestation();
    let reg = register(&mut store, &mut crypto, &att, &app(0x41), &vec![1u8]).unwrap();

    let r = authenticate(
        &store,
        &mut counter,
        &crypto,
        &app(0x42),
        &reg.key_handle,
        &vec![2u8],
        USER_PRESENCE,
    );
    assert_eq!(r.unwrap_err(), U2fError::UnknownKeyHandle);
    assert_eq!(counter.current(), 0);
}

#[test]
fn handles_are_unique_per_application() {
    let mut store = MemoryKeyStore::new();
    let mut crypto = TransparentCrypto::new();
    let att = attestation();
    let first = register(&mut store, &mut crypto, &att, &app(0x41), &vec![1u8]).unwrap();
    let second = register(&mut store, &mut crypto, &att, &app(0x41), &vec![1u8]).unwrap();
    assert_ne!(first.key_handle.as_bytes(), second.key_handle.as_bytes());
}

#[test]
fn failed_put_returns_no_handle_and_stores_nothing() {
    let mut store = MemoryKeyStore::new();
    let mut crypto = TransparentCrypto::new();
    let att = attestation();

    store.set_available(false);
    let r = register(&mut store, &mut crypto, &att, &app(0x41), &vec![1u8]);
    assert_eq!(r.unwrap_err(), U2fError::StorageUnavailable);

    store.set_available(true);
    // The handle the flow would have minted was seed 1; nothing is stored under it.
    let would_be = KeyHandle::from_bytes(vec![1u8; 32]);
    assert!(store.get(&app(0x41), &would_be).unwrap().is_none());
    assert_eq!(store.list(&app(0x41)).unwrap().len(), 0);
}

#[test]
fn counter_values_strictly_increase_across_restart() {
    let mut store = MemoryKeyStore::new();
    let mut counter = MemoryCounter::new();
    let mut crypto = TransparentCrypto::new();
    let att = attestation();
    let reg = register(&mut store, &mut crypto, &att, &app(0x41), &vec![1u8]).unwrap();

    let a = authenticate(
        &store,
        &mut counter,
        &crypto,
        &app(0x41),
        &reg.key_handle,
        &vec![2u8],
        USER_PRESENCE,
    )
    .unwrap();
    let b = authenticate(
        &store,
        &mut counter,
        &crypto,
        &app(0x41),
        &reg.key_handle,
        &vec![3u8],
        USER_PRESENCE,
    )
    .unwrap();
    assert!(a.counter < b.counter);

    // Re-open the persisted counter state, as after a process restart.
    let saved = counter.current();
    let mut counter = MemoryCounter::resume(saved);
    let c = authenticate(
        &store,
        &mut counter,
        &crypto,
        &app(0x41),
        &reg.key_handle,
        &vec![4u8],
        USER_PRESENCE,
    )
    .unwrap();
    assert!(b.counter < c.counter);
    assert_eq!((a.counter, b.counter, c.counter), (1, 2, 3));
}

#[test]
fn counter_failure_aborts_authentication() {
    let mut store = MemoryKeyStore::new();
    let mut counter = MemoryCounter::new();
    let mut crypto = TransparentCrypto::new();
    let att = attestation();
    let reg = register(&mut store, &mut crypto, &att, &app(0x41), &vec![1u8]).unwrap();

    counter.set_available(false);
    let r = authenticate(
        &store,
        &mut counter,
        &crypto,
        &app(0x41),
        &reg.key_handle,
        &vec![2u8],
        USER_PRESENCE,
    );
    assert_eq!(r.unwrap_err(), U2fError::CounterFailure);
    assert_eq!(counter.current(), 0);

    counter.set_available(true);
    let ok = authenticate(
        &store,
        &mut counter,
        &crypto,
        &app(0x41),
        &reg.key_handle,
        &vec![2u8],
        USER_PRESENCE,
    )
    .unwrap();
    assert_eq!(ok.counter, 1);
}

#[test]
fn counter_encoding_is_big_endian() {
    let mut store = MemoryKeyStore::new();
    let mut counter = MemoryCounter::resume(0x0102_0303);
    let mut crypto = TransparentCrypto::new();
    let att = attestation();
    let reg = register(&mut store, &mut crypto, &att, &app(0x41), &vec![1u8]).unwrap();

    let resp = authenticate(
        &store,
        &mut counter,
        &crypto,
        &app(0x41),
        &reg.key_handle,
        &vec![5u8],
        USER_PRESENCE,
    )
    .unwrap();
    assert_eq!(resp.counter, 0x0102_0304);
    // After the 32 key bytes, the app byte and the user-presence byte,
    // the next four signature bytes hold the payload's counter field.
    assert_eq!(&resp.signature[34..38], &[1u8, 2, 3, 4][..]);
}

#[test]
fn exhausted_handle_space_after_repeated_conflicts() {
    let mut store = MemoryKeyStore::new();
    let mut crypto = TransparentCrypto::new();
    let att = attestation();
    for _ in 0..8 {
        register(&mut store, &mut crypto, &att, &app(0x41), &vec![1u8]).unwrap();
    }
    assert_eq!(store.list(&app(0x41)).unwrap().len(), 8);

    // Replay the same eight handle seeds: every attempt now collides.
    crypto.next_handle = 1;
    let r = register(&mut store, &mut crypto, &att, &app(0x41), &vec![1u8]);
    assert_eq!(r.unwrap_err(), U2fError::ExhaustedHandleSpace);
    assert_eq!(store.list(&app(0x41)).unwrap().len(), 8);
}
