//! Registration: mint a fresh keypair and handle, persist the credential
//! record, and return the public key, the handle, the attestation
//! certificate, and an attestation signature over the response.
//!
//! Fail-closed: a handle is returned only when the record holding its
//! private key was durably stored, and a failed registration leaves the
//! store exactly as it was — no orphaned record, no leaked handle.

use vstd::prelude::*;

use crate::app_id::AppId;
use crate::application_key::{ApplicationKey, ApplicationKeyView};
use crate::bytes::{copy_bytes, push_bytes};
use crate::crypto::{Attestation, Crypto, PublicKey};
use crate::error::U2fError;
use crate::key_handle::KeyHandle;
use crate::key_store::{find_record, KeyStore, StoreError};

verus! {

/// How many fresh handles are tried when the store keeps reporting a
/// collision, before registration gives up. With an entropic handle
/// source even a second attempt is practically unreachable.
pub const MAX_HANDLE_ATTEMPTS: usize = 8;

/// The fixed byte opening every signed registration payload.
pub const REGISTRATION_SIGN_PREFIX: u8 = 0x00;

/// The bytes the attestation key signs for a registration response: the
/// fixed prefix byte, the application identifier, the challenge, the
/// handle, and the public key, concatenated in this order.
pub open spec fn register_payload(
    application: Seq<u8>,
    challenge: Seq<u8>,
    handle: Seq<u8>,
    public_key: Seq<u8>,
) -> Seq<u8> {
    seq![REGISTRATION_SIGN_PREFIX] + application + challenge + handle + public_key
}

/// Builds the signed registration payload.
pub fn build_register_payload(
    application: &AppId,
    challenge: &[u8],
    handle: &KeyHandle,
    public_key: &PublicKey,
) -> (r: Vec<u8>)
    ensures
        r@ == register_payload(application@, challenge@, handle@, public_key@),
{
    let mut out: Vec<u8> = Vec::new();
    out.push(REGISTRATION_SIGN_PREFIX);
    push_bytes(&mut out, application.as_bytes());
    push_bytes(&mut out, challenge);
    push_bytes(&mut out, handle.as_bytes());
    push_bytes(&mut out, public_key.as_bytes());
    proof {
        assert(out@ =~= register_payload(application@, challenge@, handle@, public_key@));
    }
    out
}

/// A successful registration response.
#[derive(Debug)]
pub struct RegisterResponse {
    /// Public half of the freshly generated credential keypair.
    pub public_key: PublicKey,
    /// The handle under which the credential was durably stored.
    pub key_handle: KeyHandle,
    /// The attestation certificate, verbatim.
    pub attestation_certificate: Vec<u8>,
    /// Signature by the attestation key — never the credential key —
    /// over `register_payload`.
    pub signature: Vec<u8>,
}

/// What a successful registration means, relating the store before and
/// after to the response:
/// - the returned handle matched no record already stored for this
///   application (uniqueness);
/// - exactly one record was appended, holding this application, the
///   returned handle, and a private key that reaches the response only
///   through its derived public half, the returned public key;
/// - the certificate is the attestation certificate, and the signature is
///   the attestation key's — not the credential key's — over the
///   registration payload.
pub open spec fn registration_ok<X: Crypto>(
    records_before: Seq<ApplicationKeyView>,
    records_after: Seq<ApplicationKeyView>,
    attestation_key: Seq<u8>,
    attestation_certificate: Seq<u8>,
    application: Seq<u8>,
    challenge: Seq<u8>,
    resp: RegisterResponse,
) -> bool {
    &&& find_record(records_before, application, resp.key_handle@) is None
    &&& (exists|private_key: Seq<u8>|
        resp.public_key@ == X::public_of(private_key) && records_after == records_before.push(
            ApplicationKeyView { application, handle: resp.key_handle@, key: private_key },
        ))
    &&& resp.attestation_certificate@ == attestation_certificate
    &&& resp.signature@ == X::sign_of(
        attestation_key,
        register_payload(application, challenge, resp.key_handle@, resp.public_key@),
    )
}

/// Evidence behind an `ExhaustedHandleSpace` report: every handle the
/// flow tried names a record already stored for the application, so the
/// flow did not give up without minting and offering handles.
pub open spec fn all_attempts_collided(
    records: Seq<ApplicationKeyView>,
    application: Seq<u8>,
    tried: Seq<Seq<u8>>,
) -> bool {
    forall|k: int|
        #![trigger tried[k]]
        0 <= k < tried.len() ==> find_record(records, application, tried[k]) is Some
}

/// The registration flow.
pub fn register<S: KeyStore, X: Crypto>(
    store: &mut S,
    crypto: &mut X,
    attestation: &Attestation,
    application: &AppId,
    challenge: &[u8],
) -> (r: Result<RegisterResponse, U2fError>)
    ensures
        final(store).available() == old(store).available(),
        match r {
            Ok(resp) => old(store).available() && registration_ok::<X>(
                old(store).records(),
                final(store).records(),
                attestation.key@,
                attestation.certificate@,
                application@,
                challenge@,
                resp,
            ),
            Err(U2fError::StorageUnavailable) => !old(store).available() && final(store).records()
                == old(store).records(),
            Err(U2fError::ExhaustedHandleSpace) => old(store).available() && final(store).records()
                == old(store).records() && (exists|tried: Seq<Seq<u8>>|
                tried.len() == MAX_HANDLE_ATTEMPTS && all_attempts_collided(
                    old(store).records(),
                    application@,
                    tried,
                )),
            Err(_) => false,
        },
{
    let ghost records0 = store.records();
    let ghost avail0 = store.available();
    let (private_key, public_key) = crypto.generate_keypair();
    let ghost sk = private_key@;
    let ghost mut tried: Seq<Seq<u8>> = Seq::empty();
    let mut attempts: usize = 0;
    #[verifier::loop_isolation(false)]
    while attempts < MAX_HANDLE_ATTEMPTS
        invariant
            store.records() == records0,
            store.available() == avail0,
            attempts > 0 ==> avail0,
            attempts <= MAX_HANDLE_ATTEMPTS,
            tried.len() == attempts,
            all_attempts_collided(records0, application@, tried),
            private_key@ == sk,
            public_key@ == X::public_of(sk),
        decreases MAX_HANDLE_ATTEMPTS - attempts,
    {
        let handle = crypto.fresh_handle();
        let record = ApplicationKey::new(application.clone(), handle.clone(), private_key.clone());
        match store.put(record) {
            Ok(()) => {
                let payload = build_register_payload(application, challenge, &handle, &public_key);
                let signature = crypto.sign(&attestation.key, payload.as_slice());
                let attestation_certificate = copy_bytes(attestation.certificate.as_slice());
                let resp = RegisterResponse {
                    public_key,
                    key_handle: handle,
                    attestation_certificate,
                    signature,
                };
                proof {
                    assert(resp.public_key@ == X::public_of(sk) && store.records()
                        == records0.push(
                        ApplicationKeyView {
                            application: application@,
                            handle: resp.key_handle@,
                            key: sk,
                        },
                    ));
                }
                return Ok(resp);
            },
            Err(StoreError::Conflict) => {
                proof {
                    tried = tried.push(handle@);
                }
                attempts += 1;
            },
            Err(StoreError::Unavailable) => {
                return Err(U2fError::StorageUnavailable);
            },
        }
    }
    proof {
        assert(tried.len() == MAX_HANDLE_ATTEMPTS && all_attempts_collided(
            records0,
            application@,
            tried,
        ));
    }
    Err(U2fError::ExhaustedHandleSpace)
}

} // verus!
