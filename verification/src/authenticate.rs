//! Authentication: locate the credential named by the presented
//! (application, handle) pair, durably advance the signature counter, and
//! sign the challenge with the credential's private key — never with the
//! attestation key.
//!
//! A missing record is `UnknownKeyHandle`, whether the handle was never
//! issued or belongs to another application: the two are indistinguishable
//! to the caller. The counter is advanced only after the record is found,
//! and a signature is produced only for a counter value whose persistence
//! succeeded. The store is never written by this flow.

use vstd::prelude::*;

use crate::app_id::AppId;
use crate::application_key::ApplicationKeyView;
use crate::bytes::{push_bytes, u32_be, u32_be_bytes};
use crate::counter::CounterSource;
use crate::crypto::Crypto;
use crate::error::U2fError;
use crate::key_handle::KeyHandle;
use crate::key_store::{find_record, KeyStore};

verus! {

/// The bytes the credential key signs for an authentication response: the
/// application identifier, the user-presence byte, the four big-endian
/// counter bytes, and the challenge, concatenated in this order.
pub open spec fn authenticate_payload(
    application: Seq<u8>,
    user_presence: u8,
    counter: u32,
    challenge: Seq<u8>,
) -> Seq<u8> {
    application + seq![user_presence] + u32_be(counter) + challenge
}

/// Builds the signed authentication payload.
pub fn build_authenticate_payload(
    application: &AppId,
    user_presence: u8,
    counter: u32,
    challenge: &[u8],
) -> (r: Vec<u8>)
    ensures
        r@ == authenticate_payload(application@, user_presence, counter, challenge@),
{
    let mut out: Vec<u8> = Vec::new();
    push_bytes(&mut out, application.as_bytes());
    out.push(user_presence);
    let counter_bytes = u32_be_bytes(counter);
    push_bytes(&mut out, counter_bytes.as_slice());
    push_bytes(&mut out, challenge);
    proof {
        assert(out@ =~= authenticate_payload(application@, user_presence, counter, challenge@));
    }
    out
}

/// A successful authentication response.
#[derive(Debug)]
pub struct AuthenticateResponse {
    /// The user-presence byte, passed through unverified.
    pub user_presence: u8,
    /// The counter value this signature carries: the freshly persisted
    /// one, strictly above every value returned before.
    pub counter: u32,
    /// Signature by the located credential's private key — never the
    /// attestation key — over `authenticate_payload`.
    pub signature: Vec<u8>,
}

/// What a successful authentication means, relating the (unchanged)
/// records and the counter before and after to the response:
/// - a record matches the presented pair exactly;
/// - the counter was durably advanced by one, and the returned value is
///   the advanced one — so values from successive successes strictly
///   increase;
/// - the signature is the located record's private key — not the
///   attestation key — over the authentication payload.
pub open spec fn authentication_ok<X: Crypto>(
    records: Seq<ApplicationKeyView>,
    counter_before: nat,
    counter_after: nat,
    application: Seq<u8>,
    handle: Seq<u8>,
    challenge: Seq<u8>,
    user_presence: u8,
    resp: AuthenticateResponse,
) -> bool {
    &&& find_record(records, application, handle) is Some
    &&& counter_after == counter_before + 1
    &&& resp.counter as nat == counter_after
    &&& resp.user_presence == user_presence
    &&& resp.signature@ == X::sign_of(
        find_record(records, application, handle)->Some_0.key,
        authenticate_payload(application, user_presence, resp.counter, challenge),
    )
}

/// The authentication flow.
pub fn authenticate<S: KeyStore, C: CounterSource, X: Crypto>(
    store: &S,
    counter: &mut C,
    crypto: &X,
    application: &AppId,
    handle: &KeyHandle,
    challenge: &[u8],
    user_presence: u8,
) -> (r: Result<AuthenticateResponse, U2fError>)
    ensures
        final(counter).available() == old(counter).available(),
        match r {
            Ok(resp) => store.available() && authentication_ok::<X>(
                store.records(),
                old(counter).value(),
                final(counter).value(),
                application@,
                handle@,
                challenge@,
                user_presence,
                resp,
            ),
            Err(U2fError::UnknownKeyHandle) => store.available() && find_record(
                store.records(),
                application@,
                handle@,
            ) is None && final(counter).value() == old(counter).value(),
            Err(U2fError::StorageUnavailable) => !store.available() && final(counter).value()
                == old(counter).value(),
            Err(U2fError::CounterFailure) => store.available() && find_record(
                store.records(),
                application@,
                handle@,
            ) is Some && final(counter).value() == old(counter).value() && (!old(
                counter,
            ).available() || old(counter).value() >= u32::MAX),
            Err(_) => false,
        },
{
    let record = match store.get(application, handle) {
        Err(_) => {
            return Err(U2fError::StorageUnavailable);
        },
        Ok(None) => {
            return Err(U2fError::UnknownKeyHandle);
        },
        Ok(Some(record)) => record,
    };
    let counter_value = match counter.next() {
        Err(_) => {
            return Err(U2fError::CounterFailure);
        },
        Ok(n) => n,
    };
    let payload = build_authenticate_payload(application, user_presence, counter_value, challenge);
    let signature = crypto.sign(record.key(), payload.as_slice());
    Ok(AuthenticateResponse { user_presence, counter: counter_value, signature })
}

} // verus!
