//! The facade the transport layer calls: one entry point taking a parsed
//! command and dispatching to the registration and authentication flows,
//! plus the static version query. It performs no cryptography itself and
//! holds no state beyond its collaborators.

use vstd::prelude::*;

use crate::app_id::AppId;
use crate::authenticate::{authenticate, authentication_ok, AuthenticateResponse};
use crate::counter::CounterSource;
use crate::crypto::{Attestation, Crypto};
use crate::error::U2fError;
use crate::key_handle::KeyHandle;
use crate::key_store::{find_record, KeyStore};
use crate::register::{
    all_attempts_collided, register, registration_ok, RegisterResponse, MAX_HANDLE_ATTEMPTS,
};

verus! {

/// A parsed command, delivered whole by the transport layer.
pub enum Command {
    /// Register a new credential for `application`.
    Register { application: AppId, challenge: Vec<u8> },
    /// Authenticate with the credential named by (application, handle).
    Authenticate { application: AppId, key_handle: KeyHandle, challenge: Vec<u8> },
    /// Query the protocol version.
    Version,
}

/// The response to a served command; the transport layer serializes it.
#[derive(Debug)]
pub enum Response {
    /// Registration succeeded.
    Registration(RegisterResponse),
    /// Authentication succeeded.
    Authentication(AuthenticateResponse),
    /// The static version string.
    Version(Vec<u8>),
}

/// The protocol version string, "U2F_V2".
pub open spec fn version_bytes() -> Seq<u8> {
    seq![0x55u8, 0x32, 0x46, 0x5f, 0x56, 0x32]
}

/// The version query's static answer.
pub fn version() -> (r: Vec<u8>)
    ensures
        r@ == version_bytes(),
{
    let mut out: Vec<u8> = Vec::new();
    out.push(0x55);
    out.push(0x32);
    out.push(0x46);
    out.push(0x5f);
    out.push(0x56);
    out.push(0x32);
    proof {
        assert(out@ =~= version_bytes());
    }
    out
}

/// The authenticator: the key store, the counter source, the signature
/// scheme, and — when provisioning succeeded — the attestation identity.
/// With no attestation identity it refuses every registration with
/// `SigningUnavailable` and serves authentication untouched, which never
/// uses the attestation key.
pub struct Authenticator<S: KeyStore, C: CounterSource, X: Crypto> {
    /// The persistence collaborator for credential records.
    pub store: S,
    /// The persistence collaborator for the signature counter.
    pub counter: C,
    /// The signature scheme.
    pub crypto: X,
    /// The attestation identity, if its key material was provisioned.
    pub attestation: Option<Attestation>,
}

impl<S: KeyStore, C: CounterSource, X: Crypto> Authenticator<S, C, X> {
    /// Wires the collaborators together.
    pub fn new(store: S, counter: C, crypto: X, attestation: Option<Attestation>) -> (r: Self)
        ensures
            r.store == store,
            r.counter == counter,
            r.crypto == crypto,
            r.attestation == attestation,
    {
        Authenticator { store, counter, crypto, attestation }
    }

    /// Serves one command. The contract mirrors, per command, the flow it
    /// dispatches to; a version query touches nothing, and authentication
    /// never writes the store.
    pub fn process(&mut self, command: Command, user_presence: u8) -> (r: Result<
        Response,
        U2fError,
    >)
        ensures
            final(self).store.available() == old(self).store.available(),
            final(self).counter.available() == old(self).counter.available(),
            final(self).attestation == old(self).attestation,
            match command {
                Command::Version => {
                    &&& (r matches Ok(resp) ==> resp matches Response::Version(v) && v@
                        == version_bytes())
                    &&& r is Ok
                    &&& final(self).store.records() == old(self).store.records()
                    &&& final(self).counter.value() == old(self).counter.value()
                },
                Command::Register { application, challenge } => {
                    &&& final(self).counter.value() == old(self).counter.value()
                    &&& (match old(self).attestation {
                        None => r == Err::<Response, U2fError>(U2fError::SigningUnavailable)
                            && final(self).store.records() == old(self).store.records(),
                        Some(att) => {
                            &&& (r matches Ok(resp) ==> resp matches Response::Registration(reg)
                                && old(self).store.available() && registration_ok::<X>(
                                old(self).store.records(),
                                final(self).store.records(),
                                att.key@,
                                att.certificate@,
                                application@,
                                challenge@,
                                reg,
                            ))
                            &&& (r matches Err(e) ==> final(self).store.records() == old(
                                self,
                            ).store.records() && ((e == U2fError::StorageUnavailable && !old(
                                self,
                            ).store.available()) || (e == U2fError::ExhaustedHandleSpace && old(
                                self,
                            ).store.available() && (exists|tried: Seq<Seq<u8>>|
                                tried.len() == MAX_HANDLE_ATTEMPTS && all_attempts_collided(
                                    old(self).store.records(),
                                    application@,
                                    tried,
                                )))))
                        },
                    })
                },
                Command::Authenticate { application, key_handle, challenge } => {
                    &&& final(self).store.records() == old(self).store.records()
                    &&& (r matches Ok(resp) ==> resp matches Response::Authentication(auth)
                        && old(self).store.available() && authentication_ok::<X>(
                        old(self).store.records(),
                        old(self).counter.value(),
                        final(self).counter.value(),
                        application@,
                        key_handle@,
                        challenge@,
                        user_presence,
                        auth,
                    ))
                    &&& (r matches Err(e) ==> final(self).counter.value() == old(
                        self,
                    ).counter.value() && (match e {
                        U2fError::UnknownKeyHandle => old(self).store.available() && find_record(
                            old(self).store.records(),
                            application@,
                            key_handle@,
                        ) is None,
                        U2fError::StorageUnavailable => !old(self).store.available(),
                        U2fError::CounterFailure => old(self).store.available() && find_record(
                            old(self).store.records(),
                            application@,
                            key_handle@,
                        ) is Some && (!old(self).counter.available() || old(self).counter.value()
                            >= u32::MAX),
                        _ => false,
                    }))
                },
            },
    {
        match command {
            Command::Version => Ok(Response::Version(version())),
            Command::Register { application, challenge } => {
                let attestation = match &self.attestation {
                    None => {
                        return Err(U2fError::SigningUnavailable);
                    },
                    Some(attestation) => attestation,
                };
                match register(
                    &mut self.store,
                    &mut self.crypto,
                    attestation,
                    &application,
                    challenge.as_slice(),
                ) {
                    Ok(resp) => Ok(Response::Registration(resp)),
                    Err(e) => Err(e),
                }
            },
            Command::Authenticate { application, key_handle, challenge } => {
                match authenticate(
                    &self.store,
                    &mut self.counter,
                    &self.crypto,
                    &application,
                    &key_handle,
                    challenge.as_slice(),
                    user_presence,
                ) {
                    Ok(resp) => Ok(Response::Authentication(resp)),
                    Err(e) => Err(e),
                }
            },
        }
    }
}

} // verus!
