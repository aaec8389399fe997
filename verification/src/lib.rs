//! Core logic of a software U2F authenticator.
//!
//! Registration mints a credential bound to one application, persists it
//! fail-closed, and signs the response with the device-wide attestation
//! key; authentication locates a credential by the presented
//! (application, handle) pair, durably advances the signature counter,
//! and signs the challenge with the credential's own key. The contracts
//! pin down the properties the protocol depends on: handles are unique
//! per application, lookups never cross application boundaries, counter
//! values strictly increase across successful authentications (restarts
//! included), a failed registration leaves no trace, and each of the two
//! signatures is made by its own key over an exactly stated payload.

pub mod app_id;
pub mod application_key;
pub mod authenticate;
pub mod authenticator;
pub mod bytes;
pub mod counter;
pub mod crypto;
pub mod error;
pub mod key_handle;
pub mod key_store;
pub mod memory_store;
pub mod register;
