//! The typed errors the core surfaces to its caller. Every failure of a
//! flow is reported through one of these; none is swallowed.

use vstd::prelude::*;

verus! {

/// Why a command could not be served.
#[derive(Clone, Copy, Debug, PartialEq, Eq, Structural)]
pub enum U2fError {
    /// No credential matches the presented (application, handle) pair.
    /// The expected outcome for a foreign, stale, or probing handle;
    /// deliberately silent on whether the handle exists under some other
    /// application.
    UnknownKeyHandle,
    /// The key store cannot currently be read or durably written.
    StorageUnavailable,
    /// The signature counter could not be durably advanced, so no
    /// authentication signature was produced.
    CounterFailure,
    /// Attestation key material is not provisioned, so registration
    /// responses cannot be signed. Authentication is unaffected.
    SigningUnavailable,
    /// Every freshly generated handle collided with a stored one within
    /// the retry bound — practically unreachable with an entropic handle
    /// source, reported rather than looped on forever.
    ExhaustedHandleSpace,
}

} // verus!
