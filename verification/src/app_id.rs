//! The identifier binding a credential to one relying application: an
//! opaque byte string (conventionally a hash of the application's origin),
//! supplied by the caller on every operation, compared only for exact
//! equality and never derived or mutated by the core.

use vstd::prelude::*;

use crate::bytes::{bytes_eq, copy_bytes};

verus! {

/// Opaque application identifier.
pub struct AppId {
    bytes: Vec<u8>,
}

impl View for AppId {
    type V = Seq<u8>;

    closed spec fn view(&self) -> Seq<u8> {
        self.bytes@
    }
}

impl AppId {
    /// Wraps the caller-supplied identifier bytes.
    pub fn from_bytes(bytes: Vec<u8>) -> (r: AppId)
        ensures
            r@ == bytes@,
    {
        AppId { bytes }
    }

    /// Exact equality, the only comparison the core ever makes on identifiers.
    pub fn equals(&self, other: &AppId) -> (r: bool)
        ensures
            r == (self@ == other@),
    {
        bytes_eq(self.bytes.as_slice(), other.bytes.as_slice())
    }

    /// The identifier bytes, for assembling signed payloads.
    pub fn as_bytes(&self) -> (r: &[u8])
        ensures
            r@ == self@,
    {
        self.bytes.as_slice()
    }
}

impl Clone for AppId {
    fn clone(&self) -> (r: Self)
        ensures
            r@ == self@,
    {
        AppId { bytes: copy_bytes(self.bytes.as_slice()) }
    }
}

} // verus!
