//! The opaque reference handed to the caller at registration time and
//! presented again at authentication time to name one credential. It is
//! attacker-visible and carries no secret: its only job is to let the core
//! locate the matching record under the presenting application's identifier.

use vstd::prelude::*;

use crate::bytes::{bytes_eq, copy_bytes};

verus! {

/// Opaque credential reference.
#[derive(Debug)]
pub struct KeyHandle {
    bytes: Vec<u8>,
}

impl View for KeyHandle {
    type V = Seq<u8>;

    closed spec fn view(&self) -> Seq<u8> {
        self.bytes@
    }
}

impl KeyHandle {
    /// Wraps handle bytes, trusted or attacker-chosen alike.
    pub fn from_bytes(bytes: Vec<u8>) -> (r: KeyHandle)
        ensures
            r@ == bytes@,
    {
        KeyHandle { bytes }
    }

    /// Exact equality, the only comparison the core ever makes on handles.
    pub fn equals(&self, other: &KeyHandle) -> (r: bool)
        ensures
            r == (self@ == other@),
    {
        bytes_eq(self.bytes.as_slice(), other.bytes.as_slice())
    }

    /// The handle bytes, for assembling signed payloads.
    pub fn as_bytes(&self) -> (r: &[u8])
        ensures
            r@ == self@,
    {
        self.bytes.as_slice()
    }
}

impl Clone for KeyHandle {
    fn clone(&self) -> (r: Self)
        ensures
            r@ == self@,
    {
        KeyHandle { bytes: copy_bytes(self.bytes.as_slice()) }
    }
}

} // verus!
