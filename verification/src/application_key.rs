//! The persisted credential record: one per successful registration,
//! binding a private key to the application it was created for and to the
//! handle that names it. Created exactly once, read-only thereafter; the
//! private key never leaves the record except to sign.

use vstd::prelude::*;

use crate::app_id::AppId;
use crate::crypto::PrivateKey;
use crate::key_handle::KeyHandle;

verus! {

/// Mathematical shape of a stored credential record.
pub ghost struct ApplicationKeyView {
    /// Identifier of the application the credential belongs to.
    pub application: Seq<u8>,
    /// The handle that names the credential.
    pub handle: Seq<u8>,
    /// The private key bytes.
    pub key: Seq<u8>,
}

/// A persisted credential record. A record is located exclusively by the
/// pair (application, handle): a lookup under another application must
/// behave as "not found", whatever the handle.
pub struct ApplicationKey {
    application: AppId,
    handle: KeyHandle,
    key: PrivateKey,
}

impl View for ApplicationKey {
    type V = ApplicationKeyView;

    closed spec fn view(&self) -> ApplicationKeyView {
        ApplicationKeyView {
            application: self.application@,
            handle: self.handle@,
            key: self.key@,
        }
    }
}

impl ApplicationKey {
    /// Binds a freshly generated private key to its application and handle.
    pub fn new(application: AppId, handle: KeyHandle, key: PrivateKey) -> (r: ApplicationKey)
        ensures
            r@ == (ApplicationKeyView {
                application: application@,
                handle: handle@,
                key: key@,
            }),
    {
        ApplicationKey { application, handle, key }
    }

    /// The application this credential was registered for.
    pub fn application(&self) -> (r: &AppId)
        ensures
            r@ == self@.application,
    {
        &self.application
    }

    /// The handle that names this credential.
    pub fn handle(&self) -> (r: &KeyHandle)
        ensures
            r@ == self@.handle,
    {
        &self.handle
    }

    /// The private key, exposed only inside the core for signing.
    pub(crate) fn key(&self) -> (r: &PrivateKey)
        ensures
            r@ == self@.key,
    {
        &self.key
    }
}

impl Clone for ApplicationKey {
    fn clone(&self) -> (r: Self)
        ensures
            r@ == self@,
    {
        ApplicationKey {
            application: self.application.clone(),
            handle: self.handle.clone(),
            key: self.key.clone(),
        }
    }
}

} // verus!
