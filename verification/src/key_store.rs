//! Durable storage of credential records, as the flows consume it: an
//! exact-match lookup keyed by the pair (application, handle), a
//! conflict-refusing insert, enumeration, and deletion.
//!
//! `find_record` is the mathematical lookup every contract here speaks of.
//! A record is found only when *both* fields match exactly; a handle that
//! exists under a different application is "not found", never "found but
//! wrong application", so a probing caller learns nothing about other
//! applications' credentials.

use vstd::prelude::*;

use crate::app_id::AppId;
use crate::application_key::{ApplicationKey, ApplicationKeyView};
use crate::key_handle::KeyHandle;

verus! {

/// Why a store operation failed.
#[derive(Clone, Copy, Debug, PartialEq, Eq, Structural)]
pub enum StoreError {
    /// A record with the same (application, handle) pair already exists.
    Conflict,
    /// The backing storage cannot currently be read or durably written.
    Unavailable,
}

/// The first record in `s` whose application and handle both equal the
/// ones given, if any.
pub open spec fn find_record(
    s: Seq<ApplicationKeyView>,
    application: Seq<u8>,
    handle: Seq<u8>,
) -> Option<ApplicationKeyView>
    decreases s.len(),
{
    if s.len() == 0 {
        None
    } else if s[0].application == application && s[0].handle == handle {
        Some(s[0])
    } else {
        find_record(s.drop_first(), application, handle)
    }
}

/// The records of `s` in order, with the first (application, handle) match
/// removed; `s` unchanged when there is none.
pub open spec fn remove_first_record(
    s: Seq<ApplicationKeyView>,
    application: Seq<u8>,
    handle: Seq<u8>,
) -> Seq<ApplicationKeyView>
    decreases s.len(),
{
    if s.len() == 0 {
        s
    } else if s[0].application == application && s[0].handle == handle {
        s.drop_first()
    } else {
        seq![s[0]] + remove_first_record(s.drop_first(), application, handle)
    }
}

/// The records of `s` belonging to `application`, in store order.
pub open spec fn records_for(
    s: Seq<ApplicationKeyView>,
    application: Seq<u8>,
) -> Seq<ApplicationKeyView>
    decreases s.len(),
{
    if s.len() == 0 {
        Seq::empty()
    } else if s.last().application == application {
        records_for(s.drop_last(), application).push(s.last())
    } else {
        records_for(s.drop_last(), application)
    }
}

/// A lookup misses exactly when no stored record matches on both fields.
/// Read together with the contract of registration this is the uniqueness
/// guarantee: a handle under which registration succeeded was, at that
/// moment, equal to no handle already stored for the same application.
pub proof fn lemma_find_record_none_iff(
    s: Seq<ApplicationKeyView>,
    application: Seq<u8>,
    handle: Seq<u8>,
)
    ensures
        (find_record(s, application, handle) is None) <==> (forall|i: int|
            #![trigger s[i]]
            0 <= i < s.len() ==> !(s[i].application == application && s[i].handle == handle)),
    decreases s.len(),
{
    if s.len() > 0 {
        lemma_find_record_none_iff(s.drop_first(), application, handle);
        assert(forall|i: int|
            #![trigger s[i]]
            1 <= i < s.len() ==> s[i] == s.drop_first()[i - 1]);
    }
}

/// A lookup yields the first match: when position `i` matches on both
/// fields and no earlier position does, the lookup yields `s[i]`.
pub proof fn lemma_find_record_at(
    s: Seq<ApplicationKeyView>,
    application: Seq<u8>,
    handle: Seq<u8>,
    i: int,
)
    requires
        0 <= i < s.len(),
        s[i].application == application && s[i].handle == handle,
        forall|j: int|
            #![trigger s[j]]
            0 <= j < i ==> !(s[j].application == application && s[j].handle == handle),
    ensures
        find_record(s, application, handle) == Some(s[i]),
    decreases i,
{
    if i > 0 {
        assert(!(s[0].application == application && s[0].handle == handle));
        assert(forall|j: int|
            #![trigger s.drop_first()[j]]
            0 <= j < s.drop_first().len() ==> s.drop_first()[j] == s[j + 1]);
        lemma_find_record_at(s.drop_first(), application, handle, i - 1);
    }
}

/// Removing the first match does remove exactly the record at the first
/// matching position.
pub proof fn lemma_remove_first_record_at(
    s: Seq<ApplicationKeyView>,
    application: Seq<u8>,
    handle: Seq<u8>,
    i: int,
)
    requires
        0 <= i < s.len(),
        s[i].application == application && s[i].handle == handle,
        forall|j: int|
            #![trigger s[j]]
            0 <= j < i ==> !(s[j].application == application && s[j].handle == handle),
    ensures
        remove_first_record(s, application, handle) == s.remove(i),
    decreases i,
{
    if i == 0 {
        assert(s.drop_first() =~= s.remove(0));
    } else {
        assert(!(s[0].application == application && s[0].handle == handle));
        assert(forall|j: int|
            #![trigger s.drop_first()[j]]
            0 <= j < s.drop_first().len() ==> s.drop_first()[j] == s[j + 1]);
        lemma_remove_first_record_at(s.drop_first(), application, handle, i - 1);
        assert(seq![s[0]] + s.drop_first().remove(i - 1) =~= s.remove(i));
    }
}

/// A found record matches the fields it was looked up by.
pub proof fn lemma_find_record_matches(
    s: Seq<ApplicationKeyView>,
    application: Seq<u8>,
    handle: Seq<u8>,
)
    ensures
        find_record(s, application, handle) matches Some(r) ==> r.application == application
            && r.handle == handle,
    decreases s.len(),
{
    if s.len() > 0 {
        lemma_find_record_matches(s.drop_first(), application, handle);
    }
}

/// Cross-application isolation: when a handle is stored only under
/// application `a`, a lookup of that handle under any other application
/// `b` misses — even though the handle itself is valid under `a`.
pub proof fn lemma_cross_application_isolation(
    s: Seq<ApplicationKeyView>,
    app_a: Seq<u8>,
    app_b: Seq<u8>,
    handle: Seq<u8>,
)
    requires
        app_a != app_b,
        forall|i: int|
            #![trigger s[i]]
            0 <= i < s.len() && s[i].handle == handle ==> s[i].application == app_a,
    ensures
        find_record(s, app_b, handle) is None,
{
    lemma_find_record_none_iff(s, app_b, handle);
}

/// No two records share an (application, handle) pair.
pub open spec fn distinct_keys(s: Seq<ApplicationKeyView>) -> bool {
    forall|i: int, j: int|
        #![trigger s[i], s[j]]
        0 <= i < j < s.len() ==> !(s[i].application == s[j].application && s[i].handle
            == s[j].handle)
}

/// Inserting a record whose (application, handle) pair misses in the store
/// keeps the pairs pairwise distinct: the conflict check of `put` is what
/// maintains the store's uniqueness invariant.
pub proof fn lemma_put_preserves_distinct_keys(s: Seq<ApplicationKeyView>, r: ApplicationKeyView)
    requires
        distinct_keys(s),
        find_record(s, r.application, r.handle) is None,
    ensures
        distinct_keys(s.push(r)),
{
    lemma_find_record_none_iff(s, r.application, r.handle);
    assert forall|i: int, j: int|
        #![trigger s.push(r)[i], s.push(r)[j]]
        0 <= i < j < s.push(r).len() implies !(s.push(r)[i].application == s.push(r)[
        j].application && s.push(r)[i].handle == s.push(r)[j].handle) by {
        if j < s.len() {
            assert(s.push(r)[i] == s[i] && s.push(r)[j] == s[j]);
        } else {
            assert(s.push(r)[i] == s[i] && s.push(r)[j] == r);
        }
    }
}

/// The persistence collaborator the flows consume. Implementations decide
/// where records live; the contract pins down what each operation means
/// over the abstract record sequence, that a failed operation leaves the
/// stored records exactly as they were, and that no operation changes
/// whether the backing storage is reachable.
pub trait KeyStore: Sized {
    /// The stored records, in insertion order.
    spec fn records(&self) -> Seq<ApplicationKeyView>;

    /// Whether the backing storage can currently serve requests.
    spec fn available(&self) -> bool;

    /// Persists a new record; refuses a duplicate (application, handle)
    /// pair with `Conflict`. All-or-nothing: on any error the stored
    /// records are unchanged.
    fn put(&mut self, record: ApplicationKey) -> (r: Result<(), StoreError>)
        ensures
            final(self).available() == old(self).available(),
            match r {
                Ok(()) => old(self).available() && find_record(
                    old(self).records(),
                    record@.application,
                    record@.handle,
                ) is None && final(self).records() == old(self).records().push(record@),
                Err(StoreError::Conflict) => old(self).available() && find_record(
                    old(self).records(),
                    record@.application,
                    record@.handle,
                ) is Some && final(self).records() == old(self).records(),
                Err(StoreError::Unavailable) => !old(self).available() && final(self).records()
                    == old(self).records(),
            },
    ;

    /// Looks a record up by exact match on both fields; never yields a
    /// record of a different application, whatever the handle.
    fn get(&self, application: &AppId, handle: &KeyHandle) -> (r: Result<
        Option<&ApplicationKey>,
        StoreError,
    >)
        ensures
            match r {
                Ok(found) => self.available() && (match found {
                    Some(record) => find_record(self.records(), application@, handle@) == Some(
                        record@,
                    ),
                    None => find_record(self.records(), application@, handle@) is None,
                }),
                Err(e) => e == StoreError::Unavailable && !self.available(),
            },
    ;

    /// Enumerates the records of one application, in store order.
    fn list(&self, application: &AppId) -> (r: Result<Vec<ApplicationKey>, StoreError>)
        ensures
            match r {
                Ok(records) => self.available() && records@.map_values(|k: ApplicationKey| k@)
                    == records_for(self.records(), application@),
                Err(e) => e == StoreError::Unavailable && !self.available(),
            },
    ;

    /// Removes the record named by (application, handle), reporting
    /// whether one existed.
    fn delete(&mut self, application: &AppId, handle: &KeyHandle) -> (r: Result<bool, StoreError>)
        ensures
            final(self).available() == old(self).available(),
            match r {
                Ok(existed) => old(self).available() && (if existed {
                    find_record(old(self).records(), application@, handle@) is Some
                        && final(self).records() == remove_first_record(
                        old(self).records(),
                        application@,
                        handle@,
                    )
                } else {
                    find_record(old(self).records(), application@, handle@) is None
                        && final(self).records() == old(self).records()
                }),
                Err(e) => e == StoreError::Unavailable && !old(self).available()
                    && final(self).records() == old(self).records(),
            },
    ;
}

} // verus!
