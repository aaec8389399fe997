//! An in-memory key store: the reference implementation of `KeyStore`,
//! with a switch that models the backing medium becoming unreachable so
//! that callers can exercise every resource-failure path.

use vstd::prelude::*;

use crate::app_id::AppId;
use crate::application_key::{ApplicationKey, ApplicationKeyView};
use crate::key_handle::KeyHandle;
use crate::key_store::{
    find_record, lemma_find_record_at, lemma_find_record_none_iff, lemma_remove_first_record_at,
    records_for, KeyStore, StoreError,
};

verus! {

/// Credential records held in memory, in insertion order.
pub struct MemoryKeyStore {
    entries: Vec<ApplicationKey>,
    reachable: bool,
}

impl MemoryKeyStore {
    /// An empty, reachable store.
    pub fn new() -> (r: MemoryKeyStore)
        ensures
            r.records() == Seq::<ApplicationKeyView>::empty(),
            r.available(),
    {
        let r = MemoryKeyStore { entries: Vec::new(), reachable: true };
        proof {
            assert(r.records() =~= Seq::<ApplicationKeyView>::empty());
        }
        r
    }

    /// Makes the backing medium reachable or unreachable, leaving the
    /// stored records as they are. Every operation fails with
    /// `Unavailable` while the store is unreachable.
    pub fn set_available(&mut self, available: bool)
        ensures
            final(self).records() == old(self).records(),
            final(self).available() == available,
    {
        self.reachable = available;
    }

    /// Index of the first record matching both fields, if any.
    fn find_index(&self, application: &AppId, handle: &KeyHandle) -> (r: Option<usize>)
        ensures
            match r {
                Some(i) => i < self.records().len() && self.records()[i as int].application
                    == application@ && self.records()[i as int].handle == handle@ && find_record(
                    self.records(),
                    application@,
                    handle@,
                ) == Some(self.records()[i as int]) && (forall|j: int|
                    #![trigger self.records()[j]]
                    0 <= j < i ==> !(self.records()[j].application == application@
                        && self.records()[j].handle == handle@)),
                None => find_record(self.records(), application@, handle@) is None,
            },
    {
        let n = self.entries.len();
        let mut i: usize = 0;
        while i < n
            invariant
                n == self.entries@.len(),
                0 <= i <= n,
                self.records().len() == n,
                forall|j: int|
                    #![trigger self.records()[j]]
                    0 <= j < i ==> !(self.records()[j].application == application@
                        && self.records()[j].handle == handle@),
            decreases n - i,
        {
            let entry = &self.entries[i];
            if entry.application().equals(application) && entry.handle().equals(handle) {
                proof {
                    lemma_find_record_at(self.records(), application@, handle@, i as int);
                }
                return Some(i);
            }
            i += 1;
        }
        proof {
            lemma_find_record_none_iff(self.records(), application@, handle@);
        }
        None
    }
}

impl KeyStore for MemoryKeyStore {
    closed spec fn records(&self) -> Seq<ApplicationKeyView> {
        self.entries@.map_values(|k: ApplicationKey| k@)
    }

    closed spec fn available(&self) -> bool {
        self.reachable
    }

    fn put(&mut self, record: ApplicationKey) -> (r: Result<(), StoreError>) {
        if !self.reachable {
            return Err(StoreError::Unavailable);
        }
        match self.find_index(record.application(), record.handle()) {
            Some(_) => Err(StoreError::Conflict),
            None => {
                let ghost before = self.records();
                let ghost pushed = record@;
                self.entries.push(record);
                proof {
                    assert(self.records() =~= before.push(pushed));
                }
                Ok(())
            },
        }
    }

    fn get(&self, application: &AppId, handle: &KeyHandle) -> (r: Result<
        Option<&ApplicationKey>,
        StoreError,
    >) {
        if !self.reachable {
            return Err(StoreError::Unavailable);
        }
        match self.find_index(application, handle) {
            Some(i) => Ok(Some(&self.entries[i])),
            None => Ok(None),
        }
    }

    fn list(&self, application: &AppId) -> (r: Result<Vec<ApplicationKey>, StoreError>) {
        if !self.reachable {
            return Err(StoreError::Unavailable);
        }
        let mut out: Vec<ApplicationKey> = Vec::new();
        let n = self.entries.len();
        let mut i: usize = 0;
        while i < n
            invariant
                n == self.entries@.len(),
                0 <= i <= n,
                self.records().len() == n,
                out@.map_values(|k: ApplicationKey| k@) == records_for(
                    self.records().take(i as int),
                    application@,
                ),
            decreases n - i,
        {
            let ghost taken = self.records().take(i as int + 1);
            proof {
                assert(taken.drop_last() =~= self.records().take(i as int));
                assert(taken.last() == self.records()[i as int]);
            }
            let entry = &self.entries[i];
            if entry.application().equals(application) {
                let ghost out_before = out@.map_values(|k: ApplicationKey| k@);
                out.push(entry.clone());
                proof {
                    assert(out@.map_values(|k: ApplicationKey| k@) =~= out_before.push(
                        self.records()[i as int],
                    ));
                }
            }
            i += 1;
        }
        proof {
            assert(self.records().take(n as int) =~= self.records());
        }
        Ok(out)
    }

    fn delete(&mut self, application: &AppId, handle: &KeyHandle) -> (r: Result<
        bool,
        StoreError,
    >) {
        if !self.reachable {
            return Err(StoreError::Unavailable);
        }
        match self.find_index(application, handle) {
            None => Ok(false),
            Some(i) => {
                let ghost before = self.records();
                proof {
                    lemma_remove_first_record_at(before, application@, handle@, i as int);
                }
                self.entries.remove(i);
                proof {
                    assert(self.records() =~= before.remove(i as int));
                }
                Ok(true)
            },
        }
    }
}

} // verus!
