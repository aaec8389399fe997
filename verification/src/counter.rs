//! The signature counter: one non-negative integer for the whole
//! authenticator, strictly increased and durably persisted by every
//! successful authentication. Relying parties use it to detect cloned
//! authenticators, so a value must never be handed out unless its
//! persistence succeeded, and never twice.

use vstd::prelude::*;

verus! {

/// Why the counter could not be advanced.
#[derive(Clone, Copy, Debug, PartialEq, Eq, Structural)]
pub enum CounterError {
    /// The durable backing of the counter cannot currently be written.
    Unavailable,
    /// The counter has reached its largest representable value.
    Exhausted,
}

/// The persistence collaborator for the signature counter. `next` is
/// atomic: it yields a value exactly when that value — one past the last
/// persisted one — was durably recorded, so no value can ever be returned
/// twice, and a failed call leaves the persisted value untouched.
pub trait CounterSource: Sized {
    /// The durably persisted counter value.
    spec fn value(&self) -> nat;

    /// Whether the durable backing can currently be written.
    spec fn available(&self) -> bool;

    /// Persists and returns the next counter value.
    fn next(&mut self) -> (r: Result<u32, CounterError>)
        ensures
            final(self).available() == old(self).available(),
            match r {
                Ok(n) => old(self).available() && old(self).value() < u32::MAX && n as nat == old(
                    self,
                ).value() + 1 && final(self).value() == n as nat,
                Err(CounterError::Unavailable) => !old(self).available() && final(self).value()
                    == old(self).value(),
                Err(CounterError::Exhausted) => old(self).available() && old(self).value()
                    >= u32::MAX && final(self).value() == old(self).value(),
            },
    ;
}

/// An in-memory counter source: the reference implementation of
/// `CounterSource`. `resume` re-opens a previously persisted value, which
/// is how a process restart is modelled; a switch models the durable
/// backing becoming unwritable.
pub struct MemoryCounter {
    value: u32,
    reachable: bool,
}

impl MemoryCounter {
    /// A fresh counter store, starting at zero.
    pub fn new() -> (r: MemoryCounter)
        ensures
            r.value() == 0,
            r.available(),
    {
        MemoryCounter { value: 0, reachable: true }
    }

    /// Re-opens persisted counter state, as after a process restart.
    pub fn resume(saved: u32) -> (r: MemoryCounter)
        ensures
            r.value() == saved as nat,
            r.available(),
    {
        MemoryCounter { value: saved, reachable: true }
    }

    /// The persisted value, as a restart would see it.
    pub fn current(&self) -> (r: u32)
        ensures
            r as nat == self.value(),
    {
        self.value
    }

    /// Makes the durable backing writable or unwritable, leaving the
    /// persisted value as it is.
    pub fn set_available(&mut self, available: bool)
        ensures
            final(self).value() == old(self).value(),
            final(self).available() == available,
    {
        self.reachable = available;
    }
}

impl CounterSource for MemoryCounter {
    closed spec fn value(&self) -> nat {
        self.value as nat
    }

    closed spec fn available(&self) -> bool {
        self.reachable
    }

    fn next(&mut self) -> (r: Result<u32, CounterError>) {
        if !self.reachable {
            return Err(CounterError::Unavailable);
        }
        if self.value == u32::MAX {
            return Err(CounterError::Exhausted);
        }
        self.value = self.value + 1;
        Ok(self.value)
    }
}

/// Counter monotonicity: a chain of values in which each is strictly
/// above its predecessor — as the values returned by successive
/// successful authentications are, each being the freshly persisted
/// counter — is strictly increasing across its whole length, restarts
/// included, since every link relates the persisted value to its
/// successor.
pub proof fn lemma_counter_values_strictly_increase(values: Seq<nat>)
    requires
        forall|i: int| #![trigger values[i]] 0 <= i < values.len() - 1 ==> values[i] < values[i + 1],
    ensures
        forall|i: int, j: int|
            #![trigger values[i], values[j]]
            0 <= i < j < values.len() ==> values[i] < values[j],
{
    assert forall|i: int, j: int|
        #![trigger values[i], values[j]]
        0 <= i < j < values.len() implies values[i] < values[j] by {
        lemma_chain_increases(values, i, j);
    }
}

proof fn lemma_chain_increases(values: Seq<nat>, i: int, j: int)
    requires
        forall|k: int| #![trigger values[k]] 0 <= k < values.len() - 1 ==> values[k] < values[k + 1],
        0 <= i < j < values.len(),
    ensures
        values[i] < values[j],
    decreases j - i,
{
    if i + 1 < j {
        lemma_chain_increases(values, i + 1, j);
    }
}

} // verus!
