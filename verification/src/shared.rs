//! The part that the handles behind a mutex have in common: a listener
//! table and a count that one mutex guards, and a limit beside it.

use crate::access::guarded;
use crate::model::BusModel;
use crate::prelude::Error;
use crate::state::{is_disconnected, plan_emission};
use crate::table::ListenerTable;
use std::hash::Hash;
use std::sync::{Arc, LockResult, Mutex, MutexGuard};
use vstd::prelude::*;
use vstd::std_specs::hash::obeys_key_model;

verus! {

/// What the mutex guards: the listeners and the count of emissions.
#[verifier::reject_recursive_types(E)]
pub struct Guarded<E, L> {
    table: ListenerTable<E, L>,
    emit_count: usize,
}

impl<E, L> Guarded<E, L> {
    /// The listeners of each key, in the order of their registration.
    pub closed spec fn listeners(&self) -> Map<E, Seq<Arc<L>>> {
        self.table@
    }

    /// The number of emissions counted so far.
    pub closed spec fn emit_count(&self) -> nat {
        self.emit_count as nat
    }

    /// The guarded state as a bus with limit `limit`.
    pub open spec fn model(&self, limit: nat) -> BusModel<E, Arc<L>> {
        BusModel { listeners: self.listeners(), emit_count: self.emit_count(), emit_limit: limit }
    }

    /// The number of emissions counted so far.
    pub fn count(&self) -> (count: usize)
        ensures
            count == self.emit_count(),
    {
        self.emit_count
    }
}

impl<E: Eq + Hash, L> Guarded<E, L> {
    /// A state without listeners or emissions.
    pub fn new() -> (state: Self)
        requires
            obeys_key_model::<E>(),
        ensures
            state.listeners() == Map::<E, Seq<Arc<L>>>::empty(),
            state.emit_count() == 0,
    {
        Guarded { table: ListenerTable::new(), emit_count: 0 }
    }

    /// Appends `listener` to the listeners of `event`, whatever the limit
    /// of the bus is; the count stays.
    pub fn register(&mut self, event: E, listener: Arc<L>)
        ensures
            forall|limit: nat|
                final(self).model(limit) == (#[trigger] old(self).model(limit)).register(
                    event,
                    listener,
                ),
    {
        self.table.register(event, listener);
    }

    /// The first half of an emission of `event` on a bus with limit
    /// `limit`, decided as [`plan_emission`] says.
    ///
    /// A disconnected bus refuses and stays as it is. Otherwise the
    /// listeners of `event` are handed out in registration order and the
    /// emission is counted, unless the count has no successor in `usize`:
    /// then it stays what it is.
    pub fn begin_emit(&mut self, limit: usize, event: &E) -> (outcome: Result<Vec<Arc<L>>, Error>)
        ensures
            ({
                let before = old(self).model(limit as nat);
                let after = final(self).model(limit as nat);
                match outcome {
                    Ok(listeners) => {
                        &&& !before.disconnected()
                        &&& listeners@ == before.fired(*event)
                        &&& after == if before.emit_count < usize::MAX {
                            before.emitted()
                        } else {
                            before
                        }
                    },
                    Err(error) => {
                        &&& error == Error::Disconnected
                        &&& before.disconnected()
                        &&& after == before
                    },
                }
            }),
    {
        match plan_emission(&self.table, self.emit_count, limit, event) {
            Ok((next, listeners)) => {
                self.emit_count = next;
                Ok(listeners)
            },
            Err(error) => Err(error),
        }
    }
}

/// A bus state shared behind a mutex. The limit never changes, so it
/// stands outside the mutex and each handle carries it.
#[verifier::reject_recursive_types(E)]
#[verifier::reject_recursive_types(L)]
pub struct Locked<E, L> {
    guarded: Arc<Mutex<Guarded<E, L>>>,
    emit_limit: usize,
}

impl<E, L> Locked<E, L> {
    /// The emission limit that the bus was made with; zero for none.
    pub closed spec fn limit(&self) -> nat {
        self.emit_limit as nat
    }

    fn aquire_bus_lock(&self) -> LockResult<MutexGuard<'_, Guarded<E, L>>> {
        self.guarded.lock()
    }

    /// The number of emissions that succeeded so far. A poisoned mutex
    /// still holds its count, and the count is read from it.
    pub fn event_count(&self) -> usize {
        match self.aquire_bus_lock() {
            Ok(mut guard) => guarded(&mut guard).count(),
            Err(poisoned) => guarded(&mut poisoned.into_inner()).count(),
        }
    }

    /// Whether the bus has a limit and has reached it. A bus without a
    /// limit is never disconnected.
    pub fn disconnected(&self) -> (disconnected: bool)
        ensures
            disconnected ==> self.limit() != 0,
    {
        is_disconnected(self.event_count(), self.emit_limit)
    }
}

impl<E: Eq + Hash, L> Locked<E, L> {
    /// A state without listeners or emissions, with limit `limit` (zero for
    /// none). Keys must be hashed and compared as the key model asks.
    pub fn new(limit: usize) -> (shared: Self)
        requires
            obeys_key_model::<E>(),
        ensures
            shared.limit() == limit,
    {
        Locked { guarded: Arc::new(Mutex::new(Guarded::new())), emit_limit: limit }
    }

    /// Appends `listener` to the listeners of `event`, under the mutex.
    /// Fails with `BusLock`, and does nothing, where the mutex is poisoned.
    pub fn register(&self, event: E, listener: Arc<L>) -> (outcome: Result<(), Error>)
        ensures
            outcome != Err::<(), Error>(Error::Disconnected),
    {
        match self.aquire_bus_lock() {
            Ok(mut guard) => {
                guarded(&mut guard).register(event, listener);
                Ok(())
            },
            Err(_) => Err(Error::BusLock),
        }
    }

    /// The first half of an emission of `event`: what [`Guarded::begin_emit`]
    /// does, with the limit of this bus, to the state that the mutex
    /// guards when it is had.
    ///
    /// Fails with `BusLock`, and does nothing, where the mutex is poisoned.
    /// Fails with `Disconnected` only on a bus that has a limit.
    pub fn begin_emit(&self, event: &E) -> (outcome: Result<Vec<Arc<L>>, Error>)
        ensures
            outcome matches Err(Error::Disconnected) ==> self.limit() != 0,
    {
        match self.aquire_bus_lock() {
            Ok(mut guard) => guarded(&mut guard).begin_emit(self.emit_limit, event),
            Err(_) => Err(Error::BusLock),
        }
    }
}

impl<E, L> Clone for Locked<E, L> {
    /// Another handle on the same state.
    fn clone(&self) -> (other: Self)
        ensures
            other == *self,
    {
        Locked { guarded: Arc::clone(&self.guarded), emit_limit: self.emit_limit }
    }
}

} // verus!
