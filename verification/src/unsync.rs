//! The bus for a single owner: cheap handles on one [`BusRef`].

use crate::prelude::{BusRef, Error, EventEmitter};
use std::hash::Hash;
use std::rc::Rc;
use vstd::prelude::*;
use vstd::std_specs::hash::obeys_key_model;

verus! {

/// An event bus that can be cloned: the clones share one bus. To share a
/// bus across threads, `sync::EventBus` is the one to use.
#[verifier::reject_recursive_types(E)]
#[verifier::reject_recursive_types(V)]
pub struct EventBus<E, V> {
    bus: Rc<BusRef<E, V>>,
}

impl<E, V> EventBus<E, V> {
    /// The emission limit that the bus was made with; zero for none.
    pub closed spec fn limit(&self) -> nat {
        self.bus.limit()
    }

    fn construct(bus: BusRef<E, V>) -> (handle: Self)
        ensures
            handle.limit() == bus.limit(),
    {
        Self { bus: Rc::new(bus) }
    }

    /// Returns `true` if this bus has exhausted its allowed number of emits.
    /// A bus without a limit never has.
    pub fn disconnected(&self) -> (disconnected: bool)
        ensures
            disconnected ==> self.limit() != 0,
    {
        self.bus.disconnected()
    }

    /// The number of emissions that succeeded so far, on any clone.
    pub fn event_count(&self) -> usize {
        self.bus.event_count()
    }
}

impl<E: Eq + Hash, V> EventBus<E, V> {
    /// Creates an unbound bus that can emit any number of events. Keys
    /// must be hashed and compared as the key model asks.
    pub fn unbound() -> (handle: Self)
        requires
            obeys_key_model::<E>(),
        ensures
            handle.limit() == 0,
    {
        Self::construct(BusRef::unbound())
    }

    /// Creates a bound bus that can emit up to `limit` events.
    pub fn bound(limit: usize) -> (handle: Self)
        requires
            obeys_key_model::<E>(),
        ensures
            handle.limit() == limit,
    {
        Self::construct(BusRef::bound(limit))
    }
}

impl<E: Eq + Hash, V: 'static> EventEmitter<E, V> for EventBus<E, V> {
    open spec fn bounded(&self) -> bool {
        self.limit() != 0
    }

    /// Adds the listener `f` for `event`, after those that `event` has.
    fn on<F>(&self, event: E, f: F) -> (outcome: Result<(), Error>) where F: Fn(Option<&V>) + 'static {
        self.bus.on(event, f)
    }

    /// Emits `event` with `value`, as the shared [`BusRef`] does.
    fn emit_with_value(&self, event: E, value: Option<&V>) -> (outcome: Result<(), Error>) {
        self.bus.emit_with_value(event, value)
    }
}

impl<E, V> Clone for EventBus<E, V> {
    /// Another handle on the same bus.
    fn clone(&self) -> (other: Self)
        ensures
            other == *self,
    {
        Self { bus: Rc::clone(&self.bus) }
    }
}

} // verus!
