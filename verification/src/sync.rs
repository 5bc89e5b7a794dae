//! The bus behind a mutex whose listeners may emit on the bus that runs them.

use crate::listener::{react_all, reactor_from, reactor_from_listener, Reactor, Running};
use crate::prelude::{Error, EventEmitter};
use crate::shared::Locked;
use std::hash::Hash;
use vstd::prelude::*;
use vstd::std_specs::hash::obeys_key_model;

verus! {

/// An event bus that can be cloned: the clones share one listener table and
/// one count behind a mutex. A bus that stays with one owner is cheaper as
/// `unsync::EventBus`.
///
/// Listeners are handed the bus that runs them and may emit on it: the
/// mutex is held while a listener is registered, and while an emission is
/// counted and the listeners of its key are copied out; it is released
/// before any listener runs.
#[verifier::reject_recursive_types(E)]
#[verifier::reject_recursive_types(V)]
pub struct EventBus<E, V> {
    bus: Locked<E, Box<dyn Reactor<E, V>>>,
}

impl<E, V> EventBus<E, V> {
    /// The emission limit that the bus was made with; zero for none.
    pub closed spec fn limit(&self) -> nat {
        self.bus.limit()
    }

    /// Returns `true` if this bus has exhausted its allowed number of emits.
    /// A bus without a limit never has.
    pub fn disconnected(&self) -> (disconnected: bool)
        ensures
            disconnected ==> self.limit() != 0,
    {
        self.bus.disconnected()
    }

    /// The number of emissions that succeeded so far, on any clone.
    pub fn event_count(&self) -> usize {
        self.bus.event_count()
    }
}

impl<E: Eq + Hash, V> EventBus<E, V> {
    /// Creates an unbound bus that can emit any number of events. Keys
    /// must be hashed and compared as the key model asks.
    pub fn unbound() -> (handle: Self)
        requires
            obeys_key_model::<E>(),
        ensures
            handle.limit() == 0,
    {
        Self { bus: Locked::new(0) }
    }

    /// Creates a bound bus that can emit up to `limit` events; with zero,
    /// an unbound bus.
    pub fn bound(limit: usize) -> (handle: Self)
        requires
            obeys_key_model::<E>(),
        ensures
            handle.limit() == limit,
    {
        Self { bus: Locked::new(limit) }
    }

    /// Adds the listener `f` for `event`, after those that `event` has. The
    /// listener is handed the bus that runs it, and may emit on it. Fails
    /// with `BusLock`, and does nothing, where the mutex is poisoned; never
    /// fails for disconnection.
    pub fn on<F>(&self, event: E, f: F) -> (outcome: Result<(), Error>) where
        F: Fn(&Running<E, V>, Option<&V>) + 'static,
        E: 'static,
        V: 'static,

        requires
            forall|bus: &Running<E, V>, value: Option<&V>| #[trigger]
                call_requires(f, (bus, value)),
        ensures
            outcome != Err::<(), Error>(Error::Disconnected),
    {
        self.bus.register(event, reactor_from(f))
    }
}

impl<E: Eq + Hash + 'static, V: 'static> EventEmitter<E, V> for EventBus<E, V> {
    open spec fn bounded(&self) -> bool {
        self.limit() != 0
    }

    /// Adds the listener `f`, which takes payloads only, for `event`.
    fn on<F>(&self, event: E, f: F) -> (outcome: Result<(), Error>) where F: Fn(Option<&V>) + 'static {
        self.bus.register(event, reactor_from_listener(f))
    }

    /// Emits `event` with `value`: counts the emission and copies the
    /// listeners of `event` out under the mutex, as [`Locked::begin_emit`]
    /// says, then runs them on this bus, in registration order, with the
    /// mutex released.
    fn emit_with_value(&self, event: E, value: Option<&V>) -> (outcome: Result<(), Error>) {
        match self.bus.begin_emit(&event) {
            Ok(reactors) => {
                react_all(&reactors, &Running::new(self), value);
                Ok(())
            },
            Err(error) => Err(error),
        }
    }
}

impl<E, V> Clone for EventBus<E, V> {
    /// Another handle on the same bus.
    fn clone(&self) -> (other: Self)
        ensures
            other == *self,
    {
        Self { bus: self.bus.clone() }
    }
}

} // verus!
