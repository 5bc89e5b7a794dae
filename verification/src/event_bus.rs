//! The owned bus, and a handle that shares one behind a mutex.

use crate::listener::{listener_from, notify_all, Listener, SharedListener};
use crate::model::BusModel;
use crate::shared::Locked;
use crate::state::EmitCounter;
use crate::table::ListenerTable;
use std::hash::Hash;
use vstd::prelude::*;
use vstd::std_specs::hash::obeys_key_model;

pub use crate::prelude::Error;

verus! {

/// A bus that its holder owns: a listener table, an emission count and an
/// emission limit, with no synchronisation of its own.
#[verifier::reject_recursive_types(E)]
#[verifier::reject_recursive_types(V)]
pub struct BusRef<E, V> {
    listeners: ListenerTable<E, Box<dyn Listener<V>>>,
    counter: EmitCounter,
}

impl<E, V> View for BusRef<E, V> {
    type V = BusModel<E, SharedListener<V>>;

    closed spec fn view(&self) -> BusModel<E, SharedListener<V>> {
        BusModel {
            listeners: self.listeners@,
            emit_count: self.counter.count(),
            emit_limit: self.counter.limit(),
        }
    }
}

impl<E: Eq + Hash, V> BusRef<E, V> {
    /// A bus without an emission limit. Keys must be hashed and compared as
    /// the key model asks.
    pub fn unbound() -> (bus: Self)
        requires
            obeys_key_model::<E>(),
        ensures
            bus@ == BusModel::<E, SharedListener<V>>::fresh(0),
    {
        BusRef { listeners: ListenerTable::new(), counter: EmitCounter::new(0) }
    }

    /// A bus that disconnects after `max_emit_count` emissions; with zero,
    /// a bus without a limit.
    pub fn bound(max_emit_count: usize) -> (bus: Self)
        requires
            obeys_key_model::<E>(),
        ensures
            bus@ == BusModel::<E, SharedListener<V>>::fresh(max_emit_count as nat),
    {
        BusRef { listeners: ListenerTable::new(), counter: EmitCounter::new(max_emit_count) }
    }

    /// Whether the bus has a limit and has reached it.
    pub fn disconnected(&self) -> (disconnected: bool)
        ensures
            disconnected == self@.disconnected(),
    {
        self.counter.is_disconnected()
    }

    /// The number of emissions that succeeded so far.
    pub fn event_count(&self) -> (count: usize)
        ensures
            count == self@.emit_count,
            self@.wf(),
    {
        self.counter.current()
    }

    /// Adds the listener `f` for `event`, after those that `event` has.
    ///
    /// Always succeeds, on a disconnected bus too. The listener that is
    /// stored has heard a payload exactly when a call of `f` with it has
    /// returned.
    pub fn on<F: Fn(Option<&V>) + 'static>(&mut self, event: E, f: F) -> (outcome: Result<
        (),
        Error,
    >) where V: 'static
        requires
            forall|value: Option<&V>| call_requires(f, (value,)),
        ensures
            outcome == Ok::<(), Error>(()),
            final(self)@.listeners_for(event).len() > 0,
            final(self)@ == old(self)@.register(event, final(self)@.listeners_for(event).last()),
            forall|value: Option<&V>| #[trigger]
                final(self)@.listeners_for(event).last().heard(value) <==> call_ensures(
                    f,
                    (value,),
                    (),
                ),
    {
        let listener = listener_from(f);
        self.listeners.register(event, listener);
        Ok(())
    }

    /// Emits `event` without a payload: the listeners receive `None`.
    pub fn emit(&mut self, event: E) -> (outcome: Result<(), Error>)
        requires
            old(self)@.disconnected() || old(self)@.emit_count < usize::MAX,
        ensures
            final(self)@ == old(self)@.emitted(),
            old(self)@.disconnected() ==> outcome == Err::<(), Error>(Error::Disconnected),
            !old(self)@.disconnected() ==> outcome == Ok::<(), Error>(()),
            forall|index: int|
                0 <= index < old(self)@.fired(event).len() ==> #[trigger] old(self)@.fired(
                    event,
                )[index].heard(None),
    {
        self.emit_with_value(event, None)
    }

    /// Emits `event` with `value`.
    ///
    /// A disconnected bus refuses with `Disconnected` and stays as it is.
    /// Otherwise the emission is counted, then each listener of `event` is
    /// run with `value`, in registration order, and the emission succeeds.
    /// The count must have a successor in `usize`.
    pub fn emit_with_value(&mut self, event: E, value: Option<&V>) -> (outcome: Result<(), Error>)
        requires
            old(self)@.disconnected() || old(self)@.emit_count < usize::MAX,
        ensures
            final(self)@ == old(self)@.emitted(),
            old(self)@.disconnected() ==> outcome == Err::<(), Error>(Error::Disconnected),
            !old(self)@.disconnected() ==> outcome == Ok::<(), Error>(()),
            forall|index: int|
                0 <= index < old(self)@.fired(event).len() ==> #[trigger] old(self)@.fired(
                    event,
                )[index].heard(value),
    {
        match self.begin_emit(&event) {
            Ok(listeners) => {
                notify_all(&listeners, value);
                Ok(())
            },
            Err(error) => Err(error),
        }
    }

    /// The first half of an emission of `event`: refuses on a disconnected
    /// bus; otherwise counts the emission and hands out the listeners of
    /// `event` in registration order, to be run by the caller.
    pub fn begin_emit(&mut self, event: &E) -> (outcome: Result<Vec<SharedListener<V>>, Error>)
        requires
            old(self)@.disconnected() || old(self)@.emit_count < usize::MAX,
        ensures
            final(self)@ == old(self)@.emitted(),
            match outcome {
                Ok(listeners) => !old(self)@.disconnected() && listeners@ == old(self)@.fired(
                    *event,
                ),
                Err(error) => old(self)@.disconnected() && error == Error::Disconnected,
            },
    {
        match self.counter.advance() {
            Ok(()) => Ok(self.listeners.snapshot(event)),
            Err(error) => Err(error),
        }
    }
}

/// A bus that can be cloned: the clones share one listener table and one
/// count behind a mutex.
///
/// The mutex is held while a listener is registered, and while an emission
/// is counted and the listeners of its key are copied out; it is released
/// before any listener runs.
#[verifier::reject_recursive_types(E)]
#[verifier::reject_recursive_types(V)]
pub struct EventBus<E, V> {
    bus: Locked<E, Box<dyn Listener<V>>>,
}

impl<E, V> EventBus<E, V> {
    /// The emission limit that the bus was made with; zero for none.
    pub closed spec fn limit(&self) -> nat {
        self.bus.limit()
    }
}

impl<E: Eq + Hash, V> EventBus<E, V> {
    /// Creates an unbound bus that can emit any number of events. Keys
    /// must be hashed and compared as the key model asks.
    pub fn unbound() -> (handle: Self)
        requires
            obeys_key_model::<E>(),
        ensures
            handle.limit() == 0,
    {
        EventBus { bus: Locked::new(0) }
    }

    /// Creates a bound bus that can emit up to `limit` events; with zero,
    /// an unbound bus.
    pub fn bound(limit: usize) -> (handle: Self)
        requires
            obeys_key_model::<E>(),
        ensures
            handle.limit() == limit,
    {
        EventBus { bus: Locked::new(limit) }
    }

    /// Adds the listener `f` for `event`, after those that `event` has.
    /// Fails with `BusLock`, and does nothing, where the mutex is poisoned;
    /// never fails for disconnection.
    pub fn on<F: Fn(Option<&V>) + 'static>(&self, event: E, f: F) -> (outcome: Result<
        (),
        Error,
    >) where V: 'static
        requires
            forall|value: Option<&V>| call_requires(f, (value,)),
        ensures
            outcome != Err::<(), Error>(Error::Disconnected),
    {
        self.bus.register(event, listener_from(f))
    }

    /// Emits `event` without a payload: the listeners receive `None`. A
    /// bus without a limit never refuses for disconnection.
    pub fn emit(&self, event: E) -> (outcome: Result<(), Error>)
        ensures
            outcome == Err::<(), Error>(Error::Disconnected) ==> self.limit() != 0,
    {
        self.emit_with_value(event, None)
    }

    /// Emits `event` with `value`: counts the emission and copies the
    /// listeners of `event` out under the mutex, as [`Locked::begin_emit`]
    /// says, then runs them in registration order with the mutex released.
    /// A bus without a limit never refuses for disconnection.
    pub fn emit_with_value(&self, event: E, value: Option<&V>) -> (outcome: Result<(), Error>)
        ensures
            outcome == Err::<(), Error>(Error::Disconnected) ==> self.limit() != 0,
    {
        match self.bus.begin_emit(&event) {
            Ok(listeners) => {
                notify_all(&listeners, value);
                Ok(())
            },
            Err(error) => Err(error),
        }
    }

    /// The number of emissions that succeeded so far, on any clone.
    pub fn event_count(&self) -> usize {
        self.bus.event_count()
    }

    /// Returns `true` if this bus has exhausted its allowed number of emits.
    /// A bus without a limit never has.
    pub fn disconnected(&self) -> (disconnected: bool)
        ensures
            disconnected ==> self.limit() != 0,
    {
        self.bus.disconnected()
    }
}

impl<E, V> Clone for EventBus<E, V> {
    /// Another handle on the same bus.
    fn clone(&self) -> (other: Self)
        ensures
            other == *self,
    {
        EventBus { bus: self.bus.clone() }
    }
}

} // verus!
