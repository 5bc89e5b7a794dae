//! What every user of a bus needs: the error type, the emitter capability
//! and the bus of a single owner.

use crate::access::{borrowed, borrowed_mut};
use crate::listener::{listener_from, notify_all, Listener, SharedListener};
use crate::state::{is_disconnected, next_count};
use crate::table::ListenerTable;
use std::cell::{Cell, RefCell};
use std::hash::Hash;
use vstd::prelude::*;
use vstd::std_specs::hash::obeys_key_model;

verus! {

/// Why an operation on a bus did not happen.
#[derive(Debug, PartialEq, Eq, Clone, Copy, Structural)]
pub enum Error {
    /// Access to the listener table could not be obtained.
    BusLock,
    /// The bus has reached its emission limit and emits no more.
    Disconnected,
}

/// The capability of a shared bus: registering listeners and emitting events.
pub trait EventEmitter<E, V> {
    /// Whether the bus was made with an emission limit. Only such a bus
    /// ever refuses an emission for disconnection.
    spec fn bounded(&self) -> bool;

    /// Adds the listener `f` for `event`. A listener must accept every
    /// payload. Registration is never refused for disconnection.
    fn on<F>(&self, event: E, f: F) -> (outcome: Result<(), Error>) where
        F: Fn(Option<&V>) + 'static,
        Self: Sized,

        requires
            forall|value: Option<&V>| call_requires(f, (value,)),
        ensures
            outcome != Err::<(), Error>(Error::Disconnected),
    ;

    /// Emits `event` with `value`, running the listeners registered for it
    /// in the order of their registration. A bus without a limit never
    /// refuses for disconnection.
    fn emit_with_value(&self, event: E, value: Option<&V>) -> (outcome: Result<(), Error>)
        ensures
            outcome == Err::<(), Error>(Error::Disconnected) ==> self.bounded(),
    ;

    /// Emits `event` without a payload: listeners receive `None`. What
    /// comes back is what `emit_with_value` gives for no payload.
    fn emit(&self, event: E) -> (outcome: Result<(), Error>)
        ensures
            outcome == Err::<(), Error>(Error::Disconnected) ==> self.bounded(),
    {
        self.emit_with_value(event, None)
    }
}

/// The bus of a single owner: shared references suffice to use it, and
/// access to its listener table is checked as the program runs.
///
/// The table is borrowed while a listener is registered, and while the
/// listeners of an emitted key are copied out; the borrow has ended before
/// any listener runs. Access that cannot be had is a `BusLock` error, never
/// a wait.
#[verifier::reject_recursive_types(E)]
#[verifier::reject_recursive_types(V)]
pub struct BusRef<E, V> {
    listeners: RefCell<ListenerTable<E, Box<dyn Listener<V>>>>,
    emit_count: Cell<usize>,
    emit_limit: usize,
}

impl<E, V> BusRef<E, V> {
    /// The emission limit that the bus was made with; zero for none.
    pub closed spec fn limit(&self) -> nat {
        self.emit_limit as nat
    }

    /// Whether the bus has a limit and has reached it. A bus without a
    /// limit is never disconnected.
    pub fn disconnected(&self) -> (disconnected: bool)
        ensures
            disconnected ==> self.limit() != 0,
    {
        let event_count = self.event_count();
        is_disconnected(event_count, self.emit_limit)
    }

    /// The number of emissions that succeeded so far.
    pub fn event_count(&self) -> usize {
        self.emit_count.get()
    }
}

impl<E: Eq + Hash, V> BusRef<E, V> {
    /// A bus without an emission limit. Keys must be hashed and compared as
    /// the key model asks.
    pub fn unbound() -> (bus: Self)
        requires
            obeys_key_model::<E>(),
        ensures
            bus.limit() == 0,
    {
        BusRef { listeners: RefCell::new(ListenerTable::new()), emit_count: Cell::new(0), emit_limit: 0 }
    }

    /// A bus that disconnects after `max_emit_count` emissions; with zero,
    /// a bus without a limit.
    pub fn bound(max_emit_count: usize) -> (bus: Self)
        requires
            obeys_key_model::<E>(),
        ensures
            bus.limit() == max_emit_count,
    {
        BusRef {
            listeners: RefCell::new(ListenerTable::new()),
            emit_count: Cell::new(0),
            emit_limit: max_emit_count,
        }
    }

    /// Appends `listener` to the listeners of `event`. Fails with
    /// `BusLock`, and does nothing, where the table is borrowed.
    pub fn register(&self, event: E, listener: SharedListener<V>) -> (outcome: Result<(), Error>)
        ensures
            outcome != Err::<(), Error>(Error::Disconnected),
    {
        match self.listeners.try_borrow_mut() {
            Ok(mut table) => {
                borrowed_mut(&mut table).register(event, listener);
                Ok(())
            },
            Err(_) => Err(Error::BusLock),
        }
    }

    /// The first half of an emission of `event`: borrows the table, decides
    /// as [`next_count`] says on the count that the bus holds, stores the
    /// new count and then hands out the listeners of `event`, in
    /// registration order, for the caller to run.
    ///
    /// Fails with `BusLock` where the table is mutably borrowed, and with
    /// `Disconnected` where the bus is disconnected, which only a bus with
    /// a limit ever is; a failed emission changes nothing.
    pub fn begin_emit(&self, event: &E) -> (outcome: Result<Vec<SharedListener<V>>, Error>)
        ensures
            outcome matches Err(Error::Disconnected) ==> self.limit() != 0,
    {
        match self.listeners.try_borrow() {
            Ok(table) => {
                match next_count(self.emit_count.get(), self.emit_limit) {
                    Ok(next) => {
                        self.emit_count.set(next);
                        Ok(borrowed(&table).snapshot(event))
                    },
                    Err(error) => Err(error),
                }
            },
            Err(_) => Err(Error::BusLock),
        }
    }
}

impl<E: Eq + Hash, V: 'static> EventEmitter<E, V> for BusRef<E, V> {
    open spec fn bounded(&self) -> bool {
        self.limit() != 0
    }

    /// Adds the listener `f` for `event`, after those that `event` has.
    fn on<F>(&self, event: E, f: F) -> (outcome: Result<(), Error>) where F: Fn(Option<&V>) + 'static {
        self.register(event, listener_from(f))
    }

    /// Emits `event` with `value`: counts the emission and copies the
    /// listeners of `event` out while the table is borrowed, then runs them
    /// in registration order with the borrow ended.
    fn emit_with_value(&self, event: E, value: Option<&V>) -> (outcome: Result<(), Error>) {
        match self.begin_emit(&event) {
            Ok(listeners) => {
                notify_all(&listeners, value);
                Ok(())
            },
            Err(error) => Err(error),
        }
    }
}

} // verus!
