//! Listeners: the callbacks that a bus stores and runs.

use crate::prelude::{Error, EventEmitter};
use std::sync::Arc;
use vstd::prelude::*;

verus! {

/// A callback that is run with the payload of each emission of its key.
pub trait Listener<V> {
    /// The listener has been run with `value` and has returned.
    spec fn heard(&self, value: Option<&V>) -> bool;

    /// Runs the listener with `value`. Every payload is accepted.
    fn notify(&self, value: Option<&V>)
        ensures
            self.heard(value),
    ;
}

/// The bus that is running a listener, as the listener sees it: a way to
/// emit further events on that bus while the listener runs.
#[verifier::reject_recursive_types(E)]
#[verifier::reject_recursive_types(V)]
pub struct Running<'a, E, V> {
    /// The running bus, held as it was given.
    bus: (&'a dyn EventEmitter<E, V>,),
}

impl<'a, E, V> Running<'a, E, V> {
    /// Whether the running bus was made with an emission limit.
    pub closed spec fn bounded(&self) -> bool {
        self.bus.0.bounded()
    }

    /// The view that listeners get of `bus`: it is bounded exactly when
    /// `bus` is.
    pub fn new(bus: &'a dyn EventEmitter<E, V>) -> (running: Self)
        ensures
            running.bounded() == bus.bounded(),
    {
        let held = (bus,);
        Running { bus: held }
    }

    /// Emits `event` without a payload on the running bus, as that bus
    /// does: one without a limit never refuses for disconnection.
    pub fn emit(&self, event: E) -> (outcome: Result<(), Error>)
        ensures
            outcome == Err::<(), Error>(Error::Disconnected) ==> self.bounded(),
    {
        self.bus.0.emit(event)
    }

    /// Emits `event` with `value` on the running bus, as that bus does: one
    /// without a limit never refuses for disconnection.
    pub fn emit_with_value(&self, event: E, value: Option<&V>) -> (outcome: Result<(), Error>)
        ensures
            outcome == Err::<(), Error>(Error::Disconnected) ==> self.bounded(),
    {
        self.bus.0.emit_with_value(event, value)
    }
}

/// A callback that is also handed the bus that runs it, on which it may emit.
pub trait Reactor<E, V> {
    /// The reactor has been run with `value`, on some bus, and has returned.
    spec fn reacted(&self, value: Option<&V>) -> bool;

    /// Runs the reactor with `value` on `bus`. Every payload is accepted.
    fn react(&self, bus: &Running<E, V>, value: Option<&V>)
        ensures
            self.reacted(value),
    ;
}

/// A stored listener: shared, so that it can be run from a snapshot.
pub type SharedListener<V> = Arc<Box<dyn Listener<V>>>;

/// A stored reactor: shared, so that it can be run from a snapshot.
pub type SharedReactor<E, V> = Arc<Box<dyn Reactor<E, V>>>;

/// A closure over payloads, as a listener.
pub struct Callback<V, F: Fn(Option<&V>)> {
    f: F,
    payload: core::marker::PhantomData<V>,
}

impl<V, F: Fn(Option<&V>)> Callback<V, F> {
    #[verifier::type_invariant]
    spec fn accepts_every_payload(self) -> bool {
        forall|value: Option<&V>| #[trigger] call_requires(self.f, (value,))
    }

    /// The closure that this listener runs.
    pub closed spec fn closure(self) -> F {
        self.f
    }

    /// The listener that runs `f`.
    pub fn new(f: F) -> (callback: Self)
        requires
            forall|value: Option<&V>| call_requires(f, (value,)),
        ensures
            callback.closure() == f,
    {
        Callback { f, payload: core::marker::PhantomData }
    }
}

impl<V, F: Fn(Option<&V>)> Listener<V> for Callback<V, F> {
    open spec fn heard(&self, value: Option<&V>) -> bool {
        call_ensures(self.closure(), (value,), ())
    }

    fn notify(&self, value: Option<&V>) {
        proof {
            use_type_invariant(self);
        }
        (self.f)(value)
    }
}

/// Boxes the closure `f` as a shared listener. The listener has heard a
/// payload exactly when a call of `f` with it has returned.
pub fn listener_from<V: 'static, F: Fn(Option<&V>) + 'static>(f: F) -> (listener: SharedListener<V>)
    requires
        forall|value: Option<&V>| call_requires(f, (value,)),
    ensures
        forall|value: Option<&V>| #[trigger]
            listener.heard(value) <==> call_ensures(f, (value,), ()),
{
    let callback = Callback::new(f);
    let ghost plain = callback;
    let boxed: Box<dyn Listener<V>> = Box::new(callback);
    assert forall|value: Option<&V>| #[trigger]
        boxed.heard(value) <==> call_ensures(f, (value,), ()) by {
        assert(boxed.heard(value) == plain.heard(value));
    }
    let ghost unshared = boxed;
    let listener = Arc::new(boxed);
    assert(forall|value: Option<&V>| #[trigger] listener.heard(value) == unshared.heard(value));
    listener
}

/// Runs `listeners` with `value`, first to last.
pub fn notify_all<V>(listeners: &Vec<SharedListener<V>>, value: Option<&V>)
    ensures
        forall|index: int| 0 <= index < listeners.len() ==> #[trigger] listeners[index].heard(value),
{
    let mut index: usize = 0;
    while index < listeners.len()
        invariant
            index <= listeners.len(),
            forall|earlier: int| 0 <= earlier < index ==> #[trigger] listeners[earlier].heard(value),
        decreases listeners.len() - index,
    {
        listeners[index].notify(value);
        index = index + 1;
    }
}

impl<E, V, F: Fn(Option<&V>)> Reactor<E, V> for Callback<V, F> {
    /// A plain listener ignores the bus.
    open spec fn reacted(&self, value: Option<&V>) -> bool {
        call_ensures(self.closure(), (value,), ())
    }

    fn react(&self, bus: &Running<E, V>, value: Option<&V>) {
        proof {
            use_type_invariant(self);
        }
        (self.f)(value)
    }
}

/// A closure over the running bus and payloads, as a reactor.
#[verifier::reject_recursive_types(E)]
#[verifier::reject_recursive_types(V)]
pub struct Reaction<E, V, F: Fn(&Running<E, V>, Option<&V>)> {
    f: F,
    bus: core::marker::PhantomData<(E, V)>,
}

impl<E, V, F: Fn(&Running<E, V>, Option<&V>)> Reaction<E, V, F> {
    #[verifier::type_invariant]
    spec fn accepts_every_call(self) -> bool {
        forall|bus: &Running<E, V>, value: Option<&V>| #[trigger]
            call_requires(self.f, (bus, value))
    }

    /// The closure that this reactor runs.
    pub closed spec fn closure(self) -> F {
        self.f
    }

    /// The reactor that runs `f`.
    pub fn new(f: F) -> (reaction: Self)
        requires
            forall|bus: &Running<E, V>, value: Option<&V>| #[trigger]
                call_requires(f, (bus, value)),
        ensures
            reaction.closure() == f,
    {
        Reaction { f, bus: core::marker::PhantomData }
    }
}

impl<E, V, F: Fn(&Running<E, V>, Option<&V>)> Reactor<E, V> for Reaction<E, V, F> {
    open spec fn reacted(&self, value: Option<&V>) -> bool {
        exists|bus: &Running<E, V>| #[trigger]
            call_ensures(self.closure(), (bus, value), ())
    }

    fn react(&self, bus: &Running<E, V>, value: Option<&V>) {
        proof {
            use_type_invariant(self);
        }
        (self.f)(bus, value);
        assert(call_ensures(self.closure(), (bus, value), ()));
    }
}

/// Boxes the closure `f` as a shared reactor. The reactor has heard a
/// payload exactly when a call of `f` with it, on some bus, has returned.
pub fn reactor_from<E: 'static, V: 'static, F: Fn(&Running<E, V>, Option<&V>) + 'static>(
    f: F,
) -> (reactor: SharedReactor<E, V>)
    requires
        forall|bus: &Running<E, V>, value: Option<&V>| #[trigger]
            call_requires(f, (bus, value)),
    ensures
        forall|value: Option<&V>| #[trigger]
            reactor.reacted(value) <==> exists|bus: &Running<E, V>| #[trigger]
                call_ensures(f, (bus, value), ()),
{
    let reaction = Reaction::new(f);
    let ghost plain = reaction;
    let boxed: Box<dyn Reactor<E, V>> = Box::new(reaction);
    assert forall|value: Option<&V>| #[trigger]
        boxed.reacted(value) <==> exists|bus: &Running<E, V>| #[trigger]
            call_ensures(f, (bus, value), ()) by {
        assert(boxed.reacted(value) == plain.reacted(value));
    }
    let ghost unshared = boxed;
    let reactor = Arc::new(boxed);
    assert(forall|value: Option<&V>| #[trigger] reactor.reacted(value) == unshared.reacted(value));
    reactor
}

/// Boxes the closure `f`, which takes payloads only, as a shared reactor.
/// The reactor has heard a payload exactly when a call of `f` with it has
/// returned.
pub fn reactor_from_listener<E: 'static, V: 'static, F: Fn(Option<&V>) + 'static>(f: F) -> (reactor:
    SharedReactor<E, V>)
    requires
        forall|value: Option<&V>| call_requires(f, (value,)),
    ensures
        forall|value: Option<&V>| #[trigger]
            reactor.reacted(value) <==> call_ensures(f, (value,), ()),
{
    let callback = Callback::new(f);
    let ghost plain = callback;
    let boxed: Box<dyn Reactor<E, V>> = Box::new(callback);
    assert forall|value: Option<&V>| #[trigger]
        boxed.reacted(value) <==> call_ensures(f, (value,), ()) by {
        assert(boxed.reacted(value) == Reactor::<E, V>::reacted(&plain, value));
    }
    let ghost unshared = boxed;
    let reactor = Arc::new(boxed);
    assert(forall|value: Option<&V>| #[trigger] reactor.reacted(value) == unshared.reacted(value));
    reactor
}

/// Runs `reactors` with `value` on `bus`, first to last.
pub fn react_all<E, V>(
    reactors: &Vec<SharedReactor<E, V>>,
    bus: &Running<E, V>,
    value: Option<&V>,
)
    ensures
        forall|index: int| 0 <= index < reactors.len() ==> #[trigger] reactors[index].reacted(value),
{
    let mut index: usize = 0;
    while index < reactors.len()
        invariant
            index <= reactors.len(),
            forall|earlier: int| 0 <= earlier < index ==> #[trigger] reactors[earlier].reacted(value),
        decreases reactors.len() - index,
    {
        reactors[index].react(bus, value);
        index = index + 1;
    }
}

} // verus!
