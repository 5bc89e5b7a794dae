//! The mathematical model of a bus, and the laws that follow from it.
//!
//! A bus is a table from event keys to sequences of listeners, a count of the
//! emissions made so far and an emission limit, where a limit of zero means
//! that there is none. The executable buses of this crate are specified
//! against this model.

use vstd::prelude::*;

verus! {

/// The abstract state of a bus over keys `E` and listeners `L`.
#[verifier::reject_recursive_types(E)]
pub struct BusModel<E, L> {
    /// The listeners of each key, in the order of their registration.
    pub listeners: Map<E, Seq<L>>,
    /// The number of emissions that succeeded so far.
    pub emit_count: nat,
    /// The number of emissions after which the bus disconnects; zero for none.
    pub emit_limit: nat,
}

/// One operation on a bus.
pub enum BusOp<E, L> {
    /// Registration of `listener` for `event`.
    Register { event: E, listener: L },
    /// Emission of `event`.
    Emit { event: E },
}

impl<E, L> BusModel<E, L> {
    /// A bus with no listener and no emission, with the given limit.
    pub open spec fn fresh(limit: nat) -> Self {
        BusModel { listeners: Map::empty(), emit_count: 0, emit_limit: limit }
    }

    /// A bound bus never counts past its limit.
    pub open spec fn wf(self) -> bool {
        self.emit_limit != 0 ==> self.emit_count <= self.emit_limit
    }

    /// The bus has a limit and has reached it.
    pub open spec fn disconnected(self) -> bool {
        self.emit_limit != 0 && self.emit_count == self.emit_limit
    }

    /// The listeners of `event` in registration order; none if there never was one.
    pub open spec fn listeners_for(self, event: E) -> Seq<L> {
        if self.listeners.contains_key(event) {
            self.listeners[event]
        } else {
            Seq::empty()
        }
    }

    /// The bus after `listener` was registered for `event`.
    pub open spec fn register(self, event: E, listener: L) -> Self {
        BusModel {
            listeners: self.listeners.insert(event, self.listeners_for(event).push(listener)),
            ..self
        }
    }

    /// The bus after one more emission was counted.
    pub open spec fn counted(self) -> Self {
        BusModel { emit_count: self.emit_count + 1, ..self }
    }

    /// The bus after an attempt to emit: a disconnected bus stays as it is.
    pub open spec fn emitted(self) -> Self {
        if self.disconnected() {
            self
        } else {
            self.counted()
        }
    }

    /// The listeners that an attempt to emit `event` runs, in order.
    pub open spec fn fired(self, event: E) -> Seq<L> {
        if self.disconnected() {
            Seq::empty()
        } else {
            self.listeners_for(event)
        }
    }

    /// The bus after `op`.
    pub open spec fn apply(self, op: BusOp<E, L>) -> Self {
        match op {
            BusOp::Register { event, listener } => self.register(event, listener),
            BusOp::Emit { event } => self.emitted(),
        }
    }

    /// The bus after the operations `ops`, first to last.
    pub open spec fn run(self, ops: Seq<BusOp<E, L>>) -> Self
        decreases ops.len(),
    {
        if ops.len() == 0 {
            self
        } else {
            self.run(ops.drop_last()).apply(ops.last())
        }
    }

    /// Whether the operation at `index` of `ops` is an emission that succeeds.
    pub open spec fn succeeds_at(self, ops: Seq<BusOp<E, L>>, index: int) -> bool {
        &&& 0 <= index < ops.len()
        &&& ops[index] is Emit
        &&& !self.run(ops.take(index)).disconnected()
    }

    /// The number of emissions among `ops` that succeed.
    pub open spec fn successes(self, ops: Seq<BusOp<E, L>>) -> nat
        decreases ops.len(),
    {
        if ops.len() == 0 {
            0
        } else {
            let before = self.successes(ops.drop_last());
            if self.succeeds_at(ops, ops.len() - 1) {
                before + 1
            } else {
                before
            }
        }
    }

    /// The number of emissions among `ops`, whether they succeed or not.
    pub open spec fn attempts(ops: Seq<BusOp<E, L>>) -> nat
        decreases ops.len(),
    {
        if ops.len() == 0 {
            0
        } else {
            let before = Self::attempts(ops.drop_last());
            if ops.last() is Emit {
                before + 1
            } else {
                before
            }
        }
    }
}

/// Listeners registered one after the other for one key stand in the table
/// in the order of their registration, after those that were registered
/// before them, and an emission of that key that is not refused fires them
/// in exactly that order.
pub proof fn lemma_registration_order<E, L>(bus: BusModel<E, L>, event: E, l1: L, l2: L, l3: L)
    ensures
        ({
            let after = bus.register(event, l1).register(event, l2).register(event, l3);
            &&& after.listeners_for(event) == bus.listeners_for(event) + seq![l1, l2, l3]
            &&& !bus.disconnected() ==> after.fired(event) == bus.fired(event) + seq![l1, l2, l3]
            &&& bus.listeners_for(event).len() == 0 ==> after.listeners_for(event) == seq![
                l1,
                l2,
                l3,
            ]
        }),
{
    let after = bus.register(event, l1).register(event, l2).register(event, l3);
    assert(after.listeners_for(event) =~= bus.listeners_for(event) + seq![l1, l2, l3]);
    if bus.listeners_for(event).len() == 0 {
        assert(after.listeners_for(event) =~= seq![l1, l2, l3]);
    }
}

/// A registration changes the listeners of its own key only, and no count.
pub proof fn lemma_register_is_local<E, L>(bus: BusModel<E, L>, event: E, listener: L, other: E)
    requires
        other != event,
    ensures
        bus.register(event, listener).listeners_for(other) == bus.listeners_for(other),
        bus.register(event, listener).listeners_for(event) == bus.listeners_for(event).push(
            listener,
        ),
        bus.register(event, listener).emit_count == bus.emit_count,
        bus.register(event, listener).emit_limit == bus.emit_limit,
        bus.register(event, listener).disconnected() == bus.disconnected(),
{
}

/// No operation changes the limit, and well-formedness is kept.
pub proof fn lemma_run_keeps_limit<E, L>(bus: BusModel<E, L>, ops: Seq<BusOp<E, L>>)
    ensures
        bus.run(ops).emit_limit == bus.emit_limit,
        bus.wf() ==> bus.run(ops).wf(),
    decreases ops.len(),
{
    if ops.len() > 0 {
        lemma_run_keeps_limit(bus, ops.drop_last());
    }
}

/// After any operations the count has grown by the number of emissions among
/// them that succeeded: each success counts once, and nothing else counts.
pub proof fn lemma_count_is_successes<E, L>(bus: BusModel<E, L>, ops: Seq<BusOp<E, L>>)
    ensures
        bus.run(ops).emit_count == bus.emit_count + bus.successes(ops),
    decreases ops.len(),
{
    if ops.len() > 0 {
        let before = ops.drop_last();
        lemma_count_is_successes(bus, before);
        assert(ops.take(ops.len() - 1) =~= before);
    }
}

/// From a fresh bus the count is the number of successful emissions.
pub proof fn lemma_fresh_count_is_successes<E, L>(limit: nat, ops: Seq<BusOp<E, L>>)
    ensures
        BusModel::<E, L>::fresh(limit).run(ops).emit_count == BusModel::<E, L>::fresh(
            limit,
        ).successes(ops),
{
    lemma_count_is_successes(BusModel::<E, L>::fresh(limit), ops);
}

/// The count never decreases: after more operations it is at least what it
/// was after fewer.
pub proof fn lemma_count_never_decreases<E, L>(
    bus: BusModel<E, L>,
    ops: Seq<BusOp<E, L>>,
    shorter: int,
    longer: int,
)
    requires
        0 <= shorter <= longer <= ops.len(),
    ensures
        bus.run(ops.take(shorter)).emit_count <= bus.run(ops.take(longer)).emit_count,
    decreases longer - shorter,
{
    if shorter < longer {
        lemma_count_never_decreases(bus, ops, shorter, longer - 1);
        assert(ops.take(longer).drop_last() =~= ops.take(longer - 1));
    }
}

/// A bus without a limit is never disconnected, whatever was done to it.
pub proof fn lemma_unbound_never_disconnects<E, L>(bus: BusModel<E, L>, ops: Seq<BusOp<E, L>>)
    requires
        bus.emit_limit == 0,
    ensures
        !bus.run(ops).disconnected(),
        bus.successes(ops) == BusModel::<E, L>::attempts(ops),
    decreases ops.len(),
{
    if ops.len() > 0 {
        let before = ops.drop_last();
        lemma_unbound_never_disconnects(bus, before);
        lemma_run_keeps_limit(bus, ops);
        lemma_run_keeps_limit(bus, before);
        assert(ops.take(ops.len() - 1) =~= before);
    }
}

/// A disconnected bus stays disconnected, and its count stays what it is.
pub proof fn lemma_disconnected_is_permanent<E, L>(bus: BusModel<E, L>, ops: Seq<BusOp<E, L>>)
    requires
        bus.disconnected(),
    ensures
        bus.run(ops).disconnected(),
        bus.run(ops).emit_count == bus.emit_count,
        bus.successes(ops) == 0,
    decreases ops.len(),
{
    if ops.len() > 0 {
        let before = ops.drop_last();
        lemma_disconnected_is_permanent(bus, before);
        assert(ops.take(ops.len() - 1) =~= before);
    }
}

/// A fresh bus with a limit counts its emissions up to the limit and no
/// further, and is disconnected from the emission that reaches the limit on.
pub proof fn lemma_bound_counts_to_limit<E, L>(limit: nat, ops: Seq<BusOp<E, L>>)
    requires
        limit > 0,
    ensures
        ({
            let bus = BusModel::<E, L>::fresh(limit);
            let tried = BusModel::<E, L>::attempts(ops);
            &&& bus.run(ops).emit_count == if tried <= limit { tried } else { limit }
            &&& bus.run(ops).disconnected() <==> tried >= limit
        }),
    decreases ops.len(),
{
    let bus = BusModel::<E, L>::fresh(limit);
    lemma_run_keeps_limit(bus, ops);
    if ops.len() > 0 {
        lemma_bound_counts_to_limit::<E, L>(limit, ops.drop_last());
        lemma_run_keeps_limit(bus, ops.drop_last());
    }
}

/// On a fresh bus with limit `limit`, an emission succeeds exactly when fewer
/// than `limit` emissions were attempted before it: the first `limit`
/// succeed, and every later one is refused.
pub proof fn lemma_disconnection_exactness<E, L>(limit: nat, ops: Seq<BusOp<E, L>>, index: int)
    requires
        limit > 0,
        0 <= index < ops.len(),
        ops[index] is Emit,
    ensures
        ({
            let bus = BusModel::<E, L>::fresh(limit);
            let earlier = BusModel::<E, L>::attempts(ops.take(index));
            &&& bus.succeeds_at(ops, index) <==> earlier < limit
            &&& bus.run(ops.take(index + 1)).disconnected() <==> earlier + 1 >= limit
        }),
{
    lemma_bound_counts_to_limit::<E, L>(limit, ops.take(index));
    lemma_bound_counts_to_limit::<E, L>(limit, ops.take(index + 1));
    assert(ops.take(index + 1).drop_last() =~= ops.take(index));
    assert(ops.take(index + 1).last() == ops[index]);
}

/// An emission of a key that never had a listener fires nothing and, on a bus
/// that is not disconnected, still counts.
pub proof fn lemma_emit_without_listeners<E, L>(bus: BusModel<E, L>, event: E)
    requires
        !bus.disconnected(),
        !bus.listeners.contains_key(event),
    ensures
        bus.fired(event) == Seq::<L>::empty(),
        bus.emitted().emit_count == bus.emit_count + 1,
        bus.emitted().listeners == bus.listeners,
{
}

} // verus!
