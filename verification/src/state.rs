//! The emission count of a bus: when a bus is disconnected, what the count
//! becomes with an emission, and what an emission fires.

use crate::model::BusModel;
use crate::prelude::Error;
use crate::table::ListenerTable;
use std::hash::Hash;
use std::sync::Arc;
use vstd::prelude::*;

verus! {

/// Whether a bus with `count` emissions and limit `limit` is disconnected.
pub open spec fn spec_is_disconnected(count: usize, limit: usize) -> bool {
    limit != 0 && count == limit
}

/// Whether a bus with `count` emissions and limit `limit` is disconnected:
/// it has a limit and has reached it.
#[verifier::when_used_as_spec(spec_is_disconnected)]
pub fn is_disconnected(count: usize, limit: usize) -> (disconnected: bool)
    ensures
        disconnected == spec_is_disconnected(count, limit),
{
    count != 0 && count == limit
}

/// The count that a shared bus stores with one more emission, on a bus with
/// `count` emissions and limit `limit`.
///
/// A disconnected bus refuses. Otherwise the emission goes ahead and the
/// count grows by one; a count that has no successor in `usize` stays what
/// it is, so that a bus is never refused an emission for want of numbers.
pub fn next_count(count: usize, limit: usize) -> (next: Result<usize, Error>)
    ensures
        next == if is_disconnected(count, limit) {
            Err::<usize, Error>(Error::Disconnected)
        } else if count == usize::MAX {
            Ok::<usize, Error>(usize::MAX)
        } else {
            Ok::<usize, Error>((count + 1) as usize)
        },
{
    if is_disconnected(count, limit) {
        Err(Error::Disconnected)
    } else if count == usize::MAX {
        Ok(count)
    } else {
        Ok(count + 1)
    }
}

/// What an emission of `event` does to a shared bus with `count`
/// emissions, limit `limit` and listener table `table`: the count to store
/// and the listeners to run, in registration order.
///
/// A disconnected bus refuses with `Disconnected`. Otherwise the listeners
/// of `event` are those to run, and the count grows by one, unless it has
/// no successor in `usize`: then it stays what it is.
pub fn plan_emission<E: Eq + Hash, L>(
    table: &ListenerTable<E, L>,
    count: usize,
    limit: usize,
    event: &E,
) -> (plan: Result<(usize, Vec<Arc<L>>), Error>)
    ensures
        ({
            let bus = BusModel { listeners: table@, emit_count: count as nat, emit_limit: limit as nat };
            match plan {
                Ok((next, listeners)) => {
                    &&& !bus.disconnected()
                    &&& next == if count < usize::MAX {
                        bus.emitted().emit_count
                    } else {
                        bus.emit_count
                    }
                    &&& listeners@ == bus.fired(*event)
                },
                Err(error) => error == Error::Disconnected && bus.disconnected(),
            }
        }),
{
    match next_count(count, limit) {
        Ok(next) => Ok((next, table.snapshot(event))),
        Err(error) => Err(error),
    }
}

/// The emission counter of a bus, with its limit. A limit of zero is none.
pub struct EmitCounter {
    count: usize,
    limit: usize,
}

impl EmitCounter {
    #[verifier::type_invariant]
    spec fn within_limit(self) -> bool {
        self.limit != 0 ==> self.count <= self.limit
    }

    /// The emissions counted so far.
    pub closed spec fn count(&self) -> nat {
        self.count as nat
    }

    /// The limit; zero for none.
    pub closed spec fn limit(&self) -> nat {
        self.limit as nat
    }

    /// The counter has a limit and has reached it.
    pub open spec fn disconnected(&self) -> bool {
        self.limit() != 0 && self.count() == self.limit()
    }

    /// The count has no successor in `usize`. With a limit this is the case
    /// only once the bus is disconnected.
    pub open spec fn exhausted(&self) -> bool {
        self.count() == usize::MAX
    }

    /// A counter at zero with limit `limit`.
    pub fn new(limit: usize) -> (counter: Self)
        ensures
            counter.count() == 0,
            counter.limit() == limit,
    {
        EmitCounter { count: 0, limit }
    }

    /// The emissions counted so far. With a limit, never more than it.
    pub fn current(&self) -> (count: usize)
        ensures
            count == self.count(),
            self.limit() != 0 ==> count <= self.limit(),
    {
        proof {
            use_type_invariant(self);
        }
        self.count
    }

    /// Whether the counter has a limit and has reached it.
    pub fn is_disconnected(&self) -> (disconnected: bool)
        ensures
            disconnected == self.disconnected(),
    {
        is_disconnected(self.count, self.limit)
    }

    /// Counts one more emission, unless the counter is disconnected: then it
    /// stays as it is and the emission is refused.
    pub fn advance(&mut self) -> (outcome: Result<(), Error>)
        requires
            old(self).disconnected() || !old(self).exhausted(),
        ensures
            final(self).limit() == old(self).limit(),
            old(self).disconnected() ==> outcome == Err::<(), Error>(Error::Disconnected)
                && final(self).count() == old(self).count(),
            !old(self).disconnected() ==> outcome == Ok::<(), Error>(()) && final(self).count()
                == old(self).count() + 1,
    {
        proof {
            use_type_invariant(&*self);
        }
        match next_count(self.count, self.limit) {
            Ok(next) => {
                self.count = next;
                Ok(())
            },
            Err(error) => Err(error),
        }
    }
}

} // verus!
