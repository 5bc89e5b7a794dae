//! The listener table: for each event key the listeners registered for it, in
//! the order of their registration.

use std::collections::HashMap;
use std::hash::Hash;
use std::sync::Arc;
use vstd::prelude::*;
use vstd::std_specs::hash::obeys_key_model;

verus! {

/// A table from event keys to shared listeners.
///
/// Listeners are held behind `Arc`, so that the listeners of a key can be
/// copied out and run after access to the table has been given up.
#[verifier::reject_recursive_types(E)]
pub struct ListenerTable<E, L> {
    slots: HashMap<E, Vec<Arc<L>>>,
    keys: KeyModel<E>,
}

/// Evidence that keys of type `E` are hashed and compared as the key model
/// of hash tables asks: equal keys are identical and hash alike.
pub struct KeyModel<E> {
    marker: core::marker::PhantomData<E>,
}

impl<E> KeyModel<E> {
    #[verifier::type_invariant]
    spec fn holds(self) -> bool {
        obeys_key_model::<E>()
    }

    /// The evidence, for a key type of which it is known.
    pub fn new() -> Self
        requires
            obeys_key_model::<E>(),
    {
        KeyModel { marker: core::marker::PhantomData }
    }
}

impl<E, L> View for ListenerTable<E, L> {
    type V = Map<E, Seq<Arc<L>>>;

    closed spec fn view(&self) -> Map<E, Seq<Arc<L>>> {
        Map::new(|event: E| self.slots@.contains_key(event), |event: E| self.slots@[event]@)
    }
}

impl<E, L> ListenerTable<E, L> {
    /// The listeners of `event` in registration order; none if there never was one.
    pub open spec fn listeners_for(&self, event: E) -> Seq<Arc<L>> {
        if self@.contains_key(event) {
            self@[event]
        } else {
            Seq::empty()
        }
    }
}

impl<E: Eq + Hash, L> ListenerTable<E, L> {
    /// An empty table. Keys must be hashed and compared as the key model asks.
    pub fn new() -> (table: Self)
        requires
            obeys_key_model::<E>(),
        ensures
            table@ == Map::<E, Seq<Arc<L>>>::empty(),
    {
        let table = ListenerTable { slots: HashMap::new(), keys: KeyModel::new() };
        assert(table@ =~= Map::<E, Seq<Arc<L>>>::empty());
        table
    }

    /// Appends `listener` to the listeners of `event`, which are created if
    /// there were none. No other key is touched.
    pub fn register(&mut self, event: E, listener: Arc<L>)
        ensures
            final(self)@ == old(self)@.insert(
                event,
                old(self).listeners_for(event).push(listener),
            ),
    {
        proof {
            use_type_invariant(&self.keys);
        }
        let mut row = match self.slots.remove(&event) {
            Some(row) => row,
            None => Vec::new(),
        };
        row.push(listener);
        self.slots.insert(event, row);
        assert(final(self)@ =~= old(self)@.insert(
            event,
            old(self).listeners_for(event).push(listener),
        ));
    }

    /// A copy of the listeners of `event`, in registration order.
    pub fn snapshot(&self, event: &E) -> (listeners: Vec<Arc<L>>)
        ensures
            listeners@ == self.listeners_for(*event),
    {
        proof {
            use_type_invariant(&self.keys);
        }
        let mut listeners: Vec<Arc<L>> = Vec::new();
        match self.slots.get(event) {
            Some(row) => {
                let mut index: usize = 0;
                while index < row.len()
                    invariant
                        index <= row.len(),
                        listeners@ == row@.take(index as int),
                    decreases row.len() - index,
                {
                    listeners.push(Arc::clone(&row[index]));
                    index = index + 1;
                }
                assert(row@.take(row.len() as int) =~= row@);
            },
            None => {},
        }
        listeners
    }
}

} // verus!
