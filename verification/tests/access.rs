use std::cell::RefCell;
use std::hash::{Hash, Hasher};
use std::rc::Rc;
use tram::prelude::{Error, EventEmitter};
use tram::unsync::EventBus;

/// What a probing key reports to: the bus it re-enters and what came back.
struct Probe {
    bus: RefCell<Option<EventBus<Key, ()>>>,
    emitted: RefCell<Vec<Result<(), Error>>>,
    registered: RefCell<Vec<Result<(), Error>>>,
    counts: RefCell<Vec<usize>>,
}

/// A key that uses the bus while it is being hashed, that is while the bus
/// has its listener table borrowed.
struct Key {
    id: u8,
    probe: Option<Rc<Probe>>,
}

impl PartialEq for Key {
    fn eq(&self, other: &Key) -> bool {
        self.id == other.id
    }
}

impl Eq for Key {}

impl Hash for Key {
    fn hash<H: Hasher>(&self, state: &mut H) {
        if let Some(probe) = &self.probe {
            if let Some(bus) = probe.bus.borrow().as_ref() {
                probe.counts.borrow_mut().push(bus.event_count());
                probe.emitted.borrow_mut().push(bus.emit(Key { id: 0, probe: None }));
                probe.registered.borrow_mut().push(bus.on(Key { id: 0, probe: None }, |_| {}));
                probe.counts.borrow_mut().push(bus.event_count());
            }
        }
        self.id.hash(state);
    }
}

fn probe_for(bus: &EventBus<Key, ()>) -> Rc<Probe> {
    Rc::new(Probe {
        bus: RefCell::new(Some(bus.clone())),
        emitted: RefCell::new(Vec::new()),
        registered: RefCell::new(Vec::new()),
        counts: RefCell::new(Vec::new()),
    })
}

#[test]
fn bus_lock_when_the_table_is_mutably_borrowed() {
    let bus: EventBus<Key, ()> = EventBus::unbound();
    bus.emit(Key { id: 0, probe: None }).unwrap();
    let probe = probe_for(&bus);
    assert_eq!(bus.on(Key { id: 1, probe: Some(Rc::clone(&probe)) }, |_| {}), Ok(()));
    assert!(!probe.emitted.borrow().is_empty());
    for outcome in probe.emitted.borrow().iter() {
        assert_eq!(*outcome, Err(Error::BusLock));
    }
    for outcome in probe.registered.borrow().iter() {
        assert_eq!(*outcome, Err(Error::BusLock));
    }
    for count in probe.counts.borrow().iter() {
        assert_eq!(*count, 1);
    }
    assert_eq!(bus.event_count(), 1);
    *probe.bus.borrow_mut() = None;
}

#[test]
fn shared_borrow_lets_an_emission_in_and_keeps_a_registration_out() {
    let bus: EventBus<Key, ()> = EventBus::unbound();
    bus.on(Key { id: 5, probe: None }, |_| {}).unwrap();
    let probe = probe_for(&bus);
    assert_eq!(bus.emit(Key { id: 1, probe: Some(Rc::clone(&probe)) }), Ok(()));
    assert!(!probe.emitted.borrow().is_empty());
    for outcome in probe.emitted.borrow().iter() {
        assert_eq!(*outcome, Ok(()));
    }
    for outcome in probe.registered.borrow().iter() {
        assert_eq!(*outcome, Err(Error::BusLock));
    }
    assert_eq!(bus.event_count(), 1 + probe.emitted.borrow().len());
    *probe.bus.borrow_mut() = None;
}
