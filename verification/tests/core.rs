use std::cell::RefCell;
use std::rc::Rc;
use std::sync::Arc;
use tram::event_bus::BusRef;
use tram::listener::{listener_from, notify_all, Callback, Listener};
use tram::prelude::Error;
use tram::shared::{Guarded, Locked};
use tram::state::{is_disconnected, next_count, plan_emission, EmitCounter};
use tram::table::ListenerTable;

#[test]
fn is_disconnected_needs_a_limit_that_is_reached() {
    assert!(!is_disconnected(0, 0));
    assert!(!is_disconnected(7, 0));
    assert!(!is_disconnected(0, 5));
    assert!(!is_disconnected(4, 5));
    assert!(is_disconnected(5, 5));
    assert!(!is_disconnected(6, 5));
    assert!(is_disconnected(usize::MAX, usize::MAX));
}

#[test]
fn next_count_grows_by_one_until_the_limit() {
    assert_eq!(next_count(0, 0), Ok(1));
    assert_eq!(next_count(41, 0), Ok(42));
    assert_eq!(next_count(0, 1), Ok(1));
    assert_eq!(next_count(4, 5), Ok(5));
    assert_eq!(next_count(5, 5), Err(Error::Disconnected));
    assert_eq!(next_count(usize::MAX - 1, usize::MAX), Ok(usize::MAX));
    assert_eq!(next_count(usize::MAX, usize::MAX), Err(Error::Disconnected));
}

#[test]
fn next_count_keeps_a_count_without_successor() {
    assert_eq!(next_count(usize::MAX, 0), Ok(usize::MAX));
    assert_eq!(next_count(usize::MAX, 3), Ok(usize::MAX));
    assert_eq!(next_count(usize::MAX - 1, 0), Ok(usize::MAX));
}

#[test]
fn emit_counter_counts_to_its_limit() {
    let mut counter = EmitCounter::new(2);
    assert_eq!(counter.current(), 0);
    assert!(!counter.is_disconnected());
    assert_eq!(counter.advance(), Ok(()));
    assert_eq!(counter.current(), 1);
    assert!(!counter.is_disconnected());
    assert_eq!(counter.advance(), Ok(()));
    assert_eq!(counter.current(), 2);
    assert!(counter.is_disconnected());
    assert_eq!(counter.advance(), Err(Error::Disconnected));
    assert_eq!(counter.current(), 2);
    assert!(counter.is_disconnected());
}

#[test]
fn emit_counter_without_limit_keeps_counting() {
    let mut counter = EmitCounter::new(0);
    for done in 0..50usize {
        assert_eq!(counter.current(), done);
        assert_eq!(counter.advance(), Ok(()));
        assert!(!counter.is_disconnected());
    }
}

#[test]
fn table_keeps_registration_order_per_key() {
    let mut table: ListenerTable<u8, u32> = ListenerTable::new();
    assert!(table.snapshot(&1).is_empty());
    table.register(1, Arc::new(10));
    table.register(2, Arc::new(20));
    table.register(1, Arc::new(11));
    table.register(1, Arc::new(12));
    let ones: Vec<u32> = table.snapshot(&1).iter().map(|l| **l).collect();
    let twos: Vec<u32> = table.snapshot(&2).iter().map(|l| **l).collect();
    assert_eq!(ones, vec![10, 11, 12]);
    assert_eq!(twos, vec![20]);
    assert!(table.snapshot(&3).is_empty());
}

#[test]
fn table_snapshot_shares_the_listeners_and_is_not_changed_later() {
    let mut table: ListenerTable<u8, u32> = ListenerTable::new();
    let first = Arc::new(1u32);
    table.register(9, Arc::clone(&first));
    let snapshot = table.snapshot(&9);
    assert!(Arc::ptr_eq(&snapshot[0], &first));
    table.register(9, Arc::new(2));
    assert_eq!(snapshot.len(), 1);
    assert_eq!(table.snapshot(&9).len(), 2);
}

#[test]
fn plan_emission_counts_and_hands_out_the_listeners() {
    let mut table: ListenerTable<u8, u32> = ListenerTable::new();
    table.register(1, Arc::new(10));
    table.register(1, Arc::new(11));
    let (next, listeners) = plan_emission(&table, 3, 5, &1).unwrap();
    assert_eq!(next, 4);
    let fired: Vec<u32> = listeners.iter().map(|l| **l).collect();
    assert_eq!(fired, vec![10, 11]);
    let (next, listeners) = plan_emission(&table, 0, 0, &2).unwrap();
    assert_eq!(next, 1);
    assert!(listeners.is_empty());
}

#[test]
fn plan_emission_refuses_when_disconnected() {
    let mut table: ListenerTable<u8, u32> = ListenerTable::new();
    table.register(1, Arc::new(10));
    assert_eq!(plan_emission(&table, 5, 5, &1).err(), Some(Error::Disconnected));
    assert_eq!(plan_emission(&table, 1, 1, &2).err(), Some(Error::Disconnected));
}

#[test]
fn plan_emission_goes_ahead_when_the_count_has_no_successor() {
    let mut table: ListenerTable<u8, u32> = ListenerTable::new();
    table.register(1, Arc::new(10));
    let (next, listeners) = plan_emission(&table, usize::MAX, 0, &1).unwrap();
    assert_eq!(next, usize::MAX);
    assert_eq!(listeners.len(), 1);
}

#[test]
fn guarded_state_registers_counts_and_refuses() {
    let mut state: Guarded<u8, u32> = Guarded::new();
    assert_eq!(state.count(), 0);
    state.register(1, Arc::new(10));
    state.register(1, Arc::new(11));
    state.register(2, Arc::new(20));
    assert_eq!(state.count(), 0);
    let fired: Vec<u32> = state.begin_emit(2, &1).unwrap().iter().map(|l| **l).collect();
    assert_eq!(fired, vec![10, 11]);
    assert_eq!(state.count(), 1);
    assert!(state.begin_emit(2, &3).unwrap().is_empty());
    assert_eq!(state.count(), 2);
    assert_eq!(state.begin_emit(2, &1).err(), Some(Error::Disconnected));
    assert_eq!(state.count(), 2);
    let fired: Vec<u32> = state.begin_emit(0, &2).unwrap().iter().map(|l| **l).collect();
    assert_eq!(fired, vec![20]);
    assert_eq!(state.count(), 3);
}

#[test]
fn callback_runs_its_closure_with_the_payload() {
    let seen: Rc<RefCell<Vec<Option<u8>>>> = Rc::new(RefCell::new(Vec::new()));
    let seen_closure = Rc::clone(&seen);
    let callback = Callback::new(move |value: Option<&u8>| {
        seen_closure.borrow_mut().push(value.copied());
    });
    callback.notify(Some(&4));
    callback.notify(None);
    assert_eq!(*seen.borrow(), vec![Some(4), None]);
}

#[test]
fn notify_all_runs_every_listener_once_in_order() {
    let log: Rc<RefCell<Vec<(u8, Option<u8>)>>> = Rc::new(RefCell::new(Vec::new()));
    let mut listeners = Vec::new();
    for name in 0..4u8 {
        let log_closure = Rc::clone(&log);
        listeners.push(listener_from(move |value: Option<&u8>| {
            log_closure.borrow_mut().push((name, value.copied()));
        }));
    }
    notify_all(&listeners, Some(&7));
    assert_eq!(
        *log.borrow(),
        vec![(0, Some(7)), (1, Some(7)), (2, Some(7)), (3, Some(7))]
    );
    notify_all(&Vec::new(), Some(&7u8));
    assert_eq!(log.borrow().len(), 4);
}

#[test]
fn owned_bus_bound_five_scenario() {
    let mut bus: BusRef<&'static str, ()> = BusRef::bound(5);
    let counter = Rc::new(RefCell::new(0u32));
    let counter_closure = Rc::clone(&counter);
    assert_eq!(
        bus.on("A", move |_| {
            *counter_closure.borrow_mut() += 1;
        }),
        Ok(())
    );
    for done in 0..5usize {
        assert!(!bus.disconnected());
        assert_eq!(bus.event_count(), done);
        assert_eq!(bus.emit("A"), Ok(()));
    }
    assert_eq!(*counter.borrow(), 5);
    assert_eq!(bus.event_count(), 5);
    assert!(bus.disconnected());
    assert_eq!(bus.emit("A"), Err(Error::Disconnected));
    assert_eq!(*counter.borrow(), 5);
    assert_eq!(bus.event_count(), 5);
    assert!(bus.disconnected());
}

#[test]
fn owned_bus_order_and_payload() {
    let mut bus: BusRef<u8, u32> = BusRef::unbound();
    let log: Rc<RefCell<Vec<(u8, Option<u32>)>>> = Rc::new(RefCell::new(Vec::new()));
    for name in 1..=3u8 {
        let log_closure = Rc::clone(&log);
        bus.on(5, move |value| {
            log_closure.borrow_mut().push((name, value.copied()));
        })
        .unwrap();
    }
    bus.emit_with_value(5, Some(&123)).unwrap();
    bus.emit(5).unwrap();
    assert_eq!(
        *log.borrow(),
        vec![(1, Some(123)), (2, Some(123)), (3, Some(123)), (1, None), (2, None), (3, None)]
    );
    assert_eq!(bus.event_count(), 2);
}

#[test]
fn owned_bus_emit_without_listeners_counts() {
    let mut bus: BusRef<u8, ()> = BusRef::unbound();
    assert_eq!(bus.emit(1), Ok(()));
    assert_eq!(bus.emit_with_value(2, Some(&())), Ok(()));
    assert_eq!(bus.event_count(), 2);
    assert!(!bus.disconnected());
}

#[test]
fn owned_bus_begin_emit_hands_out_the_listeners_after_counting() {
    let mut bus: BusRef<u8, u8> = BusRef::bound(1);
    let hits = Rc::new(RefCell::new(0u32));
    let hits_closure = Rc::clone(&hits);
    bus.on(1, move |_| {
        *hits_closure.borrow_mut() += 1;
    })
    .unwrap();
    let listeners = bus.begin_emit(&1).unwrap();
    assert_eq!(listeners.len(), 1);
    assert_eq!(bus.event_count(), 1);
    assert_eq!(*hits.borrow(), 0);
    notify_all(&listeners, None);
    assert_eq!(*hits.borrow(), 1);
    assert_eq!(bus.begin_emit(&1).err(), Some(Error::Disconnected));
    assert_eq!(bus.event_count(), 1);
}

#[test]
fn locked_state_counts_and_snapshots() {
    let shared: Locked<u8, u32> = Locked::new(2);
    let other = shared.clone();
    assert_eq!(shared.register(1, Arc::new(10)), Ok(()));
    assert_eq!(other.register(1, Arc::new(11)), Ok(()));
    let fired: Vec<u32> = shared.begin_emit(&1).unwrap().iter().map(|l| **l).collect();
    assert_eq!(fired, vec![10, 11]);
    assert_eq!(other.event_count(), 1);
    assert!(!other.disconnected());
    assert!(other.begin_emit(&2).unwrap().is_empty());
    assert_eq!(shared.event_count(), 2);
    assert!(shared.disconnected());
    assert_eq!(shared.begin_emit(&1).err(), Some(Error::Disconnected));
    assert_eq!(shared.event_count(), 2);
    assert_eq!(shared.register(1, Arc::new(12)), Ok(()));
}
