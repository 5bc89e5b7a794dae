//! An in-process event bus: listeners are registered against event keys and
//! run synchronously, in registration order, each time their key is emitted.
//!
//! * [`model`] is the mathematical description of a bus and the laws it obeys.
//! * [`table`], [`state`], [`listener`] and [`shared`] are the verified
//!   parts that the buses are made of.
//! * [`event_bus`] holds the owned bus and a handle that shares one behind a
//!   mutex; [`sync`] and [`unsync`] hold the other shared handles, and
//!   [`prelude`] the error type, the emitter capability and the bus of a
//!   single owner.
//! * [`access`] names the locks and cells of the standard library that the
//!   handles rest on.
//!
//! Every handle copies the listeners of the emitted key out while it has
//! access to the listener table, gives the access up, and only then runs the
//! listeners. A listener may therefore register listeners or emit events on
//! the bus that is running it.

pub mod access;
pub mod event_bus;
pub mod listener;
pub mod model;
pub mod prelude;
pub mod shared;
pub mod state;
pub mod sync;
pub mod table;
pub mod unsync;
