//! Waking cooperative tasks upon external conditions: an interrupt line
//! fired, a new packet came from the driver station.
//!
//! Blocking hardware waits never run on a scheduler thread. One dedicated
//! thread per reactor or bridge makes them, and what it learns reaches the
//! tasks only through wakers and notifications. The threads themselves belong
//! to the embedding program. This module holds what they keep and decide:
//! the registry of pending wakers, the step of the interrupt reactor, the
//! step of the driver-input bridge, and the snapshots that the bridge serves.

pub mod dio;
pub mod driver_station;
pub mod interrupt;
pub mod waker_array;
