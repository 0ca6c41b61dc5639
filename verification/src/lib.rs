//! Ownership and scheduling core of a robot control library.
//!
//! Two concerns live here. [`pneumatics`] gives exclusive, statically checked
//! access to the solenoid channels of an actuator module, with a ladder of
//! representations that trade static knowledge for uniform storage.
//! [`reactor`] holds the bookkeeping that lets blocking hardware waits resume
//! cooperative tasks: the waker registry, the interrupt reactor's decisions and
//! the driver-input snapshots.
//!
//! Beside them stand [`dio`], the digital pins with their mode in the type,
//! [`error`], the faults of the hardware layer, and what the project's build
//! and maintenance programs decide: [`artifacts`] and [`tools`].
//!
//! The library performs no input or output of its own. Hardware is reached
//! through small traits that the embedding program implements; everything
//! between those edges is verified.

pub mod artifacts;
pub mod dio;
pub mod error;
pub mod pneumatics;
pub mod reactor;
mod sealed;
mod text;
pub mod tools;

use vstd::prelude::*;

verus! {

/// Adds two sizes. The sum must be a size as well.
pub fn add(left: usize, right: usize) -> (sum: usize)
    requires
        left + right <= usize::MAX,
    ensures
        sum == left + right,
{
    left + right
}

} // verus!
