//! Solenoids of borrowed controllers with the kind of controller erased.
//!
//! The controllers that can be borrowed are known, so the erased solenoid is
//! one of them, and which one is told apart at runtime.

use crate::pneumatics::bitset::{DoubleSolenoidState, InvalidDoubleSolenoidState};
use crate::pneumatics::ctre::{AnyCtreDoubleSolenoid, AnyCtreSolenoid};
use crate::pneumatics::ctre_pcm::CtrePcmPort;
use crate::pneumatics::rev::{AnyRevDoubleSolenoid, AnyRevSolenoid};
use crate::pneumatics::rev_ph::RevPhPort;
use crate::pneumatics::solenoid::{DoubleSolenoid, Solenoid};
use vstd::prelude::*;

verus! {

/// A solenoid of any borrowed controller, with its mask stored at runtime.
pub enum GenericSolenoid<'a, C: CtrePcmPort, R: RevPhPort> {
    Ctre(AnyCtreSolenoid<'a, C>),
    Rev(AnyRevSolenoid<'a, R>),
}

/// A double solenoid of any borrowed controller, with its masks stored at
/// runtime.
pub enum GenericDoubleSolenoid<'a, C: CtrePcmPort, R: RevPhPort> {
    Ctre(AnyCtreDoubleSolenoid<'a, C>),
    Rev(AnyRevDoubleSolenoid<'a, R>),
}

/// A solenoid with channel and kind of controller erased and stored at
/// runtime.
pub struct AnySolenoid<'a, C: CtrePcmPort, R: RevPhPort> {
    solenoid: GenericSolenoid<'a, C, R>,
}

impl<'a, C: CtrePcmPort, R: RevPhPort> AnySolenoid<'a, C, R> {
    /// The solenoid inside.
    pub closed spec fn solenoid(&self) -> GenericSolenoid<'a, C, R> {
        self.solenoid
    }

    /// Wraps a solenoid of one of the known controllers.
    pub fn from_generic(solenoid: GenericSolenoid<'a, C, R>) -> (erased: Self)
        ensures
            erased.solenoid() == solenoid,
    {
        Self { solenoid }
    }
}

impl<'a, C: CtrePcmPort, R: RevPhPort> Solenoid for AnySolenoid<'a, C, R> {
    open spec fn mask(&self) -> u32 {
        match self.solenoid() {
            GenericSolenoid::Ctre(inner) => inner.mask(),
            GenericSolenoid::Rev(inner) => inner.mask(),
        }
    }

    open spec fn may_read(&self, bits: u32) -> bool {
        match self.solenoid() {
            GenericSolenoid::Ctre(inner) => inner.may_read(bits),
            GenericSolenoid::Rev(inner) => inner.may_read(bits),
        }
    }

    open spec fn may_write(&self, mask: u32, values: u32) -> bool {
        match self.solenoid() {
            GenericSolenoid::Ctre(inner) => inner.may_write(mask, values),
            GenericSolenoid::Rev(inner) => inner.may_write(mask, values),
        }
    }

    fn get(&self) -> (on: bool) {
        match &self.solenoid {
            GenericSolenoid::Ctre(inner) => {
                let on = inner.get();
                proof {
                    let bits = choose|bits: u32| #[trigger]
                        inner.may_read(bits) && on == (bits & inner.mask() != 0);
                    assert(self.may_read(bits));
                }
                on
            },
            GenericSolenoid::Rev(inner) => {
                let on = inner.get();
                proof {
                    let bits = choose|bits: u32| #[trigger]
                        inner.may_read(bits) && on == (bits & inner.mask() != 0);
                    assert(self.may_read(bits));
                }
                on
            },
        }
    }

    fn set(&mut self, state: bool)
        ensures
            *final(self) == *old(self),
    {
        match &mut self.solenoid {
            GenericSolenoid::Ctre(inner) => inner.set(state),
            GenericSolenoid::Rev(inner) => inner.set(state),
        }
    }
}

/// A double solenoid with channels and kind of controller erased and stored
/// at runtime.
pub struct AnyDoubleSolenoid<'a, C: CtrePcmPort, R: RevPhPort> {
    solenoid: GenericDoubleSolenoid<'a, C, R>,
}

impl<'a, C: CtrePcmPort, R: RevPhPort> AnyDoubleSolenoid<'a, C, R> {
    /// The double solenoid inside.
    pub closed spec fn solenoid(&self) -> GenericDoubleSolenoid<'a, C, R> {
        self.solenoid
    }

    /// Wraps a double solenoid of one of the known controllers.
    pub fn from_generic(solenoid: GenericDoubleSolenoid<'a, C, R>) -> (erased: Self)
        ensures
            erased.solenoid() == solenoid,
    {
        Self { solenoid }
    }
}

impl<'a, C: CtrePcmPort, R: RevPhPort> DoubleSolenoid for AnyDoubleSolenoid<'a, C, R> {
    open spec fn forward_mask(&self) -> u32 {
        match self.solenoid() {
            GenericDoubleSolenoid::Ctre(inner) => inner.forward_mask(),
            GenericDoubleSolenoid::Rev(inner) => inner.forward_mask(),
        }
    }

    open spec fn backward_mask(&self) -> u32 {
        match self.solenoid() {
            GenericDoubleSolenoid::Ctre(inner) => inner.backward_mask(),
            GenericDoubleSolenoid::Rev(inner) => inner.backward_mask(),
        }
    }

    open spec fn may_read(&self, bits: u32) -> bool {
        match self.solenoid() {
            GenericDoubleSolenoid::Ctre(inner) => inner.may_read(bits),
            GenericDoubleSolenoid::Rev(inner) => inner.may_read(bits),
        }
    }

    open spec fn may_write(&self, mask: u32, values: u32) -> bool {
        match self.solenoid() {
            GenericDoubleSolenoid::Ctre(inner) => inner.may_write(mask, values),
            GenericDoubleSolenoid::Rev(inner) => inner.may_write(mask, values),
        }
    }

    open spec fn state_in(&self, bits: u32) -> Result<
        DoubleSolenoidState,
        InvalidDoubleSolenoidState,
    > {
        match self.solenoid() {
            GenericDoubleSolenoid::Ctre(inner) => inner.state_in(bits),
            GenericDoubleSolenoid::Rev(inner) => inner.state_in(bits),
        }
    }

    fn get(&self) -> (state: Result<DoubleSolenoidState, InvalidDoubleSolenoidState>) {
        match &self.solenoid {
            GenericDoubleSolenoid::Ctre(inner) => {
                let state = inner.get();
                proof {
                    let bits = choose|bits: u32| #[trigger]
                        inner.may_read(bits) && state == inner.state_in(bits);
                    assert(self.may_read(bits));
                }
                state
            },
            GenericDoubleSolenoid::Rev(inner) => {
                let state = inner.get();
                proof {
                    let bits = choose|bits: u32| #[trigger]
                        inner.may_read(bits) && state == inner.state_in(bits);
                    assert(self.may_read(bits));
                }
                state
            },
        }
    }

    fn set(&mut self, state: DoubleSolenoidState)
        ensures
            *final(self) == *old(self),
    {
        match &mut self.solenoid {
            GenericDoubleSolenoid::Ctre(inner) => inner.set(state),
            GenericDoubleSolenoid::Rev(inner) => inner.set(state),
        }
    }
}

} // verus!
