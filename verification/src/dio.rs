//! The digital pins of the built-in port, with their mode in the type.
//!
//! A pin is uninitialised, an input, or an output, and changes its mode by
//! value: the old pin is consumed and the new one comes back. The calls into
//! the hardware layer that go with a change are made by the embedding
//! program, which hands in the handle that it obtained.

use crate::sealed::Sealed;
use std::marker::PhantomData;
use vstd::prelude::*;

verus! {

/// The modes of a pin. The three of this module are all there are.
pub trait PinMode: Sealed {

}

/// Input pin mode (typestate)
pub struct Input;

/// Output pin mode (typestate)
pub struct Output;

/// Uninitialized pin mode (typestate)
pub struct Uninitialized;

impl Sealed for Input {

}

impl PinMode for Input {

}

impl Sealed for Output {

}

impl PinMode for Output {

}

impl Sealed for Uninitialized {

}

impl PinMode for Uninitialized {

}

/// The handle of a pin that the hardware layer has not opened.
pub const NO_HANDLE: i32 = 0;

/// A digital pin on the built-in port. `N` is the number of the pin.
pub struct Dio<const N: u8, MODE: PinMode = Uninitialized> {
    handle: i32,
    _mode: PhantomData<MODE>,
}

impl<const N: u8, MODE: PinMode> Dio<N, MODE> {
    /// The handle under which the hardware layer knows this pin, or
    /// [`NO_HANDLE`].
    pub closed spec fn handle(&self) -> i32 {
        self.handle
    }

    /// Gives the handle of this pin.
    pub fn raw_handle(&self) -> (handle: i32)
        ensures
            handle == self.handle(),
    {
        self.handle
    }

    /// Whether the hardware layer holds a port for this pin that has to be
    /// freed when the pin goes away.
    pub fn is_open(&self) -> (open: bool)
        ensures
            open == (self.handle() != NO_HANDLE),
    {
        self.handle != NO_HANDLE
    }
}

impl<const N: u8> Dio<N, Uninitialized> {
    /// Creates a new digital pin. Use it only where no other value stands
    /// for this pin: two of them do no harm to memory, but they race when
    /// both change the state of the pin.
    pub fn new_uninit() -> (pin: Self)
        ensures
            pin.handle() == NO_HANDLE,
    {
        Self { handle: NO_HANDLE, _mode: PhantomData }
    }

    /// Makes the pin an input. `handle` is what the hardware layer returned
    /// when the port was opened for reading.
    pub fn into_input(self, handle: i32) -> (pin: Dio<N, Input>)
        ensures
            pin.handle() == handle,
    {
        Dio { handle, _mode: PhantomData }
    }

    /// Makes the pin an output. `handle` is what the hardware layer returned
    /// when the port was opened for writing.
    pub fn into_output(self, handle: i32) -> (pin: Dio<N, Output>)
        ensures
            pin.handle() == handle,
    {
        Dio { handle, _mode: PhantomData }
    }
}

impl<const N: u8> Dio<N, Input> {
    /// Makes the input an output, once the direction of the port has been
    /// turned. The port stays open under the same handle.
    pub fn into_output(self) -> (pin: Dio<N, Output>)
        ensures
            pin.handle() == self.handle(),
    {
        Dio { handle: self.handle, _mode: PhantomData }
    }
}

impl<const N: u8> Dio<N, Output> {
    /// Makes the output an uninitialised pin, once the port has been freed.
    pub fn into_uninit(self) -> (pin: Dio<N, Uninitialized>)
        ensures
            pin.handle() == NO_HANDLE,
    {
        Dio { handle: NO_HANDLE, _mode: PhantomData }
    }

    /// Makes the output an input, once the direction of the port has been
    /// turned. The port stays open under the same handle.
    pub fn into_input(self) -> (pin: Dio<N, Input>)
        ensures
            pin.handle() == self.handle(),
    {
        Dio { handle: self.handle, _mode: PhantomData }
    }
}

/// Whether the word that the hardware layer read from a pin means a high
/// level: every word but zero does.
pub fn level_is_high(word: i32) -> (high: bool)
    ensures
        high == (word != 0),
{
    word != 0
}

/// The word that the hardware layer takes for a level: one for high, zero
/// for low.
pub fn word_for_level(high: bool) -> (word: i32)
    ensures
        word == (if high {
            1i32
        } else {
            0i32
        }),
        (word != 0) == high,
{
    if high {
        1
    } else {
        0
    }
}

pub type Dio1 = Dio<1>;

pub type Dio2 = Dio<2>;

pub type Dio3 = Dio<3>;

pub type Dio4 = Dio<4>;

pub type Dio5 = Dio<5>;

pub type Dio6 = Dio<6>;

pub type Dio7 = Dio<7>;

pub type Dio8 = Dio<8>;

pub type Dio9 = Dio<9>;

/// The pins of the built-in port, one of each.
pub struct DioPort {
    pub dio1: Dio1,
    pub dio2: Dio2,
    pub dio3: Dio3,
    pub dio4: Dio4,
    pub dio5: Dio5,
    pub dio6: Dio6,
    pub dio7: Dio7,
    pub dio8: Dio8,
    pub dio9: Dio9,
}

impl DioPort {
    /// Whether every pin of the port is uninitialised.
    pub open spec fn is_fresh(&self) -> bool {
        &&& self.dio1.handle() == NO_HANDLE
        &&& self.dio2.handle() == NO_HANDLE
        &&& self.dio3.handle() == NO_HANDLE
        &&& self.dio4.handle() == NO_HANDLE
        &&& self.dio5.handle() == NO_HANDLE
        &&& self.dio6.handle() == NO_HANDLE
        &&& self.dio7.handle() == NO_HANDLE
        &&& self.dio8.handle() == NO_HANDLE
        &&& self.dio9.handle() == NO_HANDLE
    }

    /// Takes the port, which can be done once. `previously_taken` is what
    /// the caller's flag held before the caller set it; a port that was
    /// taken before is not given out again.
    pub fn take(previously_taken: bool) -> (port: Option<Self>)
        ensures
            port is Some <==> !previously_taken,
            port matches Some(p) ==> p.is_fresh(),
    {
        if previously_taken {
            None
        } else {
            Some(
                Self {
                    dio1: Dio1::new_uninit(),
                    dio2: Dio2::new_uninit(),
                    dio3: Dio3::new_uninit(),
                    dio4: Dio4::new_uninit(),
                    dio5: Dio5::new_uninit(),
                    dio6: Dio6::new_uninit(),
                    dio7: Dio7::new_uninit(),
                    dio8: Dio8::new_uninit(),
                    dio9: Dio9::new_uninit(),
                },
            )
        }
    }
}

} // verus!
