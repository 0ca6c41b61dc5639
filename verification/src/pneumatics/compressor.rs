//! Common interfaces of pneumatic compressors.
//!
//! What these methods return is read from the hardware at the moment of the
//! call. Readings that are physical quantities (the current drawn, the
//! pressure) are taken by the embedding program, which has the units for
//! them.

use vstd::prelude::*;

verus! {

/// Common functionality expected in all pneumatic compressors.
///
/// This trait is not very useful on its own. Compressors generally implement
/// [`DigitalCompressor`] as well, and may offer more of their own.
pub trait Compressor {
    /// Gets whether the compressor is currently compressing air.
    fn running(&self) -> bool;

    /// Disables the compressor, turning it off and preventing it from running.
    fn disable(&mut self);
}

/// For compressors with a connected digital pressure switch and digital
/// operation mode.
///
/// The pressure switch is set to a target pressure outside this library and
/// reports whether the actual pressure exceeds it. A compressor in digital
/// mode runs only while the switch reports a pressure below the target.
pub trait DigitalCompressor: Compressor {
    /// Gets the state of the pressure switch connected to the compressor.
    fn get_pressure_switch(&self) -> bool;

    /// Enables the compressor in digital mode. It runs while the pressure is
    /// below the limit of the connected pressure switch and turns off when
    /// the pressure exceeds it.
    fn enable_digital(&mut self);

    /// Returns whether the compressor is currently configured in digital mode.
    fn in_digital_mode(&self) -> bool;
}

/// Reads a truth value out of the word in which the hardware layer passes
/// it: zero is false, everything else is true.
pub fn flag_from_word(word: i32) -> (flag: bool)
    ensures
        flag == (word != 0),
{
    word != 0
}

/// Puts a truth value into the word in which the hardware layer takes it:
/// one for true, zero for false.
pub fn word_from_flag(flag: bool) -> (word: i32)
    ensures
        word == (if flag {
            1i32
        } else {
            0i32
        }),
{
    if flag {
        1
    } else {
        0
    }
}

} // verus!
