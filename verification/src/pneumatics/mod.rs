//! # Pneumatics control
//!
//! Common interfaces for pneumatic hardware, and the solenoid types built on
//! them. A controller is partitioned once into channel capabilities, one per
//! physical channel. Capabilities are composed into single and double
//! solenoids ([`solenoid::TypedSolenoid`], [`solenoid::TypedDoubleSolenoid`]).
//! Where several solenoids must be stored together, the channel can be moved
//! from the type into a field ([`solenoid::ChannelErasedSolenoid`]), and the
//! controller type as well ([`solenoid::AnySolenoid`]).
//!
//! Support for the CTRE Pneumatics Control Module is in [`ctre_pcm`], support
//! for the REV Pneumatic Hub in [`rev_ph`]. Both share their controller among
//! its parts. [`ctre`] and [`rev`] lend the same controllers out instead, to
//! parts that live no longer than the loan.

pub mod bitset;
pub mod borrowed;
pub mod compressor;
pub mod ctre;
pub mod ctre_pcm;
pub mod rev;
pub mod rev_ph;
pub mod solenoid;

pub use self::bitset::{DoubleSolenoidState, InvalidDoubleSolenoidState};
pub use self::compressor::{Compressor, DigitalCompressor};
pub use self::solenoid::{
    AnyDoubleSolenoid, AnySolenoid, ChannelErasedDoubleSolenoid, ChannelErasedSolenoid,
    DoubleSolenoid, Solenoid, SolenoidChannel, SolenoidController, TypedDoubleSolenoid,
    TypedSolenoid,
};
