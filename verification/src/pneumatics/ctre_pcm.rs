//! Support for the CTRE Pneumatics Control Module: a controller of eight
//! solenoid channels with a compressor in digital mode.

use crate::pneumatics::bitset::{bits_from_word, bits_of_word, word_from_bits, word_of_bits};
use crate::pneumatics::compressor::{flag_from_word, word_from_flag, Compressor, DigitalCompressor};
use crate::pneumatics::solenoid::{share, Reissue, SolenoidChannel, SolenoidController};
use std::sync::Arc;
use vstd::prelude::*;

verus! {

/// What the hardware layer offers for one opened Pneumatics Control Module.
///
/// Words cross this boundary as the hardware layer has them: bitsets as
/// signed 32-bit words, truth values as zero and non-zero. A fault of the
/// hardware layer is fatal and does not come back from these calls.
pub trait CtrePcmPort: Send + Sync {
    /// Reads the state of all solenoids.
    fn solenoids(&self) -> i32;

    /// Writes the solenoids selected by `mask` to their bits in `values`.
    fn set_solenoids(&self, mask: i32, values: i32);

    /// Reads whether the compressor is running.
    fn compressor(&self) -> i32;

    /// Reads the pressure switch.
    fn pressure_switch(&self) -> i32;

    /// Reads whether closed-loop control of the compressor is enabled.
    fn closed_loop_control(&self) -> i32;

    /// Enables or disables closed-loop control of the compressor.
    fn set_closed_loop_control(&self, enabled: i32);
}

/// A CTRE Pneumatics Control Module, reached through its port.
pub struct CtrePcm<Port: CtrePcmPort> {
    port: Port,
}

impl<Port: CtrePcmPort> CtrePcm<Port> {
    /// The port through which this module is reached.
    pub closed spec fn port(&self) -> Port {
        self.port
    }

    /// Takes charge of an opened module.
    pub fn from_port(port: Port) -> (pcm: Self)
        ensures
            pcm.port() == port,
    {
        Self { port }
    }

    /// Gives the port through which this module is reached.
    pub(crate) fn port_ref(&self) -> (port: &Port)
        ensures
            *port == self.port(),
    {
        &self.port
    }

    /// Gives the port back, for the embedding program to close the module.
    pub fn into_port(self) -> (port: Port)
        ensures
            port == self.port(),
    {
        self.port
    }

    /// Partitions the module into its compressor and its eight solenoid
    /// channels. Every part refers to this module, and each channel number
    /// is given out once: the module is consumed, so no second partition
    /// can follow.
    pub fn into_parts(self) -> (parts: (CtreCompressor<Port>, CtrePneumatics<Port>))
        ensures
            parts.0.controller() == self,
            parts.1.channel0.controller() == self,
            parts.1.channel1.controller() == self,
            parts.1.channel2.controller() == self,
            parts.1.channel3.controller() == self,
            parts.1.channel4.controller() == self,
            parts.1.channel5.controller() == self,
            parts.1.channel6.controller() == self,
            parts.1.channel7.controller() == self,
    {
        let arc = Arc::new(self);
        (
            CtreCompressor { pcm: share(&arc) },
            CtrePneumatics {
                channel0: CtreChannel0 { pcm: share(&arc) },
                channel1: CtreChannel1 { pcm: share(&arc) },
                channel2: CtreChannel2 { pcm: share(&arc) },
                channel3: CtreChannel3 { pcm: share(&arc) },
                channel4: CtreChannel4 { pcm: share(&arc) },
                channel5: CtreChannel5 { pcm: share(&arc) },
                channel6: CtreChannel6 { pcm: share(&arc) },
                channel7: CtreChannel7 { pcm: arc },
            },
        )
    }
}

impl<Port: CtrePcmPort> SolenoidController for CtrePcm<Port> {
    /// A read is a call of the port's `solenoids`, and the bitset is what
    /// the word that came back carries.
    open spec fn may_read(&self, bits: u32) -> bool {
        exists|word: i32| #[trigger]
            call_ensures(Port::solenoids, (&self.port(),), word) && bits == bits_of_word(word)
    }

    /// A write is a call of the port's `set_solenoids` with the words that
    /// carry the mask and the values.
    open spec fn may_write(&self, mask: u32, values: u32) -> bool {
        call_ensures(
            Port::set_solenoids,
            (&self.port(), word_of_bits(mask), word_of_bits(values)),
            (),
        )
    }

    fn get_solenoid_bitset(&self) -> (bits: u32) {
        let word = self.port.solenoids();
        assert(call_ensures(Port::solenoids, (&self.port(),), word));
        bits_from_word(word)
    }

    fn set_solenoid_bitset(&self, mask: u32, values: u32) {
        self.port.set_solenoids(word_from_bits(mask), word_from_bits(values));
    }
}

/// The compressor of a Pneumatics Control Module.
pub struct CtreCompressor<Port: CtrePcmPort> {
    pcm: Arc<CtrePcm<Port>>,
}

impl<Port: CtrePcmPort> CtreCompressor<Port> {
    /// The module that this compressor belongs to.
    pub closed spec fn controller(&self) -> CtrePcm<Port> {
        *self.pcm
    }
}

impl<Port: CtrePcmPort> Compressor for CtreCompressor<Port> {
    /// Reads the port's `compressor` once; every word but zero means
    /// running.
    fn running(&self) -> (on: bool)
        ensures
            exists|word: i32| #[trigger]
                call_ensures(Port::compressor, (&self.controller().port(),), word) && on == (word
                    != 0),
    {
        let word = self.pcm.port_ref().compressor();
        assert(call_ensures(Port::compressor, (&self.controller().port(),), word));
        flag_from_word(word)
    }

    /// Switches closed-loop control off with one call of the port's
    /// `set_closed_loop_control`.
    fn disable(&mut self)
        ensures
            final(self).controller() == old(self).controller(),
            call_ensures(
                Port::set_closed_loop_control,
                (&old(self).controller().port(), 0i32),
                (),
            ),
    {
        self.pcm.port_ref().set_closed_loop_control(word_from_flag(false));
    }
}

impl<Port: CtrePcmPort> DigitalCompressor for CtreCompressor<Port> {
    /// Reads the port's `pressure_switch` once; every word but zero means
    /// that the switch is set.
    fn get_pressure_switch(&self) -> (on: bool)
        ensures
            exists|word: i32| #[trigger]
                call_ensures(Port::pressure_switch, (&self.controller().port(),), word) && on == (
                word != 0),
    {
        let word = self.pcm.port_ref().pressure_switch();
        assert(call_ensures(Port::pressure_switch, (&self.controller().port(),), word));
        flag_from_word(word)
    }

    /// Switches closed-loop control on with one call of the port's
    /// `set_closed_loop_control`.
    fn enable_digital(&mut self)
        ensures
            final(self).controller() == old(self).controller(),
            call_ensures(
                Port::set_closed_loop_control,
                (&old(self).controller().port(), 1i32),
                (),
            ),
    {
        self.pcm.port_ref().set_closed_loop_control(word_from_flag(true));
    }

    /// Reads the port's `closed_loop_control` once; every word but zero
    /// means digital mode.
    fn in_digital_mode(&self) -> (on: bool)
        ensures
            exists|word: i32| #[trigger]
                call_ensures(Port::closed_loop_control, (&self.controller().port(),), word) && on
                    == (word != 0),
    {
        let word = self.pcm.port_ref().closed_loop_control();
        assert(call_ensures(Port::closed_loop_control, (&self.controller().port(),), word));
        flag_from_word(word)
    }
}

/// Channel 0 of a Pneumatics Control Module.
pub struct CtreChannel0<Port: CtrePcmPort> {
    pcm: Arc<CtrePcm<Port>>,
}

impl<Port: CtrePcmPort> SolenoidChannel for CtreChannel0<Port> {
    const CHANNEL: u32 = 0;

    type Controller = CtrePcm<Port>;

    closed spec fn controller(&self) -> CtrePcm<Port> {
        *self.pcm
    }

    proof fn channel_in_range()
        ensures
            Self::CHANNEL == 0,
    {
    }

    fn into_controller(self) -> (controller: Arc<CtrePcm<Port>>) {
        self.pcm
    }

    fn new(controller: Arc<CtrePcm<Port>>, _leave: Reissue) -> (channel: Self) {
        Self { pcm: controller }
    }
}

/// Channel 1 of a Pneumatics Control Module.
pub struct CtreChannel1<Port: CtrePcmPort> {
    pcm: Arc<CtrePcm<Port>>,
}

impl<Port: CtrePcmPort> SolenoidChannel for CtreChannel1<Port> {
    const CHANNEL: u32 = 1;

    type Controller = CtrePcm<Port>;

    closed spec fn controller(&self) -> CtrePcm<Port> {
        *self.pcm
    }

    proof fn channel_in_range()
        ensures
            Self::CHANNEL == 1,
    {
    }

    fn into_controller(self) -> (controller: Arc<CtrePcm<Port>>) {
        self.pcm
    }

    fn new(controller: Arc<CtrePcm<Port>>, _leave: Reissue) -> (channel: Self) {
        Self { pcm: controller }
    }
}

/// Channel 2 of a Pneumatics Control Module.
pub struct CtreChannel2<Port: CtrePcmPort> {
    pcm: Arc<CtrePcm<Port>>,
}

impl<Port: CtrePcmPort> SolenoidChannel for CtreChannel2<Port> {
    const CHANNEL: u32 = 2;

    type Controller = CtrePcm<Port>;

    closed spec fn controller(&self) -> CtrePcm<Port> {
        *self.pcm
    }

    proof fn channel_in_range()
        ensures
            Self::CHANNEL == 2,
    {
    }

    fn into_controller(self) -> (controller: Arc<CtrePcm<Port>>) {
        self.pcm
    }

    fn new(controller: Arc<CtrePcm<Port>>, _leave: Reissue) -> (channel: Self) {
        Self { pcm: controller }
    }
}

/// Channel 3 of a Pneumatics Control Module.
pub struct CtreChannel3<Port: CtrePcmPort> {
    pcm: Arc<CtrePcm<Port>>,
}

impl<Port: CtrePcmPort> SolenoidChannel for CtreChannel3<Port> {
    const CHANNEL: u32 = 3;

    type Controller = CtrePcm<Port>;

    closed spec fn controller(&self) -> CtrePcm<Port> {
        *self.pcm
    }

    proof fn channel_in_range()
        ensures
            Self::CHANNEL == 3,
    {
    }

    fn into_controller(self) -> (controller: Arc<CtrePcm<Port>>) {
        self.pcm
    }

    fn new(controller: Arc<CtrePcm<Port>>, _leave: Reissue) -> (channel: Self) {
        Self { pcm: controller }
    }
}

/// Channel 4 of a Pneumatics Control Module.
pub struct CtreChannel4<Port: CtrePcmPort> {
    pcm: Arc<CtrePcm<Port>>,
}

impl<Port: CtrePcmPort> SolenoidChannel for CtreChannel4<Port> {
    const CHANNEL: u32 = 4;

    type Controller = CtrePcm<Port>;

    closed spec fn controller(&self) -> CtrePcm<Port> {
        *self.pcm
    }

    proof fn channel_in_range()
        ensures
            Self::CHANNEL == 4,
    {
    }

    fn into_controller(self) -> (controller: Arc<CtrePcm<Port>>) {
        self.pcm
    }

    fn new(controller: Arc<CtrePcm<Port>>, _leave: Reissue) -> (channel: Self) {
        Self { pcm: controller }
    }
}

/// Channel 5 of a Pneumatics Control Module.
pub struct CtreChannel5<Port: CtrePcmPort> {
    pcm: Arc<CtrePcm<Port>>,
}

impl<Port: CtrePcmPort> SolenoidChannel for CtreChannel5<Port> {
    const CHANNEL: u32 = 5;

    type Controller = CtrePcm<Port>;

    closed spec fn controller(&self) -> CtrePcm<Port> {
        *self.pcm
    }

    proof fn channel_in_range()
        ensures
            Self::CHANNEL == 5,
    {
    }

    fn into_controller(self) -> (controller: Arc<CtrePcm<Port>>) {
        self.pcm
    }

    fn new(controller: Arc<CtrePcm<Port>>, _leave: Reissue) -> (channel: Self) {
        Self { pcm: controller }
    }
}

/// Channel 6 of a Pneumatics Control Module.
pub struct CtreChannel6<Port: CtrePcmPort> {
    pcm: Arc<CtrePcm<Port>>,
}

impl<Port: CtrePcmPort> SolenoidChannel for CtreChannel6<Port> {
    const CHANNEL: u32 = 6;

    type Controller = CtrePcm<Port>;

    closed spec fn controller(&self) -> CtrePcm<Port> {
        *self.pcm
    }

    proof fn channel_in_range()
        ensures
            Self::CHANNEL == 6,
    {
    }

    fn into_controller(self) -> (controller: Arc<CtrePcm<Port>>) {
        self.pcm
    }

    fn new(controller: Arc<CtrePcm<Port>>, _leave: Reissue) -> (channel: Self) {
        Self { pcm: controller }
    }
}

/// Channel 7 of a Pneumatics Control Module.
pub struct CtreChannel7<Port: CtrePcmPort> {
    pcm: Arc<CtrePcm<Port>>,
}

impl<Port: CtrePcmPort> SolenoidChannel for CtreChannel7<Port> {
    const CHANNEL: u32 = 7;

    type Controller = CtrePcm<Port>;

    closed spec fn controller(&self) -> CtrePcm<Port> {
        *self.pcm
    }

    proof fn channel_in_range()
        ensures
            Self::CHANNEL == 7,
    {
    }

    fn into_controller(self) -> (controller: Arc<CtrePcm<Port>>) {
        self.pcm
    }

    fn new(controller: Arc<CtrePcm<Port>>, _leave: Reissue) -> (channel: Self) {
        Self { pcm: controller }
    }
}

/// The solenoid channels of a Pneumatics Control Module, one of each.
pub struct CtrePneumatics<Port: CtrePcmPort> {
    pub channel0: CtreChannel0<Port>,
    pub channel1: CtreChannel1<Port>,
    pub channel2: CtreChannel2<Port>,
    pub channel3: CtreChannel3<Port>,
    pub channel4: CtreChannel4<Port>,
    pub channel5: CtreChannel5<Port>,
    pub channel6: CtreChannel6<Port>,
    pub channel7: CtreChannel7<Port>,
}

} // verus!
