//! Support for the REV Pneumatic Hub: a controller of sixteen solenoid
//! channels with a compressor that can run in digital, analog or hybrid mode.

use crate::pneumatics::bitset::{bits_from_word, bits_of_word, word_from_bits, word_of_bits};
use crate::pneumatics::compressor::{flag_from_word, Compressor, DigitalCompressor};
use crate::pneumatics::solenoid::{share, Reissue, SolenoidChannel, SolenoidController};
use std::sync::Arc;
use vstd::prelude::*;

verus! {

/// The configuration word that the hardware layer uses for a disabled compressor.
pub const REV_CONFIG_DISABLED: i32 = 0;

/// The configuration word that the hardware layer uses for digital mode.
pub const REV_CONFIG_DIGITAL: i32 = 1;

/// The configuration word that the hardware layer uses for analog mode.
pub const REV_CONFIG_ANALOG: i32 = 2;

/// The configuration word that the hardware layer uses for hybrid mode.
pub const REV_CONFIG_HYBRID: i32 = 3;

/// What the hardware layer offers for one opened Pneumatic Hub.
///
/// Words cross this boundary as the hardware layer has them: bitsets as
/// signed 32-bit words, truth values as zero and non-zero. A fault of the
/// hardware layer is fatal and does not come back from these calls. Analog
/// and hybrid control take pressures, which the embedding program converts
/// and sets by itself.
pub trait RevPhPort: Send + Sync {
    /// Reads the state of all solenoids.
    fn solenoids(&self) -> i32;

    /// Writes the solenoids selected by `mask` to their bits in `values`.
    fn set_solenoids(&self, mask: i32, values: i32);

    /// Reads whether the compressor is running.
    fn compressor(&self) -> i32;

    /// Reads the configuration word of the compressor.
    fn compressor_config(&self) -> i32;

    /// Reads the pressure switch.
    fn pressure_switch(&self) -> i32;

    /// Turns closed-loop control of the compressor off.
    fn set_closed_loop_control_disabled(&self);

    /// Puts the compressor under closed-loop control by the pressure switch.
    fn set_closed_loop_control_digital(&self);
}

/// A REV Pneumatic Hub, reached through its port.
pub struct RevPh<Port: RevPhPort> {
    port: Port,
}

impl<Port: RevPhPort> RevPh<Port> {
    /// The port through which this hub is reached.
    pub closed spec fn port(&self) -> Port {
        self.port
    }

    /// Takes charge of an opened hub.
    pub fn from_port(port: Port) -> (ph: Self)
        ensures
            ph.port() == port,
    {
        Self { port }
    }

    /// Gives the port through which this hub is reached.
    pub(crate) fn port_ref(&self) -> (port: &Port)
        ensures
            *port == self.port(),
    {
        &self.port
    }

    /// Gives the port back, for the embedding program to close the hub.
    pub fn into_port(self) -> (port: Port)
        ensures
            port == self.port(),
    {
        self.port
    }

    /// Partitions the hub into its compressor and its sixteen solenoid
    /// channels. Every part refers to this hub, and each channel number is
    /// given out once: the hub is consumed, so no second partition can
    /// follow.
    pub fn into_parts(self) -> (parts: (RevCompressor<Port>, RevPneumatics<Port>))
        ensures
            parts.0.controller() == self,
            parts.1.channel0.controller() == self,
            parts.1.channel1.controller() == self,
            parts.1.channel2.controller() == self,
            parts.1.channel3.controller() == self,
            parts.1.channel4.controller() == self,
            parts.1.channel5.controller() == self,
            parts.1.channel6.controller() == self,
            parts.1.channel7.controller() == self,
            parts.1.channel8.controller() == self,
            parts.1.channel9.controller() == self,
            parts.1.channel10.controller() == self,
            parts.1.channel11.controller() == self,
            parts.1.channel12.controller() == self,
            parts.1.channel13.controller() == self,
            parts.1.channel14.controller() == self,
            parts.1.channel15.controller() == self,
    {
        let arc = Arc::new(self);
        (
            RevCompressor { ph: share(&arc) },
            RevPneumatics {
                channel0: RevChannel0 { ph: share(&arc) },
                channel1: RevChannel1 { ph: share(&arc) },
                channel2: RevChannel2 { ph: share(&arc) },
                channel3: RevChannel3 { ph: share(&arc) },
                channel4: RevChannel4 { ph: share(&arc) },
                channel5: RevChannel5 { ph: share(&arc) },
                channel6: RevChannel6 { ph: share(&arc) },
                channel7: RevChannel7 { ph: share(&arc) },
                channel8: RevChannel8 { ph: share(&arc) },
                channel9: RevChannel9 { ph: share(&arc) },
                channel10: RevChannel10 { ph: share(&arc) },
                channel11: RevChannel11 { ph: share(&arc) },
                channel12: RevChannel12 { ph: share(&arc) },
                channel13: RevChannel13 { ph: share(&arc) },
                channel14: RevChannel14 { ph: share(&arc) },
                channel15: RevChannel15 { ph: arc },
            },
        )
    }
}

impl<Port: RevPhPort> SolenoidController for RevPh<Port> {
    /// A read is a call of the port's `solenoids`, and the bitset is what
    /// the word that came back carries.
    open spec fn may_read(&self, bits: u32) -> bool {
        exists|word: i32| #[trigger]
            call_ensures(Port::solenoids, (&self.port(),), word) && bits == bits_of_word(word)
    }

    /// A write is a call of the port's `set_solenoids` with the words that
    /// carry the mask and the values.
    open spec fn may_write(&self, mask: u32, values: u32) -> bool {
        call_ensures(
            Port::set_solenoids,
            (&self.port(), word_of_bits(mask), word_of_bits(values)),
            (),
        )
    }

    fn get_solenoid_bitset(&self) -> (bits: u32) {
        let word = self.port.solenoids();
        assert(call_ensures(Port::solenoids, (&self.port(),), word));
        bits_from_word(word)
    }

    fn set_solenoid_bitset(&self, mask: u32, values: u32) {
        self.port.set_solenoids(word_from_bits(mask), word_from_bits(values));
    }
}

/// The modes of operation of the compressor of a Pneumatic Hub.
#[derive(Clone, Copy, Debug, PartialEq, Eq, Structural)]
pub enum RevCompressorMode {
    /// Compressor is always off
    Disabled,
    /// Compressor runs when the connected digital pressure switch is not
    /// activated by high pressure
    Digital,
    /// Compressor runs when the connected analog pressure sensor reports a
    /// value in a specified range
    Analog,
    /// Compressor runs when the requirements under the `Digital` and
    /// `Analog` modes are both met
    Hybrid,
}

impl RevCompressorMode {
    /// The configuration word that stands for this mode.
    pub open spec fn config_word(self) -> i32 {
        match self {
            RevCompressorMode::Disabled => REV_CONFIG_DISABLED,
            RevCompressorMode::Digital => REV_CONFIG_DIGITAL,
            RevCompressorMode::Analog => REV_CONFIG_ANALOG,
            RevCompressorMode::Hybrid => REV_CONFIG_HYBRID,
        }
    }

    /// The mode that a configuration word stands for, if it stands for one.
    pub open spec fn of_config(word: i32) -> Option<RevCompressorMode> {
        if word == REV_CONFIG_DISABLED {
            Some(RevCompressorMode::Disabled)
        } else if word == REV_CONFIG_DIGITAL {
            Some(RevCompressorMode::Digital)
        } else if word == REV_CONFIG_ANALOG {
            Some(RevCompressorMode::Analog)
        } else if word == REV_CONFIG_HYBRID {
            Some(RevCompressorMode::Hybrid)
        } else {
            None
        }
    }

    /// Reads a mode out of a configuration word. A word that stands for no
    /// mode is an error.
    pub fn try_from(value: i32) -> (mode: Result<Self, ()>)
        ensures
            match mode {
                Ok(m) => m.config_word() == value && Self::of_config(value) == Some(m),
                Err(_) => Self::of_config(value) is None && forall|m: RevCompressorMode|
                    m.config_word() != value,
            },
            mode is Ok <==> REV_CONFIG_DISABLED <= value <= REV_CONFIG_HYBRID,
    {
        if value == REV_CONFIG_DISABLED {
            Ok(RevCompressorMode::Disabled)
        } else if value == REV_CONFIG_DIGITAL {
            Ok(RevCompressorMode::Digital)
        } else if value == REV_CONFIG_ANALOG {
            Ok(RevCompressorMode::Analog)
        } else if value == REV_CONFIG_HYBRID {
            Ok(RevCompressorMode::Hybrid)
        } else {
            assert forall|m: RevCompressorMode| m.config_word() != value by {
                match m {
                    RevCompressorMode::Disabled => {},
                    RevCompressorMode::Digital => {},
                    RevCompressorMode::Analog => {},
                    RevCompressorMode::Hybrid => {},
                }
            }
            Err(())
        }
    }

    /// Gives the configuration word that stands for this mode.
    pub fn to_config(self) -> (word: i32)
        ensures
            word == self.config_word(),
    {
        match self {
            RevCompressorMode::Disabled => REV_CONFIG_DISABLED,
            RevCompressorMode::Digital => REV_CONFIG_DIGITAL,
            RevCompressorMode::Analog => REV_CONFIG_ANALOG,
            RevCompressorMode::Hybrid => REV_CONFIG_HYBRID,
        }
    }
}

/// Whether a configuration word stands for the given mode.
pub fn config_is(config: i32, mode: RevCompressorMode) -> (is: bool)
    ensures
        is == (config == mode.config_word()),
{
    config == mode.to_config()
}

/// The compressor of a Pneumatic Hub.
pub struct RevCompressor<Port: RevPhPort> {
    ph: Arc<RevPh<Port>>,
}

impl<Port: RevPhPort> RevCompressor<Port> {
    /// The hub that this compressor belongs to.
    pub closed spec fn controller(&self) -> RevPh<Port> {
        *self.ph
    }

    /// Whether a read of the compressor's configuration can come back with
    /// `word`: a call of the port's `compressor_config`.
    pub open spec fn may_read_config(&self, word: i32) -> bool {
        call_ensures(Port::compressor_config, (&self.controller().port(),), word)
    }

    /// Reads the compressor's configuration word once.
    fn config(&self) -> (word: i32)
        ensures
            self.may_read_config(word),
    {
        self.ph.port_ref().compressor_config()
    }

    /// Gets the compressor's currently configured mode of operation: one
    /// read of the configuration word, and the mode that the word stands
    /// for, or nothing where the firmware reports a mode that does not
    /// exist.
    pub fn mode(&self) -> (mode: Option<RevCompressorMode>)
        ensures
            exists|word: i32| #[trigger]
                self.may_read_config(word) && mode == RevCompressorMode::of_config(word),
    {
        let word = self.config();
        match RevCompressorMode::try_from(word) {
            Ok(mode) => Some(mode),
            Err(_) => None,
        }
    }

    /// Returns whether the compressor is currently configured in analog
    /// mode: one read of the configuration word, held against the word for
    /// that mode.
    pub fn in_analog_mode(&self) -> (is: bool)
        ensures
            exists|word: i32| #[trigger]
                self.may_read_config(word) && is == (word == REV_CONFIG_ANALOG),
    {
        let word = self.config();
        config_is(word, RevCompressorMode::Analog)
    }

    /// Returns whether the compressor is currently configured in hybrid
    /// mode: one read of the configuration word, held against the word for
    /// that mode.
    pub fn in_hybrid_mode(&self) -> (is: bool)
        ensures
            exists|word: i32| #[trigger]
                self.may_read_config(word) && is == (word == REV_CONFIG_HYBRID),
    {
        let word = self.config();
        config_is(word, RevCompressorMode::Hybrid)
    }
}

impl<Port: RevPhPort> Compressor for RevCompressor<Port> {
    /// Reads the port's `compressor` once; every word but zero means
    /// running.
    fn running(&self) -> (on: bool)
        ensures
            exists|word: i32| #[trigger]
                call_ensures(Port::compressor, (&self.controller().port(),), word) && on == (word
                    != 0),
    {
        let word = self.ph.port_ref().compressor();
        assert(call_ensures(Port::compressor, (&self.controller().port(),), word));
        flag_from_word(word)
    }

    /// Switches closed-loop control off with one call of the port's
    /// `set_closed_loop_control_disabled`.
    fn disable(&mut self)
        ensures
            final(self).controller() == old(self).controller(),
            call_ensures(
                Port::set_closed_loop_control_disabled,
                (&old(self).controller().port(),),
                (),
            ),
    {
        self.ph.port_ref().set_closed_loop_control_disabled();
    }
}

impl<Port: RevPhPort> DigitalCompressor for RevCompressor<Port> {
    /// Reads the port's `pressure_switch` once; every word but zero means
    /// that the switch is set.
    fn get_pressure_switch(&self) -> (on: bool)
        ensures
            exists|word: i32| #[trigger]
                call_ensures(Port::pressure_switch, (&self.controller().port(),), word) && on == (
                word != 0),
    {
        let word = self.ph.port_ref().pressure_switch();
        assert(call_ensures(Port::pressure_switch, (&self.controller().port(),), word));
        flag_from_word(word)
    }

    /// Puts the compressor under the pressure switch with one call of the
    /// port's `set_closed_loop_control_digital`.
    fn enable_digital(&mut self)
        ensures
            final(self).controller() == old(self).controller(),
            call_ensures(
                Port::set_closed_loop_control_digital,
                (&old(self).controller().port(),),
                (),
            ),
    {
        self.ph.port_ref().set_closed_loop_control_digital();
    }

    /// Returns whether the compressor is currently configured in digital
    /// mode: one read of the configuration word, held against the word for
    /// that mode.
    fn in_digital_mode(&self) -> (is: bool)
        ensures
            exists|word: i32| #[trigger]
                self.may_read_config(word) && is == (word == REV_CONFIG_DIGITAL),
    {
        let word = self.config();
        config_is(word, RevCompressorMode::Digital)
    }
}

/// Channel 0 of a Pneumatic Hub.
pub struct RevChannel0<Port: RevPhPort> {
    ph: Arc<RevPh<Port>>,
}

impl<Port: RevPhPort> SolenoidChannel for RevChannel0<Port> {
    const CHANNEL: u32 = 0;

    type Controller = RevPh<Port>;

    closed spec fn controller(&self) -> RevPh<Port> {
        *self.ph
    }

    proof fn channel_in_range()
        ensures
            Self::CHANNEL == 0,
    {
    }

    fn into_controller(self) -> (controller: Arc<RevPh<Port>>) {
        self.ph
    }

    fn new(controller: Arc<RevPh<Port>>, _leave: Reissue) -> (channel: Self) {
        Self { ph: controller }
    }
}

/// Channel 1 of a Pneumatic Hub.
pub struct RevChannel1<Port: RevPhPort> {
    ph: Arc<RevPh<Port>>,
}

impl<Port: RevPhPort> SolenoidChannel for RevChannel1<Port> {
    const CHANNEL: u32 = 1;

    type Controller = RevPh<Port>;

    closed spec fn controller(&self) -> RevPh<Port> {
        *self.ph
    }

    proof fn channel_in_range()
        ensures
            Self::CHANNEL == 1,
    {
    }

    fn into_controller(self) -> (controller: Arc<RevPh<Port>>) {
        self.ph
    }

    fn new(controller: Arc<RevPh<Port>>, _leave: Reissue) -> (channel: Self) {
        Self { ph: controller }
    }
}

/// Channel 2 of a Pneumatic Hub.
pub struct RevChannel2<Port: RevPhPort> {
    ph: Arc<RevPh<Port>>,
}

impl<Port: RevPhPort> SolenoidChannel for RevChannel2<Port> {
    const CHANNEL: u32 = 2;

    type Controller = RevPh<Port>;

    closed spec fn controller(&self) -> RevPh<Port> {
        *self.ph
    }

    proof fn channel_in_range()
        ensures
            Self::CHANNEL == 2,
    {
    }

    fn into_controller(self) -> (controller: Arc<RevPh<Port>>) {
        self.ph
    }

    fn new(controller: Arc<RevPh<Port>>, _leave: Reissue) -> (channel: Self) {
        Self { ph: controller }
    }
}

/// Channel 3 of a Pneumatic Hub.
pub struct RevChannel3<Port: RevPhPort> {
    ph: Arc<RevPh<Port>>,
}

impl<Port: RevPhPort> SolenoidChannel for RevChannel3<Port> {
    const CHANNEL: u32 = 3;

    type Controller = RevPh<Port>;

    closed spec fn controller(&self) -> RevPh<Port> {
        *self.ph
    }

    proof fn channel_in_range()
        ensures
            Self::CHANNEL == 3,
    {
    }

    fn into_controller(self) -> (controller: Arc<RevPh<Port>>) {
        self.ph
    }

    fn new(controller: Arc<RevPh<Port>>, _leave: Reissue) -> (channel: Self) {
        Self { ph: controller }
    }
}

/// Channel 4 of a Pneumatic Hub.
pub struct RevChannel4<Port: RevPhPort> {
    ph: Arc<RevPh<Port>>,
}

impl<Port: RevPhPort> SolenoidChannel for RevChannel4<Port> {
    const CHANNEL: u32 = 4;

    type Controller = RevPh<Port>;

    closed spec fn controller(&self) -> RevPh<Port> {
        *self.ph
    }

    proof fn channel_in_range()
        ensures
            Self::CHANNEL == 4,
    {
    }

    fn into_controller(self) -> (controller: Arc<RevPh<Port>>) {
        self.ph
    }

    fn new(controller: Arc<RevPh<Port>>, _leave: Reissue) -> (channel: Self) {
        Self { ph: controller }
    }
}

/// Channel 5 of a Pneumatic Hub.
pub struct RevChannel5<Port: RevPhPort> {
    ph: Arc<RevPh<Port>>,
}

impl<Port: RevPhPort> SolenoidChannel for RevChannel5<Port> {
    const CHANNEL: u32 = 5;

    type Controller = RevPh<Port>;

    closed spec fn controller(&self) -> RevPh<Port> {
        *self.ph
    }

    proof fn channel_in_range()
        ensures
            Self::CHANNEL == 5,
    {
    }

    fn into_controller(self) -> (controller: Arc<RevPh<Port>>) {
        self.ph
    }

    fn new(controller: Arc<RevPh<Port>>, _leave: Reissue) -> (channel: Self) {
        Self { ph: controller }
    }
}

/// Channel 6 of a Pneumatic Hub.
pub struct RevChannel6<Port: RevPhPort> {
    ph: Arc<RevPh<Port>>,
}

impl<Port: RevPhPort> SolenoidChannel for RevChannel6<Port> {
    const CHANNEL: u32 = 6;

    type Controller = RevPh<Port>;

    closed spec fn controller(&self) -> RevPh<Port> {
        *self.ph
    }

    proof fn channel_in_range()
        ensures
            Self::CHANNEL == 6,
    {
    }

    fn into_controller(self) -> (controller: Arc<RevPh<Port>>) {
        self.ph
    }

    fn new(controller: Arc<RevPh<Port>>, _leave: Reissue) -> (channel: Self) {
        Self { ph: controller }
    }
}

/// Channel 7 of a Pneumatic Hub.
pub struct RevChannel7<Port: RevPhPort> {
    ph: Arc<RevPh<Port>>,
}

impl<Port: RevPhPort> SolenoidChannel for RevChannel7<Port> {
    const CHANNEL: u32 = 7;

    type Controller = RevPh<Port>;

    closed spec fn controller(&self) -> RevPh<Port> {
        *self.ph
    }

    proof fn channel_in_range()
        ensures
            Self::CHANNEL == 7,
    {
    }

    fn into_controller(self) -> (controller: Arc<RevPh<Port>>) {
        self.ph
    }

    fn new(controller: Arc<RevPh<Port>>, _leave: Reissue) -> (channel: Self) {
        Self { ph: controller }
    }
}

/// Channel 8 of a Pneumatic Hub.
pub struct RevChannel8<Port: RevPhPort> {
    ph: Arc<RevPh<Port>>,
}

impl<Port: RevPhPort> SolenoidChannel for RevChannel8<Port> {
    const CHANNEL: u32 = 8;

    type Controller = RevPh<Port>;

    closed spec fn controller(&self) -> RevPh<Port> {
        *self.ph
    }

    proof fn channel_in_range()
        ensures
            Self::CHANNEL == 8,
    {
    }

    fn into_controller(self) -> (controller: Arc<RevPh<Port>>) {
        self.ph
    }

    fn new(controller: Arc<RevPh<Port>>, _leave: Reissue) -> (channel: Self) {
        Self { ph: controller }
    }
}

/// Channel 9 of a Pneumatic Hub.
pub struct RevChannel9<Port: RevPhPort> {
    ph: Arc<RevPh<Port>>,
}

impl<Port: RevPhPort> SolenoidChannel for RevChannel9<Port> {
    const CHANNEL: u32 = 9;

    type Controller = RevPh<Port>;

    closed spec fn controller(&self) -> RevPh<Port> {
        *self.ph
    }

    proof fn channel_in_range()
        ensures
            Self::CHANNEL == 9,
    {
    }

    fn into_controller(self) -> (controller: Arc<RevPh<Port>>) {
        self.ph
    }

    fn new(controller: Arc<RevPh<Port>>, _leave: Reissue) -> (channel: Self) {
        Self { ph: controller }
    }
}

/// Channel 10 of a Pneumatic Hub.
pub struct RevChannel10<Port: RevPhPort> {
    ph: Arc<RevPh<Port>>,
}

impl<Port: RevPhPort> SolenoidChannel for RevChannel10<Port> {
    const CHANNEL: u32 = 10;

    type Controller = RevPh<Port>;

    closed spec fn controller(&self) -> RevPh<Port> {
        *self.ph
    }

    proof fn channel_in_range()
        ensures
            Self::CHANNEL == 10,
    {
    }

    fn into_controller(self) -> (controller: Arc<RevPh<Port>>) {
        self.ph
    }

    fn new(controller: Arc<RevPh<Port>>, _leave: Reissue) -> (channel: Self) {
        Self { ph: controller }
    }
}

/// Channel 11 of a Pneumatic Hub.
pub struct RevChannel11<Port: RevPhPort> {
    ph: Arc<RevPh<Port>>,
}

impl<Port: RevPhPort> SolenoidChannel for RevChannel11<Port> {
    const CHANNEL: u32 = 11;

    type Controller = RevPh<Port>;

    closed spec fn controller(&self) -> RevPh<Port> {
        *self.ph
    }

    proof fn channel_in_range()
        ensures
            Self::CHANNEL == 11,
    {
    }

    fn into_controller(self) -> (controller: Arc<RevPh<Port>>) {
        self.ph
    }

    fn new(controller: Arc<RevPh<Port>>, _leave: Reissue) -> (channel: Self) {
        Self { ph: controller }
    }
}

/// Channel 12 of a Pneumatic Hub.
pub struct RevChannel12<Port: RevPhPort> {
    ph: Arc<RevPh<Port>>,
}

impl<Port: RevPhPort> SolenoidChannel for RevChannel12<Port> {
    const CHANNEL: u32 = 12;

    type Controller = RevPh<Port>;

    closed spec fn controller(&self) -> RevPh<Port> {
        *self.ph
    }

    proof fn channel_in_range()
        ensures
            Self::CHANNEL == 12,
    {
    }

    fn into_controller(self) -> (controller: Arc<RevPh<Port>>) {
        self.ph
    }

    fn new(controller: Arc<RevPh<Port>>, _leave: Reissue) -> (channel: Self) {
        Self { ph: controller }
    }
}

/// Channel 13 of a Pneumatic Hub.
pub struct RevChannel13<Port: RevPhPort> {
    ph: Arc<RevPh<Port>>,
}

impl<Port: RevPhPort> SolenoidChannel for RevChannel13<Port> {
    const CHANNEL: u32 = 13;

    type Controller = RevPh<Port>;

    closed spec fn controller(&self) -> RevPh<Port> {
        *self.ph
    }

    proof fn channel_in_range()
        ensures
            Self::CHANNEL == 13,
    {
    }

    fn into_controller(self) -> (controller: Arc<RevPh<Port>>) {
        self.ph
    }

    fn new(controller: Arc<RevPh<Port>>, _leave: Reissue) -> (channel: Self) {
        Self { ph: controller }
    }
}

/// Channel 14 of a Pneumatic Hub.
pub struct RevChannel14<Port: RevPhPort> {
    ph: Arc<RevPh<Port>>,
}

impl<Port: RevPhPort> SolenoidChannel for RevChannel14<Port> {
    const CHANNEL: u32 = 14;

    type Controller = RevPh<Port>;

    closed spec fn controller(&self) -> RevPh<Port> {
        *self.ph
    }

    proof fn channel_in_range()
        ensures
            Self::CHANNEL == 14,
    {
    }

    fn into_controller(self) -> (controller: Arc<RevPh<Port>>) {
        self.ph
    }

    fn new(controller: Arc<RevPh<Port>>, _leave: Reissue) -> (channel: Self) {
        Self { ph: controller }
    }
}

/// Channel 15 of a Pneumatic Hub.
pub struct RevChannel15<Port: RevPhPort> {
    ph: Arc<RevPh<Port>>,
}

impl<Port: RevPhPort> SolenoidChannel for RevChannel15<Port> {
    const CHANNEL: u32 = 15;

    type Controller = RevPh<Port>;

    closed spec fn controller(&self) -> RevPh<Port> {
        *self.ph
    }

    proof fn channel_in_range()
        ensures
            Self::CHANNEL == 15,
    {
    }

    fn into_controller(self) -> (controller: Arc<RevPh<Port>>) {
        self.ph
    }

    fn new(controller: Arc<RevPh<Port>>, _leave: Reissue) -> (channel: Self) {
        Self { ph: controller }
    }
}

/// The solenoid channels of a Pneumatic Hub, one of each.
pub struct RevPneumatics<Port: RevPhPort> {
    pub channel0: RevChannel0<Port>,
    pub channel1: RevChannel1<Port>,
    pub channel2: RevChannel2<Port>,
    pub channel3: RevChannel3<Port>,
    pub channel4: RevChannel4<Port>,
    pub channel5: RevChannel5<Port>,
    pub channel6: RevChannel6<Port>,
    pub channel7: RevChannel7<Port>,
    pub channel8: RevChannel8<Port>,
    pub channel9: RevChannel9<Port>,
    pub channel10: RevChannel10<Port>,
    pub channel11: RevChannel11<Port>,
    pub channel12: RevChannel12<Port>,
    pub channel13: RevChannel13<Port>,
    pub channel14: RevChannel14<Port>,
    pub channel15: RevChannel15<Port>,
}

} // verus!
