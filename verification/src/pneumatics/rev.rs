//! Solenoids of a REV Pneumatic Hub that borrow the hub instead of sharing it.
//!
//! [`RevPh::as_parts`] lends the hub out as a compressor and sixteen
//! channels. The parts live no longer than the loan, and while they live the
//! hub cannot be partitioned again. Here a channel is known by its mask,
//! the word with only its own bit set.

use crate::pneumatics::bitset::{
    channel_mask,
    double_state_masked,
    lemma_channel_mask_values,
    read_double_masked,
    read_masked,
    write_double_masked,
    write_masked,
    DoubleSolenoidState,
    InvalidDoubleSolenoidState,
};
use crate::pneumatics::borrowed::{
    AnyDoubleSolenoid,
    AnySolenoid,
    GenericDoubleSolenoid,
    GenericSolenoid,
};
use crate::pneumatics::compressor::{flag_from_word, Compressor, DigitalCompressor};
use crate::pneumatics::ctre_pcm::CtrePcmPort;
use crate::pneumatics::rev_ph::{
    config_is,
    RevCompressorMode,
    RevPh,
    RevPhPort,
    REV_CONFIG_DIGITAL,
};
use crate::pneumatics::solenoid::{
    same_place,
    DoubleSolenoid,
    Solenoid,
    SolenoidController,
};
use vstd::prelude::*;

verus! {

impl<Port: RevPhPort> RevPh<Port> {
    /// Lends the hub out as its compressor and its sixteen solenoid
    /// channels. Every part refers to this hub, and each channel is given
    /// out once for as long as the loan lasts.
    pub fn as_parts(&mut self) -> (parts: (RevCompressor<'_, Port>, RevPneumatics<'_, Port>))
        ensures
            *final(self) == *old(self),
            parts.0.controller() == *old(self),
            parts.1.channel0.controller() == *old(self),
            parts.1.channel1.controller() == *old(self),
            parts.1.channel2.controller() == *old(self),
            parts.1.channel3.controller() == *old(self),
            parts.1.channel4.controller() == *old(self),
            parts.1.channel5.controller() == *old(self),
            parts.1.channel6.controller() == *old(self),
            parts.1.channel7.controller() == *old(self),
            parts.1.channel8.controller() == *old(self),
            parts.1.channel9.controller() == *old(self),
            parts.1.channel10.controller() == *old(self),
            parts.1.channel11.controller() == *old(self),
            parts.1.channel12.controller() == *old(self),
            parts.1.channel13.controller() == *old(self),
            parts.1.channel14.controller() == *old(self),
            parts.1.channel15.controller() == *old(self),
    {
        let ph: &RevPh<Port> = &*self;
        (
            RevCompressor { ph },
            RevPneumatics {
                channel0: RevChannel0 { ph },
                channel1: RevChannel1 { ph },
                channel2: RevChannel2 { ph },
                channel3: RevChannel3 { ph },
                channel4: RevChannel4 { ph },
                channel5: RevChannel5 { ph },
                channel6: RevChannel6 { ph },
                channel7: RevChannel7 { ph },
                channel8: RevChannel8 { ph },
                channel9: RevChannel9 { ph },
                channel10: RevChannel10 { ph },
                channel11: RevChannel11 { ph },
                channel12: RevChannel12 { ph },
                channel13: RevChannel13 { ph },
                channel14: RevChannel14 { ph },
                channel15: RevChannel15 { ph },
            },
        )
    }
}

/// The compressor of a borrowed hub.
pub struct RevCompressor<'a, Port: RevPhPort> {
    ph: &'a RevPh<Port>,
}

impl<'a, Port: RevPhPort> RevCompressor<'a, Port> {
    /// The hub that this compressor belongs to.
    pub closed spec fn controller(&self) -> RevPh<Port> {
        *self.ph
    }
}

impl<'a, Port: RevPhPort> Compressor for RevCompressor<'a, Port> {
    /// Reads the port's `compressor` once; every word but zero means
    /// running.
    fn running(&self) -> (on: bool)
        ensures
            exists|word: i32| #[trigger]
                call_ensures(Port::compressor, (&self.controller().port(),), word) && on == (word
                    != 0),
    {
        let word = self.ph.port_ref().compressor();
        assert(call_ensures(Port::compressor, (&self.controller().port(),), word));
        flag_from_word(word)
    }

    /// Switches closed-loop control off with one call of the port's
    /// `set_closed_loop_control_disabled`.
    fn disable(&mut self)
        ensures
            final(self).controller() == old(self).controller(),
            call_ensures(
                Port::set_closed_loop_control_disabled,
                (&old(self).controller().port(),),
                (),
            ),
    {
        self.ph.port_ref().set_closed_loop_control_disabled();
    }
}

impl<'a, Port: RevPhPort> DigitalCompressor for RevCompressor<'a, Port> {
    /// Reads the port's `pressure_switch` once; every word but zero means
    /// that the switch is set.
    fn get_pressure_switch(&self) -> (on: bool)
        ensures
            exists|word: i32| #[trigger]
                call_ensures(Port::pressure_switch, (&self.controller().port(),), word) && on == (
                word != 0),
    {
        let word = self.ph.port_ref().pressure_switch();
        assert(call_ensures(Port::pressure_switch, (&self.controller().port(),), word));
        flag_from_word(word)
    }

    /// Switches closed-loop control by the pressure switch on with one call
    /// of the port's `set_closed_loop_control_digital`.
    fn enable_digital(&mut self)
        ensures
            final(self).controller() == old(self).controller(),
            call_ensures(
                Port::set_closed_loop_control_digital,
                (&old(self).controller().port(),),
                (),
            ),
    {
        self.ph.port_ref().set_closed_loop_control_digital();
    }

    /// Reads the port's `compressor_config` once and holds the word against what
    /// digital mode reads as.
    fn in_digital_mode(&self) -> (is: bool)
        ensures
            exists|word: i32| #[trigger]
                call_ensures(Port::compressor_config, (&self.controller().port(),), word) && is == (
                word == REV_CONFIG_DIGITAL),
    {
        let word = self.ph.port_ref().compressor_config();
        assert(call_ensures(Port::compressor_config, (&self.controller().port(),), word));
        config_is(word, RevCompressorMode::Digital)
    }
}

/// A channel of a borrowed hub: a reference to the hub together with
/// a mask that is part of the type.
pub trait RevChannel {
    /// The mask of this channel: the word with only the channel's bit set.
    const MASK: u32;

    /// The port of the hub that this channel belongs to.
    type Port: RevPhPort;

    /// The hub that this channel belongs to.
    spec fn controller(&self) -> RevPh<Self::Port>;

    /// The mask has a bit set. A channel type says here in addition which
    /// bit it is.
    proof fn mask_is_set()
        ensures
            Self::MASK != 0,
    ;

    /// Gives the hub that this channel belongs to.
    fn get_controller(&self) -> (controller: &RevPh<Self::Port>)
        ensures
            *controller == self.controller(),
    ;
}

/// Channel 0 of a borrowed hub.
pub struct RevChannel0<'a, Port: RevPhPort> {
    ph: &'a RevPh<Port>,
}

impl<'a, Port: RevPhPort> RevChannel for RevChannel0<'a, Port> {
    const MASK: u32 = 0x0001;

    type Port = Port;

    closed spec fn controller(&self) -> RevPh<Port> {
        *self.ph
    }

    proof fn mask_is_set()
        ensures
            Self::MASK == 0x0001,
            Self::MASK == channel_mask(0),
    {
        lemma_channel_mask_values();
    }

    fn get_controller(&self) -> (controller: &RevPh<Port>) {
        self.ph
    }
}

/// Channel 1 of a borrowed hub.
pub struct RevChannel1<'a, Port: RevPhPort> {
    ph: &'a RevPh<Port>,
}

impl<'a, Port: RevPhPort> RevChannel for RevChannel1<'a, Port> {
    const MASK: u32 = 0x0002;

    type Port = Port;

    closed spec fn controller(&self) -> RevPh<Port> {
        *self.ph
    }

    proof fn mask_is_set()
        ensures
            Self::MASK == 0x0002,
            Self::MASK == channel_mask(1),
    {
        lemma_channel_mask_values();
    }

    fn get_controller(&self) -> (controller: &RevPh<Port>) {
        self.ph
    }
}

/// Channel 2 of a borrowed hub.
pub struct RevChannel2<'a, Port: RevPhPort> {
    ph: &'a RevPh<Port>,
}

impl<'a, Port: RevPhPort> RevChannel for RevChannel2<'a, Port> {
    const MASK: u32 = 0x0004;

    type Port = Port;

    closed spec fn controller(&self) -> RevPh<Port> {
        *self.ph
    }

    proof fn mask_is_set()
        ensures
            Self::MASK == 0x0004,
            Self::MASK == channel_mask(2),
    {
        lemma_channel_mask_values();
    }

    fn get_controller(&self) -> (controller: &RevPh<Port>) {
        self.ph
    }
}

/// Channel 3 of a borrowed hub.
pub struct RevChannel3<'a, Port: RevPhPort> {
    ph: &'a RevPh<Port>,
}

impl<'a, Port: RevPhPort> RevChannel for RevChannel3<'a, Port> {
    const MASK: u32 = 0x0008;

    type Port = Port;

    closed spec fn controller(&self) -> RevPh<Port> {
        *self.ph
    }

    proof fn mask_is_set()
        ensures
            Self::MASK == 0x0008,
            Self::MASK == channel_mask(3),
    {
        lemma_channel_mask_values();
    }

    fn get_controller(&self) -> (controller: &RevPh<Port>) {
        self.ph
    }
}

/// Channel 4 of a borrowed hub.
pub struct RevChannel4<'a, Port: RevPhPort> {
    ph: &'a RevPh<Port>,
}

impl<'a, Port: RevPhPort> RevChannel for RevChannel4<'a, Port> {
    const MASK: u32 = 0x0010;

    type Port = Port;

    closed spec fn controller(&self) -> RevPh<Port> {
        *self.ph
    }

    proof fn mask_is_set()
        ensures
            Self::MASK == 0x0010,
            Self::MASK == channel_mask(4),
    {
        lemma_channel_mask_values();
    }

    fn get_controller(&self) -> (controller: &RevPh<Port>) {
        self.ph
    }
}

/// Channel 5 of a borrowed hub.
pub struct RevChannel5<'a, Port: RevPhPort> {
    ph: &'a RevPh<Port>,
}

impl<'a, Port: RevPhPort> RevChannel for RevChannel5<'a, Port> {
    const MASK: u32 = 0x0020;

    type Port = Port;

    closed spec fn controller(&self) -> RevPh<Port> {
        *self.ph
    }

    proof fn mask_is_set()
        ensures
            Self::MASK == 0x0020,
            Self::MASK == channel_mask(5),
    {
        lemma_channel_mask_values();
    }

    fn get_controller(&self) -> (controller: &RevPh<Port>) {
        self.ph
    }
}

/// Channel 6 of a borrowed hub.
pub struct RevChannel6<'a, Port: RevPhPort> {
    ph: &'a RevPh<Port>,
}

impl<'a, Port: RevPhPort> RevChannel for RevChannel6<'a, Port> {
    const MASK: u32 = 0x0040;

    type Port = Port;

    closed spec fn controller(&self) -> RevPh<Port> {
        *self.ph
    }

    proof fn mask_is_set()
        ensures
            Self::MASK == 0x0040,
            Self::MASK == channel_mask(6),
    {
        lemma_channel_mask_values();
    }

    fn get_controller(&self) -> (controller: &RevPh<Port>) {
        self.ph
    }
}

/// Channel 7 of a borrowed hub.
pub struct RevChannel7<'a, Port: RevPhPort> {
    ph: &'a RevPh<Port>,
}

impl<'a, Port: RevPhPort> RevChannel for RevChannel7<'a, Port> {
    const MASK: u32 = 0x0080;

    type Port = Port;

    closed spec fn controller(&self) -> RevPh<Port> {
        *self.ph
    }

    proof fn mask_is_set()
        ensures
            Self::MASK == 0x0080,
            Self::MASK == channel_mask(7),
    {
        lemma_channel_mask_values();
    }

    fn get_controller(&self) -> (controller: &RevPh<Port>) {
        self.ph
    }
}

/// Channel 8 of a borrowed hub.
pub struct RevChannel8<'a, Port: RevPhPort> {
    ph: &'a RevPh<Port>,
}

impl<'a, Port: RevPhPort> RevChannel for RevChannel8<'a, Port> {
    const MASK: u32 = 0x0100;

    type Port = Port;

    closed spec fn controller(&self) -> RevPh<Port> {
        *self.ph
    }

    proof fn mask_is_set()
        ensures
            Self::MASK == 0x0100,
            Self::MASK == channel_mask(8),
    {
        lemma_channel_mask_values();
    }

    fn get_controller(&self) -> (controller: &RevPh<Port>) {
        self.ph
    }
}

/// Channel 9 of a borrowed hub.
pub struct RevChannel9<'a, Port: RevPhPort> {
    ph: &'a RevPh<Port>,
}

impl<'a, Port: RevPhPort> RevChannel for RevChannel9<'a, Port> {
    const MASK: u32 = 0x0200;

    type Port = Port;

    closed spec fn controller(&self) -> RevPh<Port> {
        *self.ph
    }

    proof fn mask_is_set()
        ensures
            Self::MASK == 0x0200,
            Self::MASK == channel_mask(9),
    {
        lemma_channel_mask_values();
    }

    fn get_controller(&self) -> (controller: &RevPh<Port>) {
        self.ph
    }
}

/// Channel 10 of a borrowed hub.
pub struct RevChannel10<'a, Port: RevPhPort> {
    ph: &'a RevPh<Port>,
}

impl<'a, Port: RevPhPort> RevChannel for RevChannel10<'a, Port> {
    const MASK: u32 = 0x0400;

    type Port = Port;

    closed spec fn controller(&self) -> RevPh<Port> {
        *self.ph
    }

    proof fn mask_is_set()
        ensures
            Self::MASK == 0x0400,
            Self::MASK == channel_mask(10),
    {
        lemma_channel_mask_values();
    }

    fn get_controller(&self) -> (controller: &RevPh<Port>) {
        self.ph
    }
}

/// Channel 11 of a borrowed hub.
pub struct RevChannel11<'a, Port: RevPhPort> {
    ph: &'a RevPh<Port>,
}

impl<'a, Port: RevPhPort> RevChannel for RevChannel11<'a, Port> {
    const MASK: u32 = 0x0800;

    type Port = Port;

    closed spec fn controller(&self) -> RevPh<Port> {
        *self.ph
    }

    proof fn mask_is_set()
        ensures
            Self::MASK == 0x0800,
            Self::MASK == channel_mask(11),
    {
        lemma_channel_mask_values();
    }

    fn get_controller(&self) -> (controller: &RevPh<Port>) {
        self.ph
    }
}

/// Channel 12 of a borrowed hub.
pub struct RevChannel12<'a, Port: RevPhPort> {
    ph: &'a RevPh<Port>,
}

impl<'a, Port: RevPhPort> RevChannel for RevChannel12<'a, Port> {
    const MASK: u32 = 0x1000;

    type Port = Port;

    closed spec fn controller(&self) -> RevPh<Port> {
        *self.ph
    }

    proof fn mask_is_set()
        ensures
            Self::MASK == 0x1000,
            Self::MASK == channel_mask(12),
    {
        lemma_channel_mask_values();
    }

    fn get_controller(&self) -> (controller: &RevPh<Port>) {
        self.ph
    }
}

/// Channel 13 of a borrowed hub.
pub struct RevChannel13<'a, Port: RevPhPort> {
    ph: &'a RevPh<Port>,
}

impl<'a, Port: RevPhPort> RevChannel for RevChannel13<'a, Port> {
    const MASK: u32 = 0x2000;

    type Port = Port;

    closed spec fn controller(&self) -> RevPh<Port> {
        *self.ph
    }

    proof fn mask_is_set()
        ensures
            Self::MASK == 0x2000,
            Self::MASK == channel_mask(13),
    {
        lemma_channel_mask_values();
    }

    fn get_controller(&self) -> (controller: &RevPh<Port>) {
        self.ph
    }
}

/// Channel 14 of a borrowed hub.
pub struct RevChannel14<'a, Port: RevPhPort> {
    ph: &'a RevPh<Port>,
}

impl<'a, Port: RevPhPort> RevChannel for RevChannel14<'a, Port> {
    const MASK: u32 = 0x4000;

    type Port = Port;

    closed spec fn controller(&self) -> RevPh<Port> {
        *self.ph
    }

    proof fn mask_is_set()
        ensures
            Self::MASK == 0x4000,
            Self::MASK == channel_mask(14),
    {
        lemma_channel_mask_values();
    }

    fn get_controller(&self) -> (controller: &RevPh<Port>) {
        self.ph
    }
}

/// Channel 15 of a borrowed hub.
pub struct RevChannel15<'a, Port: RevPhPort> {
    ph: &'a RevPh<Port>,
}

impl<'a, Port: RevPhPort> RevChannel for RevChannel15<'a, Port> {
    const MASK: u32 = 0x8000;

    type Port = Port;

    closed spec fn controller(&self) -> RevPh<Port> {
        *self.ph
    }

    proof fn mask_is_set()
        ensures
            Self::MASK == 0x8000,
            Self::MASK == channel_mask(15),
    {
        lemma_channel_mask_values();
    }

    fn get_controller(&self) -> (controller: &RevPh<Port>) {
        self.ph
    }
}

/// The solenoid channels of a borrowed hub, one of each.
pub struct RevPneumatics<'a, Port: RevPhPort> {
    pub channel0: RevChannel0<'a, Port>,
    pub channel1: RevChannel1<'a, Port>,
    pub channel2: RevChannel2<'a, Port>,
    pub channel3: RevChannel3<'a, Port>,
    pub channel4: RevChannel4<'a, Port>,
    pub channel5: RevChannel5<'a, Port>,
    pub channel6: RevChannel6<'a, Port>,
    pub channel7: RevChannel7<'a, Port>,
    pub channel8: RevChannel8<'a, Port>,
    pub channel9: RevChannel9<'a, Port>,
    pub channel10: RevChannel10<'a, Port>,
    pub channel11: RevChannel11<'a, Port>,
    pub channel12: RevChannel12<'a, Port>,
    pub channel13: RevChannel13<'a, Port>,
    pub channel14: RevChannel14<'a, Port>,
    pub channel15: RevChannel15<'a, Port>,
}

/// A solenoid on a channel of a borrowed hub, with the channel encoded in
/// the type system.
pub struct RevSolenoid<Channel: RevChannel> {
    channel: Channel,
}

impl<Channel: RevChannel> RevSolenoid<Channel> {
    /// The channel that this solenoid holds.
    pub closed spec fn held(&self) -> Channel {
        self.channel
    }

    /// Creates a solenoid from a channel.
    pub fn new(channel: Channel) -> (solenoid: Self)
        ensures
            solenoid.held() == channel,
    {
        Self { channel }
    }

    /// Releases the channel used by this solenoid for reuse.
    pub fn into_channel(self) -> (channel: Channel)
        ensures
            channel == self.held(),
    {
        self.channel
    }

    /// Type-erases the channel used by this solenoid, storing its mask at
    /// runtime. The solenoid is lent out for as long as the erased one
    /// lives.
    pub fn erase_channel(&mut self) -> (erased: AnyRevSolenoid<'_, Channel::Port>)
        ensures
            *final(self) == *old(self),
            erased.controller() == old(self).held().controller(),
            erased.mask() == Channel::MASK,
    {
        AnyRevSolenoid { ph: self.channel.get_controller(), mask: Channel::MASK }
    }

    /// Type-erases the channel and the kind of controller used by this
    /// solenoid.
    pub fn erase_all<Other: CtrePcmPort>(&mut self) -> (erased: AnySolenoid<'_, Other, Channel::Port>)
        ensures
            *final(self) == *old(self),
            erased.mask() == Channel::MASK,
            erased.solenoid() matches GenericSolenoid::Rev(inner) && inner.controller() == old(
                self,
            ).held().controller(),
    {
        AnySolenoid::from_generic(GenericSolenoid::Rev(self.erase_channel()))
    }
}

impl<Channel: RevChannel> Solenoid for RevSolenoid<Channel> {
    open spec fn mask(&self) -> u32 {
        Channel::MASK
    }

    open spec fn may_read(&self, bits: u32) -> bool {
        self.held().controller().may_read(bits)
    }

    open spec fn may_write(&self, mask: u32, values: u32) -> bool {
        self.held().controller().may_write(mask, values)
    }

    fn get(&self) -> (on: bool) {
        let bits = self.channel.get_controller().get_solenoid_bitset();
        assert(self.may_read(bits));
        read_masked(bits, Channel::MASK)
    }

    fn set(&mut self, state: bool)
        ensures
            *final(self) == *old(self),
    {
        let write = write_masked(Channel::MASK, state);
        self.channel.get_controller().set_solenoid_bitset(write.mask, write.values);
    }
}

/// A double solenoid on two channels of one borrowed hub, with the
/// channels encoded in the type system.
pub struct RevDoubleSolenoid<ForwardChannel: RevChannel, BackwardChannel: RevChannel> {
    forward_channel: ForwardChannel,
    backward_channel: BackwardChannel,
}

impl<Port: RevPhPort, ForwardChannel: RevChannel<Port = Port>, BackwardChannel: RevChannel<Port = Port>> RevDoubleSolenoid<
    ForwardChannel,
    BackwardChannel,
> {
    /// The channel that drives this solenoid forwards.
    pub closed spec fn forward(&self) -> ForwardChannel {
        self.forward_channel
    }

    /// The channel that drives this solenoid backwards.
    pub closed spec fn backward(&self) -> BackwardChannel {
        self.backward_channel
    }

    /// Creates a double solenoid from two channels if both lead to the same
    /// hub, and hands the channels back if they do not. Which hub a
    /// channel leads to is found out here, at run time; what follows from
    /// the answer is said by [`RevDoubleSolenoid::from_check`].
    pub fn new(forward_channel: ForwardChannel, backward_channel: BackwardChannel) -> (made:
        Result<Self, (ForwardChannel, BackwardChannel)>)
        ensures
            match made {
                Ok(solenoid) => solenoid.forward() == forward_channel && solenoid.backward()
                    == backward_channel,
                Err(channels) => channels == (forward_channel, backward_channel),
            },
    {
        let same = same_place(forward_channel.get_controller(), backward_channel.get_controller());
        Self::from_check(forward_channel, backward_channel, same)
    }

    /// Makes the double solenoid of two channels, given the answer to the
    /// question whether both lead to the same hub. With yes the solenoid
    /// is made of the two channels, forward first; with no the two channels
    /// come back as they were.
    pub fn from_check(
        forward_channel: ForwardChannel,
        backward_channel: BackwardChannel,
        same: bool,
    ) -> (made: Result<Self, (ForwardChannel, BackwardChannel)>)
        ensures
            made is Ok <==> same,
            match made {
                Ok(solenoid) => solenoid.forward() == forward_channel && solenoid.backward()
                    == backward_channel,
                Err(channels) => channels == (forward_channel, backward_channel),
            },
    {
        if same {
            Ok(Self { forward_channel, backward_channel })
        } else {
            Err((forward_channel, backward_channel))
        }
    }

    /// Releases the channels used by this double solenoid for reuse.
    pub fn into_channels(self) -> (channels: (ForwardChannel, BackwardChannel))
        ensures
            channels == (self.forward(), self.backward()),
    {
        (self.forward_channel, self.backward_channel)
    }

    /// Type-erases the channels used by this double solenoid, storing their
    /// masks at runtime. The solenoid is lent out for as long as the erased
    /// one lives.
    pub fn erase_channel(&mut self) -> (erased: AnyRevDoubleSolenoid<'_, Port>)
        ensures
            *final(self) == *old(self),
            erased.controller() == old(self).forward().controller(),
            erased.forward_mask() == ForwardChannel::MASK,
            erased.backward_mask() == BackwardChannel::MASK,
    {
        AnyRevDoubleSolenoid {
            ph: self.forward_channel.get_controller(),
            forward_mask: ForwardChannel::MASK,
            backward_mask: BackwardChannel::MASK,
        }
    }

    /// Type-erases the channels and the kind of controller used by this
    /// double solenoid.
    pub fn erase_all<Other: CtrePcmPort>(&mut self) -> (erased: AnyDoubleSolenoid<'_, Other, Port>)
        ensures
            *final(self) == *old(self),
            erased.forward_mask() == ForwardChannel::MASK,
            erased.backward_mask() == BackwardChannel::MASK,
            erased.solenoid() matches GenericDoubleSolenoid::Rev(inner) && inner.controller()
                == old(self).forward().controller(),
    {
        AnyDoubleSolenoid::from_generic(GenericDoubleSolenoid::Rev(self.erase_channel()))
    }
}

impl<Port: RevPhPort, ForwardChannel: RevChannel<Port = Port>, BackwardChannel: RevChannel<Port = Port>> DoubleSolenoid for RevDoubleSolenoid<
    ForwardChannel,
    BackwardChannel,
> {
    open spec fn forward_mask(&self) -> u32 {
        ForwardChannel::MASK
    }

    open spec fn backward_mask(&self) -> u32 {
        BackwardChannel::MASK
    }

    open spec fn may_read(&self, bits: u32) -> bool {
        self.forward().controller().may_read(bits)
    }

    open spec fn may_write(&self, mask: u32, values: u32) -> bool {
        self.forward().controller().may_write(mask, values)
    }

    open spec fn state_in(&self, bits: u32) -> Result<
        DoubleSolenoidState,
        InvalidDoubleSolenoidState,
    > {
        double_state_masked(bits, ForwardChannel::MASK, BackwardChannel::MASK)
    }

    fn get(&self) -> (state: Result<DoubleSolenoidState, InvalidDoubleSolenoidState>) {
        let bits = self.forward_channel.get_controller().get_solenoid_bitset();
        assert(self.may_read(bits));
        read_double_masked(bits, ForwardChannel::MASK, BackwardChannel::MASK)
    }

    fn set(&mut self, state: DoubleSolenoidState)
        ensures
            *final(self) == *old(self),
    {
        let write = write_double_masked(ForwardChannel::MASK, BackwardChannel::MASK, state);
        self.forward_channel.get_controller().set_solenoid_bitset(write.mask, write.values);
    }
}

/// A solenoid of a borrowed hub with its mask stored at runtime.
pub struct AnyRevSolenoid<'a, Port: RevPhPort> {
    ph: &'a RevPh<Port>,
    mask: u32,
}

impl<'a, Port: RevPhPort> AnyRevSolenoid<'a, Port> {
    /// The hub that this solenoid belongs to.
    pub closed spec fn controller(&self) -> RevPh<Port> {
        *self.ph
    }
}

impl<'a, Port: RevPhPort> Solenoid for AnyRevSolenoid<'a, Port> {
    closed spec fn mask(&self) -> u32 {
        self.mask
    }

    open spec fn may_read(&self, bits: u32) -> bool {
        self.controller().may_read(bits)
    }

    open spec fn may_write(&self, mask: u32, values: u32) -> bool {
        self.controller().may_write(mask, values)
    }

    fn get(&self) -> (on: bool) {
        let bits = self.ph.get_solenoid_bitset();
        assert(self.may_read(bits));
        read_masked(bits, self.mask)
    }

    fn set(&mut self, state: bool)
        ensures
            *final(self) == *old(self),
    {
        let write = write_masked(self.mask, state);
        self.ph.set_solenoid_bitset(write.mask, write.values);
    }
}

/// A double solenoid of a borrowed hub with its masks stored at runtime.
pub struct AnyRevDoubleSolenoid<'a, Port: RevPhPort> {
    ph: &'a RevPh<Port>,
    forward_mask: u32,
    backward_mask: u32,
}

impl<'a, Port: RevPhPort> AnyRevDoubleSolenoid<'a, Port> {
    /// The hub that this solenoid belongs to.
    pub closed spec fn controller(&self) -> RevPh<Port> {
        *self.ph
    }
}

impl<'a, Port: RevPhPort> DoubleSolenoid for AnyRevDoubleSolenoid<'a, Port> {
    closed spec fn forward_mask(&self) -> u32 {
        self.forward_mask
    }

    closed spec fn backward_mask(&self) -> u32 {
        self.backward_mask
    }

    open spec fn may_read(&self, bits: u32) -> bool {
        self.controller().may_read(bits)
    }

    open spec fn may_write(&self, mask: u32, values: u32) -> bool {
        self.controller().may_write(mask, values)
    }

    open spec fn state_in(&self, bits: u32) -> Result<
        DoubleSolenoidState,
        InvalidDoubleSolenoidState,
    > {
        double_state_masked(bits, self.forward_mask(), self.backward_mask())
    }

    fn get(&self) -> (state: Result<DoubleSolenoidState, InvalidDoubleSolenoidState>) {
        let bits = self.ph.get_solenoid_bitset();
        assert(self.may_read(bits));
        read_double_masked(bits, self.forward_mask, self.backward_mask)
    }

    fn set(&mut self, state: DoubleSolenoidState)
        ensures
            *final(self) == *old(self),
    {
        let write = write_double_masked(self.forward_mask, self.backward_mask, state);
        self.ph.set_solenoid_bitset(write.mask, write.values);
    }
}

} // verus!
