//! Solenoids of a CTRE Pneumatics Control Module that borrow the module instead of sharing it.
//!
//! [`CtrePcm::as_parts`] lends the module out as a compressor and eight
//! channels. The parts live no longer than the loan, and while they live the
//! module cannot be partitioned again. Here a channel is known by its mask,
//! the word with only its own bit set.

use crate::pneumatics::bitset::{
    channel_mask,
    double_state_masked,
    lemma_channel_mask_values,
    read_double_masked,
    read_masked,
    write_double_masked,
    write_masked,
    DoubleSolenoidState,
    InvalidDoubleSolenoidState,
};
use crate::pneumatics::borrowed::{
    AnyDoubleSolenoid,
    AnySolenoid,
    GenericDoubleSolenoid,
    GenericSolenoid,
};
use crate::pneumatics::compressor::{flag_from_word, word_from_flag, Compressor, DigitalCompressor};
use crate::pneumatics::ctre_pcm::{CtrePcm, CtrePcmPort};
use crate::pneumatics::rev_ph::RevPhPort;
use crate::pneumatics::solenoid::{
    same_place,
    DoubleSolenoid,
    Solenoid,
    SolenoidController,
};
use vstd::prelude::*;

verus! {

impl<Port: CtrePcmPort> CtrePcm<Port> {
    /// Lends the module out as its compressor and its eight solenoid
    /// channels. Every part refers to this module, and each channel is given
    /// out once for as long as the loan lasts.
    pub fn as_parts(&mut self) -> (parts: (CtreCompressor<'_, Port>, CtrePneumatics<'_, Port>))
        ensures
            *final(self) == *old(self),
            parts.0.controller() == *old(self),
            parts.1.channel0.controller() == *old(self),
            parts.1.channel1.controller() == *old(self),
            parts.1.channel2.controller() == *old(self),
            parts.1.channel3.controller() == *old(self),
            parts.1.channel4.controller() == *old(self),
            parts.1.channel5.controller() == *old(self),
            parts.1.channel6.controller() == *old(self),
            parts.1.channel7.controller() == *old(self),
    {
        let pcm: &CtrePcm<Port> = &*self;
        (
            CtreCompressor { pcm },
            CtrePneumatics {
                channel0: CtreChannel0 { pcm },
                channel1: CtreChannel1 { pcm },
                channel2: CtreChannel2 { pcm },
                channel3: CtreChannel3 { pcm },
                channel4: CtreChannel4 { pcm },
                channel5: CtreChannel5 { pcm },
                channel6: CtreChannel6 { pcm },
                channel7: CtreChannel7 { pcm },
            },
        )
    }
}

/// The compressor of a borrowed module.
pub struct CtreCompressor<'a, Port: CtrePcmPort> {
    pcm: &'a CtrePcm<Port>,
}

impl<'a, Port: CtrePcmPort> CtreCompressor<'a, Port> {
    /// The module that this compressor belongs to.
    pub closed spec fn controller(&self) -> CtrePcm<Port> {
        *self.pcm
    }
}

impl<'a, Port: CtrePcmPort> Compressor for CtreCompressor<'a, Port> {
    /// Reads the port's `compressor` once; every word but zero means
    /// running.
    fn running(&self) -> (on: bool)
        ensures
            exists|word: i32| #[trigger]
                call_ensures(Port::compressor, (&self.controller().port(),), word) && on == (word
                    != 0),
    {
        let word = self.pcm.port_ref().compressor();
        assert(call_ensures(Port::compressor, (&self.controller().port(),), word));
        flag_from_word(word)
    }

    /// Switches closed-loop control off with one call of the port's
    /// `set_closed_loop_control`.
    fn disable(&mut self)
        ensures
            final(self).controller() == old(self).controller(),
            call_ensures(
                Port::set_closed_loop_control,
                (&old(self).controller().port(), 0i32),
                (),
            ),
    {
        self.pcm.port_ref().set_closed_loop_control(word_from_flag(false));
    }
}

impl<'a, Port: CtrePcmPort> DigitalCompressor for CtreCompressor<'a, Port> {
    /// Reads the port's `pressure_switch` once; every word but zero means
    /// that the switch is set.
    fn get_pressure_switch(&self) -> (on: bool)
        ensures
            exists|word: i32| #[trigger]
                call_ensures(Port::pressure_switch, (&self.controller().port(),), word) && on == (
                word != 0),
    {
        let word = self.pcm.port_ref().pressure_switch();
        assert(call_ensures(Port::pressure_switch, (&self.controller().port(),), word));
        flag_from_word(word)
    }

    /// Switches closed-loop control by the pressure switch on with one call
    /// of the port's `set_closed_loop_control`.
    fn enable_digital(&mut self)
        ensures
            final(self).controller() == old(self).controller(),
            call_ensures(
                Port::set_closed_loop_control,
                (&old(self).controller().port(), 1i32),
                (),
            ),
    {
        self.pcm.port_ref().set_closed_loop_control(word_from_flag(true));
    }

    /// Reads the port's `closed_loop_control` once and holds the word against what
    /// digital mode reads as.
    fn in_digital_mode(&self) -> (is: bool)
        ensures
            exists|word: i32| #[trigger]
                call_ensures(Port::closed_loop_control, (&self.controller().port(),), word) && is == (
                word != 0),
    {
        let word = self.pcm.port_ref().closed_loop_control();
        assert(call_ensures(Port::closed_loop_control, (&self.controller().port(),), word));
        flag_from_word(word)
    }
}

/// A channel of a borrowed module: a reference to the module together with
/// a mask that is part of the type.
pub trait CtreChannel {
    /// The mask of this channel: the word with only the channel's bit set.
    const MASK: u32;

    /// The port of the module that this channel belongs to.
    type Port: CtrePcmPort;

    /// The module that this channel belongs to.
    spec fn controller(&self) -> CtrePcm<Self::Port>;

    /// The mask has a bit set. A channel type says here in addition which
    /// bit it is.
    proof fn mask_is_set()
        ensures
            Self::MASK != 0,
    ;

    /// Gives the module that this channel belongs to.
    fn get_controller(&self) -> (controller: &CtrePcm<Self::Port>)
        ensures
            *controller == self.controller(),
    ;
}

/// Channel 0 of a borrowed module.
pub struct CtreChannel0<'a, Port: CtrePcmPort> {
    pcm: &'a CtrePcm<Port>,
}

impl<'a, Port: CtrePcmPort> CtreChannel for CtreChannel0<'a, Port> {
    const MASK: u32 = 0x0001;

    type Port = Port;

    closed spec fn controller(&self) -> CtrePcm<Port> {
        *self.pcm
    }

    proof fn mask_is_set()
        ensures
            Self::MASK == 0x0001,
            Self::MASK == channel_mask(0),
    {
        lemma_channel_mask_values();
    }

    fn get_controller(&self) -> (controller: &CtrePcm<Port>) {
        self.pcm
    }
}

/// Channel 1 of a borrowed module.
pub struct CtreChannel1<'a, Port: CtrePcmPort> {
    pcm: &'a CtrePcm<Port>,
}

impl<'a, Port: CtrePcmPort> CtreChannel for CtreChannel1<'a, Port> {
    const MASK: u32 = 0x0002;

    type Port = Port;

    closed spec fn controller(&self) -> CtrePcm<Port> {
        *self.pcm
    }

    proof fn mask_is_set()
        ensures
            Self::MASK == 0x0002,
            Self::MASK == channel_mask(1),
    {
        lemma_channel_mask_values();
    }

    fn get_controller(&self) -> (controller: &CtrePcm<Port>) {
        self.pcm
    }
}

/// Channel 2 of a borrowed module.
pub struct CtreChannel2<'a, Port: CtrePcmPort> {
    pcm: &'a CtrePcm<Port>,
}

impl<'a, Port: CtrePcmPort> CtreChannel for CtreChannel2<'a, Port> {
    const MASK: u32 = 0x0004;

    type Port = Port;

    closed spec fn controller(&self) -> CtrePcm<Port> {
        *self.pcm
    }

    proof fn mask_is_set()
        ensures
            Self::MASK == 0x0004,
            Self::MASK == channel_mask(2),
    {
        lemma_channel_mask_values();
    }

    fn get_controller(&self) -> (controller: &CtrePcm<Port>) {
        self.pcm
    }
}

/// Channel 3 of a borrowed module.
pub struct CtreChannel3<'a, Port: CtrePcmPort> {
    pcm: &'a CtrePcm<Port>,
}

impl<'a, Port: CtrePcmPort> CtreChannel for CtreChannel3<'a, Port> {
    const MASK: u32 = 0x0008;

    type Port = Port;

    closed spec fn controller(&self) -> CtrePcm<Port> {
        *self.pcm
    }

    proof fn mask_is_set()
        ensures
            Self::MASK == 0x0008,
            Self::MASK == channel_mask(3),
    {
        lemma_channel_mask_values();
    }

    fn get_controller(&self) -> (controller: &CtrePcm<Port>) {
        self.pcm
    }
}

/// Channel 4 of a borrowed module.
pub struct CtreChannel4<'a, Port: CtrePcmPort> {
    pcm: &'a CtrePcm<Port>,
}

impl<'a, Port: CtrePcmPort> CtreChannel for CtreChannel4<'a, Port> {
    const MASK: u32 = 0x0010;

    type Port = Port;

    closed spec fn controller(&self) -> CtrePcm<Port> {
        *self.pcm
    }

    proof fn mask_is_set()
        ensures
            Self::MASK == 0x0010,
            Self::MASK == channel_mask(4),
    {
        lemma_channel_mask_values();
    }

    fn get_controller(&self) -> (controller: &CtrePcm<Port>) {
        self.pcm
    }
}

/// Channel 5 of a borrowed module.
pub struct CtreChannel5<'a, Port: CtrePcmPort> {
    pcm: &'a CtrePcm<Port>,
}

impl<'a, Port: CtrePcmPort> CtreChannel for CtreChannel5<'a, Port> {
    const MASK: u32 = 0x0020;

    type Port = Port;

    closed spec fn controller(&self) -> CtrePcm<Port> {
        *self.pcm
    }

    proof fn mask_is_set()
        ensures
            Self::MASK == 0x0020,
            Self::MASK == channel_mask(5),
    {
        lemma_channel_mask_values();
    }

    fn get_controller(&self) -> (controller: &CtrePcm<Port>) {
        self.pcm
    }
}

/// Channel 6 of a borrowed module.
pub struct CtreChannel6<'a, Port: CtrePcmPort> {
    pcm: &'a CtrePcm<Port>,
}

impl<'a, Port: CtrePcmPort> CtreChannel for CtreChannel6<'a, Port> {
    const MASK: u32 = 0x0040;

    type Port = Port;

    closed spec fn controller(&self) -> CtrePcm<Port> {
        *self.pcm
    }

    proof fn mask_is_set()
        ensures
            Self::MASK == 0x0040,
            Self::MASK == channel_mask(6),
    {
        lemma_channel_mask_values();
    }

    fn get_controller(&self) -> (controller: &CtrePcm<Port>) {
        self.pcm
    }
}

/// Channel 7 of a borrowed module.
pub struct CtreChannel7<'a, Port: CtrePcmPort> {
    pcm: &'a CtrePcm<Port>,
}

impl<'a, Port: CtrePcmPort> CtreChannel for CtreChannel7<'a, Port> {
    const MASK: u32 = 0x0080;

    type Port = Port;

    closed spec fn controller(&self) -> CtrePcm<Port> {
        *self.pcm
    }

    proof fn mask_is_set()
        ensures
            Self::MASK == 0x0080,
            Self::MASK == channel_mask(7),
    {
        lemma_channel_mask_values();
    }

    fn get_controller(&self) -> (controller: &CtrePcm<Port>) {
        self.pcm
    }
}

/// The solenoid channels of a borrowed module, one of each.
pub struct CtrePneumatics<'a, Port: CtrePcmPort> {
    pub channel0: CtreChannel0<'a, Port>,
    pub channel1: CtreChannel1<'a, Port>,
    pub channel2: CtreChannel2<'a, Port>,
    pub channel3: CtreChannel3<'a, Port>,
    pub channel4: CtreChannel4<'a, Port>,
    pub channel5: CtreChannel5<'a, Port>,
    pub channel6: CtreChannel6<'a, Port>,
    pub channel7: CtreChannel7<'a, Port>,
}

/// A solenoid on a channel of a borrowed module, with the channel encoded in
/// the type system.
pub struct CtreSolenoid<Channel: CtreChannel> {
    channel: Channel,
}

impl<Channel: CtreChannel> CtreSolenoid<Channel> {
    /// The channel that this solenoid holds.
    pub closed spec fn held(&self) -> Channel {
        self.channel
    }

    /// Creates a solenoid from a channel.
    pub fn new(channel: Channel) -> (solenoid: Self)
        ensures
            solenoid.held() == channel,
    {
        Self { channel }
    }

    /// Releases the channel used by this solenoid for reuse.
    pub fn into_channel(self) -> (channel: Channel)
        ensures
            channel == self.held(),
    {
        self.channel
    }

    /// Type-erases the channel used by this solenoid, storing its mask at
    /// runtime. The solenoid is lent out for as long as the erased one
    /// lives.
    pub fn erase_channel(&mut self) -> (erased: AnyCtreSolenoid<'_, Channel::Port>)
        ensures
            *final(self) == *old(self),
            erased.controller() == old(self).held().controller(),
            erased.mask() == Channel::MASK,
    {
        AnyCtreSolenoid { pcm: self.channel.get_controller(), mask: Channel::MASK }
    }

    /// Type-erases the channel and the kind of controller used by this
    /// solenoid.
    pub fn erase_all<Other: RevPhPort>(&mut self) -> (erased: AnySolenoid<'_, Channel::Port, Other>)
        ensures
            *final(self) == *old(self),
            erased.mask() == Channel::MASK,
            erased.solenoid() matches GenericSolenoid::Ctre(inner) && inner.controller() == old(
                self,
            ).held().controller(),
    {
        AnySolenoid::from_generic(GenericSolenoid::Ctre(self.erase_channel()))
    }
}

impl<Channel: CtreChannel> Solenoid for CtreSolenoid<Channel> {
    open spec fn mask(&self) -> u32 {
        Channel::MASK
    }

    open spec fn may_read(&self, bits: u32) -> bool {
        self.held().controller().may_read(bits)
    }

    open spec fn may_write(&self, mask: u32, values: u32) -> bool {
        self.held().controller().may_write(mask, values)
    }

    fn get(&self) -> (on: bool) {
        let bits = self.channel.get_controller().get_solenoid_bitset();
        assert(self.may_read(bits));
        read_masked(bits, Channel::MASK)
    }

    fn set(&mut self, state: bool)
        ensures
            *final(self) == *old(self),
    {
        let write = write_masked(Channel::MASK, state);
        self.channel.get_controller().set_solenoid_bitset(write.mask, write.values);
    }
}

/// A double solenoid on two channels of one borrowed module, with the
/// channels encoded in the type system.
pub struct CtreDoubleSolenoid<ForwardChannel: CtreChannel, BackwardChannel: CtreChannel> {
    forward_channel: ForwardChannel,
    backward_channel: BackwardChannel,
}

impl<Port: CtrePcmPort, ForwardChannel: CtreChannel<Port = Port>, BackwardChannel: CtreChannel<Port = Port>> CtreDoubleSolenoid<
    ForwardChannel,
    BackwardChannel,
> {
    /// The channel that drives this solenoid forwards.
    pub closed spec fn forward(&self) -> ForwardChannel {
        self.forward_channel
    }

    /// The channel that drives this solenoid backwards.
    pub closed spec fn backward(&self) -> BackwardChannel {
        self.backward_channel
    }

    /// Creates a double solenoid from two channels if both lead to the same
    /// module, and hands the channels back if they do not. Which module a
    /// channel leads to is found out here, at run time; what follows from
    /// the answer is said by [`CtreDoubleSolenoid::from_check`].
    pub fn new(forward_channel: ForwardChannel, backward_channel: BackwardChannel) -> (made:
        Result<Self, (ForwardChannel, BackwardChannel)>)
        ensures
            match made {
                Ok(solenoid) => solenoid.forward() == forward_channel && solenoid.backward()
                    == backward_channel,
                Err(channels) => channels == (forward_channel, backward_channel),
            },
    {
        let same = same_place(forward_channel.get_controller(), backward_channel.get_controller());
        Self::from_check(forward_channel, backward_channel, same)
    }

    /// Makes the double solenoid of two channels, given the answer to the
    /// question whether both lead to the same module. With yes the solenoid
    /// is made of the two channels, forward first; with no the two channels
    /// come back as they were.
    pub fn from_check(
        forward_channel: ForwardChannel,
        backward_channel: BackwardChannel,
        same: bool,
    ) -> (made: Result<Self, (ForwardChannel, BackwardChannel)>)
        ensures
            made is Ok <==> same,
            match made {
                Ok(solenoid) => solenoid.forward() == forward_channel && solenoid.backward()
                    == backward_channel,
                Err(channels) => channels == (forward_channel, backward_channel),
            },
    {
        if same {
            Ok(Self { forward_channel, backward_channel })
        } else {
            Err((forward_channel, backward_channel))
        }
    }

    /// Releases the channels used by this double solenoid for reuse.
    pub fn into_channels(self) -> (channels: (ForwardChannel, BackwardChannel))
        ensures
            channels == (self.forward(), self.backward()),
    {
        (self.forward_channel, self.backward_channel)
    }

    /// Type-erases the channels used by this double solenoid, storing their
    /// masks at runtime. The solenoid is lent out for as long as the erased
    /// one lives.
    pub fn erase_channel(&mut self) -> (erased: AnyCtreDoubleSolenoid<'_, Port>)
        ensures
            *final(self) == *old(self),
            erased.controller() == old(self).forward().controller(),
            erased.forward_mask() == ForwardChannel::MASK,
            erased.backward_mask() == BackwardChannel::MASK,
    {
        AnyCtreDoubleSolenoid {
            pcm: self.forward_channel.get_controller(),
            forward_mask: ForwardChannel::MASK,
            backward_mask: BackwardChannel::MASK,
        }
    }

    /// Type-erases the channels and the kind of controller used by this
    /// double solenoid.
    pub fn erase_all<Other: RevPhPort>(&mut self) -> (erased: AnyDoubleSolenoid<'_, Port, Other>)
        ensures
            *final(self) == *old(self),
            erased.forward_mask() == ForwardChannel::MASK,
            erased.backward_mask() == BackwardChannel::MASK,
            erased.solenoid() matches GenericDoubleSolenoid::Ctre(inner) && inner.controller()
                == old(self).forward().controller(),
    {
        AnyDoubleSolenoid::from_generic(GenericDoubleSolenoid::Ctre(self.erase_channel()))
    }
}

impl<Port: CtrePcmPort, ForwardChannel: CtreChannel<Port = Port>, BackwardChannel: CtreChannel<Port = Port>> DoubleSolenoid for CtreDoubleSolenoid<
    ForwardChannel,
    BackwardChannel,
> {
    open spec fn forward_mask(&self) -> u32 {
        ForwardChannel::MASK
    }

    open spec fn backward_mask(&self) -> u32 {
        BackwardChannel::MASK
    }

    open spec fn may_read(&self, bits: u32) -> bool {
        self.forward().controller().may_read(bits)
    }

    open spec fn may_write(&self, mask: u32, values: u32) -> bool {
        self.forward().controller().may_write(mask, values)
    }

    open spec fn state_in(&self, bits: u32) -> Result<
        DoubleSolenoidState,
        InvalidDoubleSolenoidState,
    > {
        double_state_masked(bits, ForwardChannel::MASK, BackwardChannel::MASK)
    }

    fn get(&self) -> (state: Result<DoubleSolenoidState, InvalidDoubleSolenoidState>) {
        let bits = self.forward_channel.get_controller().get_solenoid_bitset();
        assert(self.may_read(bits));
        read_double_masked(bits, ForwardChannel::MASK, BackwardChannel::MASK)
    }

    fn set(&mut self, state: DoubleSolenoidState)
        ensures
            *final(self) == *old(self),
    {
        let write = write_double_masked(ForwardChannel::MASK, BackwardChannel::MASK, state);
        self.forward_channel.get_controller().set_solenoid_bitset(write.mask, write.values);
    }
}

/// A solenoid of a borrowed module with its mask stored at runtime.
pub struct AnyCtreSolenoid<'a, Port: CtrePcmPort> {
    pcm: &'a CtrePcm<Port>,
    mask: u32,
}

impl<'a, Port: CtrePcmPort> AnyCtreSolenoid<'a, Port> {
    /// The module that this solenoid belongs to.
    pub closed spec fn controller(&self) -> CtrePcm<Port> {
        *self.pcm
    }
}

impl<'a, Port: CtrePcmPort> Solenoid for AnyCtreSolenoid<'a, Port> {
    closed spec fn mask(&self) -> u32 {
        self.mask
    }

    open spec fn may_read(&self, bits: u32) -> bool {
        self.controller().may_read(bits)
    }

    open spec fn may_write(&self, mask: u32, values: u32) -> bool {
        self.controller().may_write(mask, values)
    }

    fn get(&self) -> (on: bool) {
        let bits = self.pcm.get_solenoid_bitset();
        assert(self.may_read(bits));
        read_masked(bits, self.mask)
    }

    fn set(&mut self, state: bool)
        ensures
            *final(self) == *old(self),
    {
        let write = write_masked(self.mask, state);
        self.pcm.set_solenoid_bitset(write.mask, write.values);
    }
}

/// A double solenoid of a borrowed module with its masks stored at runtime.
pub struct AnyCtreDoubleSolenoid<'a, Port: CtrePcmPort> {
    pcm: &'a CtrePcm<Port>,
    forward_mask: u32,
    backward_mask: u32,
}

impl<'a, Port: CtrePcmPort> AnyCtreDoubleSolenoid<'a, Port> {
    /// The module that this solenoid belongs to.
    pub closed spec fn controller(&self) -> CtrePcm<Port> {
        *self.pcm
    }
}

impl<'a, Port: CtrePcmPort> DoubleSolenoid for AnyCtreDoubleSolenoid<'a, Port> {
    closed spec fn forward_mask(&self) -> u32 {
        self.forward_mask
    }

    closed spec fn backward_mask(&self) -> u32 {
        self.backward_mask
    }

    open spec fn may_read(&self, bits: u32) -> bool {
        self.controller().may_read(bits)
    }

    open spec fn may_write(&self, mask: u32, values: u32) -> bool {
        self.controller().may_write(mask, values)
    }

    open spec fn state_in(&self, bits: u32) -> Result<
        DoubleSolenoidState,
        InvalidDoubleSolenoidState,
    > {
        double_state_masked(bits, self.forward_mask(), self.backward_mask())
    }

    fn get(&self) -> (state: Result<DoubleSolenoidState, InvalidDoubleSolenoidState>) {
        let bits = self.pcm.get_solenoid_bitset();
        assert(self.may_read(bits));
        read_double_masked(bits, self.forward_mask, self.backward_mask)
    }

    fn set(&mut self, state: DoubleSolenoidState)
        ensures
            *final(self) == *old(self),
    {
        let write = write_double_masked(self.forward_mask, self.backward_mask, state);
        self.pcm.set_solenoid_bitset(write.mask, write.values);
    }
}

} // verus!
