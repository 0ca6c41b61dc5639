//! Solenoid controllers, channel capabilities, and the solenoid types built
//! from them.
//!
//! A channel capability binds one physical channel to one controller, and at
//! most one capability exists for a channel of a controller at any time.
//! Moving a capability into a solenoid consumes it. The typed solenoids know
//! their channels from their type alone and can hand the capabilities back.
//! The erased solenoids keep the channel in a field, and the fully erased ones
//! reach their controller through dynamic dispatch; both have given up the
//! capability for good.

use crate::pneumatics::bitset::{
    channel_mask,
    double_state,
    double_write,
    double_write_spec,
    is_actuated,
    masked_double_write_spec,
    read_double,
    read_single,
    single_write,
    single_write_spec,
    DoubleSolenoidState,
    InvalidDoubleSolenoidState,
    CHANNEL_LIMIT,
};
use std::marker::PhantomData;
use std::sync::Arc;
use vstd::prelude::*;

verus! {

/// Common functionality of solenoid controllers.
///
/// A controller holds the state of its solenoids as a bitset, bit `i` for
/// channel `i`. The two required methods are direct hardware access: nothing
/// is cached, so what a read returns is decided by the hardware alone, and a
/// write is visible to every holder of the controller. A controller may be
/// called from several threads at once.
///
/// An implementation owes that [`SolenoidController::set_solenoid_bitset`]
/// turns the bitset `b` into
/// [`masked_write(b, mask, values)`](crate::pneumatics::bitset::masked_write).
/// The provided methods rest on that and on nothing else.
///
/// What the hardware holds cannot be said here, since it changes behind
/// every holder's back. What can be said is which access was made. The two
/// relations below stand for the two kinds of access. Nothing establishes
/// one of them but the access itself, so a method that ensures one has made
/// that access: every method says by them which read its result comes from
/// and which write it made.
pub trait SolenoidController {
    /// Whether a read of this controller's bitset can come back with `bits`.
    /// An implementation says what a read is; on hardware it is the call
    /// into the hardware layer.
    spec fn may_read(&self, bits: u32) -> bool;

    /// Whether a masked write with this mask and these values on this
    /// controller can come back. An implementation says what a write is; on
    /// hardware it is the call into the hardware layer.
    spec fn may_write(&self, mask: u32, values: u32) -> bool;

    /// Gets the current state of all solenoids as a bitset (i.e. if bit 0 is
    /// set, the solenoid in channel 0 is currently actuated).
    fn get_solenoid_bitset(&self) -> (bits: u32)
        ensures
            self.may_read(bits),
    ;

    /// Sets the solenoid bitset through a mask. Each solenoid whose bit is set
    /// in `mask` takes the state of its bit in `values`; the others are left
    /// as they are.
    fn set_solenoid_bitset(&self, mask: u32, values: u32)
        ensures
            self.may_write(mask, values),
    ;

    /// Gets the state of a single solenoid: one read of the bitset, passed
    /// through [`read_single`].
    fn get_solenoid(&self, channel: u32) -> (on: bool)
        requires
            channel < CHANNEL_LIMIT,
        ensures
            exists|bits: u32| #[trigger] self.may_read(bits) && on == is_actuated(bits, channel),
    {
        read_single(self.get_solenoid_bitset(), channel)
    }

    /// Sets the state of a single solenoid with the one write that
    /// [`single_write`] builds.
    fn set_solenoid(&self, channel: u32, state: bool)
        requires
            channel < CHANNEL_LIMIT,
        ensures
            self.may_write(
                single_write_spec(channel, state).mask,
                single_write_spec(channel, state).values,
            ),
    {
        let write = single_write(channel, state);
        self.set_solenoid_bitset(write.mask, write.values);
    }

    /// Gets the state of a double solenoid: one read of the bitset, passed
    /// through [`read_double`]. A solenoid that is actuated on both ends comes
    /// back as [`InvalidDoubleSolenoidState`].
    fn get_double_solenoid(&self, forward_channel: u32, backward_channel: u32) -> (state: Result<
        DoubleSolenoidState,
        InvalidDoubleSolenoidState,
    >)
        requires
            forward_channel < CHANNEL_LIMIT,
            backward_channel < CHANNEL_LIMIT,
        ensures
            exists|bits: u32| #[trigger]
                self.may_read(bits) && state == double_state(
                    bits,
                    forward_channel,
                    backward_channel,
                ),
    {
        read_double(self.get_solenoid_bitset(), forward_channel, backward_channel)
    }

    /// Sets the state of a double solenoid with the one write that
    /// [`double_write`] builds, so that no state between the old and the new
    /// one is ever visible.
    fn set_double_solenoid(
        &self,
        forward_channel: u32,
        backward_channel: u32,
        state: DoubleSolenoidState,
    )
        requires
            forward_channel < CHANNEL_LIMIT,
            backward_channel < CHANNEL_LIMIT,
        ensures
            self.may_write(
                double_write_spec(forward_channel, backward_channel, state).mask,
                double_write_spec(forward_channel, backward_channel, state).values,
            ),
    {
        let write = double_write(forward_channel, backward_channel, state);
        self.set_solenoid_bitset(write.mask, write.values);
    }
}

/// A shared controller is a controller: every call goes to the one behind it.
impl<C: SolenoidController> SolenoidController for Arc<C> {
    open spec fn may_read(&self, bits: u32) -> bool {
        (**self).may_read(bits)
    }

    open spec fn may_write(&self, mask: u32, values: u32) -> bool {
        (**self).may_write(mask, values)
    }

    fn get_solenoid_bitset(&self) -> (bits: u32) {
        (**self).get_solenoid_bitset()
    }

    fn set_solenoid_bitset(&self, mask: u32, values: u32) {
        (**self).set_solenoid_bitset(mask, values)
    }
}

/// A shared controller behind dynamic dispatch, as the fully erased solenoids
/// hold it. It may be called from several threads at once.
pub trait ErasedController: Send + Sync {
    /// Whether a read of the controller's bitset can come back with `bits`.
    spec fn reads(&self, bits: u32) -> bool;

    /// Whether a masked write with this mask and these values on the
    /// controller can come back.
    spec fn writes(&self, mask: u32, values: u32) -> bool;

    /// Reads the controller's bitset.
    fn read_bitset(&self) -> (bits: u32)
        ensures
            self.reads(bits),
    ;

    /// Makes a masked write on the controller.
    fn write_bitset(&self, mask: u32, values: u32)
        ensures
            self.writes(mask, values),
    ;
}

/// Every shared controller that may cross threads can be erased: each call
/// goes to the one behind the reference.
impl<C: SolenoidController + Send + Sync> ErasedController for Arc<C> {
    open spec fn reads(&self, bits: u32) -> bool {
        (**self).may_read(bits)
    }

    open spec fn writes(&self, mask: u32, values: u32) -> bool {
        (**self).may_write(mask, values)
    }

    fn read_bitset(&self) -> (bits: u32) {
        (**self).get_solenoid_bitset()
    }

    fn write_bitset(&self, mask: u32, values: u32) {
        (**self).set_solenoid_bitset(mask, values)
    }
}

/// Hands out one more reference to a shared controller. Calls `Arc::clone`;
/// the contract claims that the new reference leads to the same value.
#[verifier::external_body]
pub(crate) fn share<C>(controller: &Arc<C>) -> (shared: Arc<C>)
    ensures
        *shared == **controller,
{
    Arc::clone(controller)
}

/// Tells whether two references lead to the same controller instance. Calls
/// `Arc::ptr_eq`; the contract claims only that one instance has one value.
#[verifier::external_body]
pub(crate) fn same_instance<C>(first: &Arc<C>, second: &Arc<C>) -> (same: bool)
    ensures
        same ==> **first == **second,
{
    Arc::ptr_eq(first, second)
}

/// Tells whether two references lead to the same place. Calls
/// `std::ptr::eq`, which compares addresses. Nothing is claimed of the
/// answer: values without size may share an address.
#[verifier::external_body]
pub(crate) fn same_place<T>(first: &T, second: &T) -> (same: bool) {
    std::ptr::eq(first, second)
}

/// The leave to make a channel anew. Only the solenoid types of this crate
/// can give it, and they give it for a channel that they have consumed, so
/// that no channel ever exists twice.
pub struct Reissue {
    _consumed: (),
}

impl Reissue {
    /// Gives leave to make anew a channel that the caller has consumed.
    pub(crate) fn consumed() -> Self {
        Self { _consumed: () }
    }
}

/// A channel of a solenoid controller: a reference to the controller together
/// with a channel number that is part of the type.
///
/// Each channel can be actuated and released independently of the others. A
/// value of a channel type is the right to do so: whoever holds it is the only
/// one to drive that channel of that controller.
pub trait SolenoidChannel: Sized {
    /// The channel number of this channel.
    const CHANNEL: u32;

    /// The type of the controller that controls this channel.
    type Controller: SolenoidController;

    /// The controller that this channel belongs to.
    spec fn controller(&self) -> Self::Controller;

    /// The channel number fits a controller's bitset. A channel type says
    /// here in addition which number it has.
    proof fn channel_in_range()
        ensures
            Self::CHANNEL < CHANNEL_LIMIT,
    ;

    /// Gives up the channel for a counted reference to its controller.
    fn into_controller(self) -> (controller: Arc<Self::Controller>)
        ensures
            *controller == self.controller(),
    ;

    /// Creates the channel of a controller anew.
    ///
    /// No other channel with the same channel number and controller may
    /// exist at that moment: two values would then drive one physical
    /// channel. The leave to do so is therefore in the hands of the solenoid
    /// types, which call this with the controller of a channel that they
    /// have consumed.
    fn new(controller: Arc<Self::Controller>, leave: Reissue) -> (channel: Self)
        ensures
            channel.controller() == *controller,
    ;
}

/// A solenoid, which can be actuated in one direction or released.
pub trait Solenoid {
    /// The bit of the controller's bitset that this solenoid drives.
    spec fn mask(&self) -> u32;

    /// Whether a read of this solenoid's controller can come back with
    /// `bits`.
    spec fn may_read(&self, bits: u32) -> bool;

    /// Whether a masked write with this mask and these values on this
    /// solenoid's controller can come back.
    spec fn may_write(&self, mask: u32, values: u32) -> bool;

    /// Gets the state of the solenoid from the hardware: one read of its
    /// controller, of which the solenoid's own bit is returned.
    /// True indicates the solenoid is currently actuated, false indicates released.
    fn get(&self) -> (on: bool)
        ensures
            exists|bits: u32| #[trigger] self.may_read(bits) && on == (bits & self.mask() != 0),
    ;

    /// Sets the state of the solenoid. True actuates it, false releases it.
    /// One write is made on its controller, through the solenoid's own mask.
    /// The solenoid itself stays what it was.
    fn set(&mut self, state: bool)
        ensures
            final(self).mask() == old(self).mask(),
            old(self).may_write(
                old(self).mask(),
                if state {
                    u32::MAX
                } else {
                    0u32
                },
            ),
    ;
}

/// A double solenoid, which can be actuated in either direction or released.
pub trait DoubleSolenoid {
    /// The bit of the controller's bitset that drives this solenoid forwards.
    spec fn forward_mask(&self) -> u32;

    /// The bit of the controller's bitset that drives this solenoid backwards.
    spec fn backward_mask(&self) -> u32;

    /// Whether a read of this solenoid's controller can come back with
    /// `bits`.
    spec fn may_read(&self, bits: u32) -> bool;

    /// Whether a masked write with this mask and these values on this
    /// solenoid's controller can come back.
    spec fn may_write(&self, mask: u32, values: u32) -> bool;

    /// What this solenoid reads out of a bitset of its controller.
    spec fn state_in(&self, bits: u32) -> Result<DoubleSolenoidState, InvalidDoubleSolenoidState>;

    /// Gets the state of the double solenoid from the hardware: one read of
    /// its controller, out of which the state is taken. A solenoid that is
    /// actuated on both ends comes back as [`InvalidDoubleSolenoidState`];
    /// [`DoubleSolenoid::set`] never brings that about.
    fn get(&self) -> (state: Result<DoubleSolenoidState, InvalidDoubleSolenoidState>)
        ensures
            exists|bits: u32| #[trigger] self.may_read(bits) && state == self.state_in(bits),
    ;

    /// Sets the state of the double solenoid in one write on its controller,
    /// through both masks at once. The solenoid itself stays what it was.
    fn set(&mut self, state: DoubleSolenoidState)
        ensures
            final(self).forward_mask() == old(self).forward_mask(),
            final(self).backward_mask() == old(self).backward_mask(),
            old(self).may_write(
                masked_double_write_spec(
                    old(self).forward_mask(),
                    old(self).backward_mask(),
                    state,
                ).mask,
                masked_double_write_spec(
                    old(self).forward_mask(),
                    old(self).backward_mask(),
                    state,
                ).values,
            ),
    ;
}

/// A solenoid with channel and controller type encoded in the type system.
///
/// It holds nothing but the reference to its controller, and it can release
/// its channel for reuse with [`TypedSolenoid::into_channel`]. The price is a
/// type of its own per channel, so several of them cannot be stored in one
/// slice or array. [`TypedSolenoid::erase_channel`] moves the channel into a
/// field, [`TypedSolenoid::erase_all`] the controller type as well.
pub struct TypedSolenoid<Channel: SolenoidChannel> {
    controller: Arc<Channel::Controller>,
}

impl<Channel: SolenoidChannel> TypedSolenoid<Channel> {
    /// The controller of the channel that this solenoid was made from.
    pub closed spec fn controller(&self) -> Channel::Controller {
        *self.controller
    }

    /// Creates a [`TypedSolenoid`] from a channel.
    pub fn new(channel: Channel) -> (solenoid: Self)
        ensures
            solenoid.controller() == channel.controller(),
    {
        Self { controller: channel.into_controller() }
    }

    /// Releases the channel used by this solenoid for reuse. The solenoid had
    /// the channel to itself for as long as it lived, so the channel that
    /// comes back is the only one again.
    pub fn into_channel(self) -> (channel: Channel)
        ensures
            channel.controller() == self.controller(),
    {
        Channel::new(self.controller, Reissue::consumed())
    }

    /// Type-erases the channel used by this solenoid, storing it at runtime.
    pub fn erase_channel(self) -> (erased: ChannelErasedSolenoid<Channel::Controller>)
        ensures
            erased.controller() == self.controller(),
            erased.channel() == Channel::CHANNEL,
    {
        proof {
            Channel::channel_in_range();
        }
        ChannelErasedSolenoid { controller: self.controller, channel: Channel::CHANNEL }
    }

    /// Type-erases the channel and controller used by this solenoid, storing
    /// both at runtime.
    pub fn erase_all(self) -> (erased: AnySolenoid) where
        Channel::Controller: Send + Sync + 'static,
        ensures
            erased.channel() == Channel::CHANNEL,
            forall|bits: u32| erased.may_read(bits) == self.may_read(bits),
            forall|mask: u32, values: u32|
                erased.may_write(mask, values) == self.may_write(mask, values),
    {
        proof {
            Channel::channel_in_range();
        }
        AnySolenoid { controller: Box::new(self.controller), channel: Channel::CHANNEL }
    }
}

impl<Channel: SolenoidChannel> Solenoid for TypedSolenoid<Channel> {
    open spec fn mask(&self) -> u32 {
        channel_mask(Channel::CHANNEL)
    }

    open spec fn may_read(&self, bits: u32) -> bool {
        self.controller().may_read(bits)
    }

    open spec fn may_write(&self, mask: u32, values: u32) -> bool {
        self.controller().may_write(mask, values)
    }

    fn get(&self) -> (on: bool) {
        proof {
            Channel::channel_in_range();
        }
        let on = self.controller.get_solenoid(Channel::CHANNEL);
        proof {
            let bits = choose|bits: u32| #[trigger]
                self.controller.may_read(bits) && on == is_actuated(bits, Channel::CHANNEL);
            assert(self.may_read(bits));
        }
        on
    }

    fn set(&mut self, state: bool)
        ensures
            final(self).controller() == old(self).controller(),
    {
        proof {
            Channel::channel_in_range();
        }
        self.controller.set_solenoid(Channel::CHANNEL, state);
    }
}

/// A solenoid with its channel stored at runtime, but controller type still
/// in the type system. Created by [`TypedSolenoid::erase_channel`]. Several
/// solenoids of one kind of controller can be stored together in this form.
pub struct ChannelErasedSolenoid<Controller: SolenoidController> {
    controller: Arc<Controller>,
    channel: u32,
}

impl<Controller: SolenoidController> ChannelErasedSolenoid<Controller> {
    #[verifier::type_invariant]
    spec fn channel_fits(self) -> bool {
        self.channel < CHANNEL_LIMIT
    }

    /// The controller that this solenoid belongs to.
    pub closed spec fn controller(&self) -> Controller {
        *self.controller
    }

    /// The channel that this solenoid drives.
    pub closed spec fn channel(&self) -> u32 {
        self.channel
    }

    /// Type-erases the controller used by this solenoid, storing it at runtime
    /// in addition to the channel already stored at runtime by this type.
    pub fn erase_all(self) -> (erased: AnySolenoid) where Controller: Send + Sync + 'static
        ensures
            erased.channel() == self.channel(),
            forall|bits: u32| erased.may_read(bits) == self.may_read(bits),
            forall|mask: u32, values: u32|
                erased.may_write(mask, values) == self.may_write(mask, values),
    {
        proof {
            use_type_invariant(&self);
        }
        AnySolenoid { controller: Box::new(self.controller), channel: self.channel }
    }
}

impl<Controller: SolenoidController> Solenoid for ChannelErasedSolenoid<Controller> {
    open spec fn mask(&self) -> u32 {
        channel_mask(self.channel())
    }

    open spec fn may_read(&self, bits: u32) -> bool {
        self.controller().may_read(bits)
    }

    open spec fn may_write(&self, mask: u32, values: u32) -> bool {
        self.controller().may_write(mask, values)
    }

    fn get(&self) -> (on: bool) {
        proof {
            use_type_invariant(self);
        }
        let on = self.controller.get_solenoid(self.channel);
        proof {
            let bits = choose|bits: u32| #[trigger]
                self.controller.may_read(bits) && on == is_actuated(bits, self.channel);
            assert(self.may_read(bits));
        }
        on
    }

    fn set(&mut self, state: bool)
        ensures
            final(self).controller() == old(self).controller(),
            final(self).channel() == old(self).channel(),
    {
        proof {
            use_type_invariant(&*self);
        }
        self.controller.set_solenoid(self.channel, state);
    }
}

/// A solenoid with all type information (controller type and channel) erased
/// and stored at runtime. Created by [`TypedSolenoid::erase_all`] or
/// [`ChannelErasedSolenoid::erase_all`]. Solenoids of any controller can be
/// stored together in this form.
pub struct AnySolenoid {
    controller: Box<dyn ErasedController>,
    channel: u32,
}

impl AnySolenoid {
    #[verifier::type_invariant]
    spec fn channel_fits(self) -> bool {
        self.channel < CHANNEL_LIMIT
    }

    /// The channel that this solenoid drives.
    pub closed spec fn channel(&self) -> u32 {
        self.channel
    }
}

impl Solenoid for AnySolenoid {
    open spec fn mask(&self) -> u32 {
        channel_mask(self.channel())
    }

    closed spec fn may_read(&self, bits: u32) -> bool {
        self.controller.reads(bits)
    }

    closed spec fn may_write(&self, mask: u32, values: u32) -> bool {
        self.controller.writes(mask, values)
    }

    fn get(&self) -> (on: bool) {
        proof {
            use_type_invariant(self);
        }
        let bits = self.controller.read_bitset();
        assert(self.may_read(bits));
        read_single(bits, self.channel)
    }

    fn set(&mut self, state: bool)
        ensures
            final(self).channel() == old(self).channel(),
    {
        proof {
            use_type_invariant(&*self);
        }
        let write = single_write(self.channel, state);
        self.controller.write_bitset(write.mask, write.values);
    }
}

/// A double solenoid with channels and controller type encoded in the type
/// system.
///
/// It holds nothing but the reference to its controller, and it can release
/// its channels for reuse with [`TypedDoubleSolenoid::into_channels`]. Both
/// channels belong to one controller: a double solenoid is set with a single
/// masked write, and no single write reaches two controllers.
/// [`TypedDoubleSolenoid::erase_channels`] moves the channels into fields,
/// [`TypedDoubleSolenoid::erase_all`] the controller type as well.
pub struct TypedDoubleSolenoid<Controller, ForwardChannel, BackwardChannel> {
    controller: Arc<Controller>,
    _phantom: PhantomData<(ForwardChannel, BackwardChannel)>,
}

impl<Controller, ForwardChannel, BackwardChannel> TypedDoubleSolenoid<
    Controller,
    ForwardChannel,
    BackwardChannel,
> where
    Controller: SolenoidController,
    ForwardChannel: SolenoidChannel<Controller = Controller>,
    BackwardChannel: SolenoidChannel<Controller = Controller>,
 {
    /// The controller that both channels of this solenoid belong to.
    pub closed spec fn controller(&self) -> Controller {
        *self.controller
    }

    /// Creates a new [`TypedDoubleSolenoid`] from two solenoid channels if
    /// both lead to the same controller instance, and hands the channels back
    /// if they do not.
    ///
    /// The type system sees to it that both channels have the same controller
    /// type, but two controllers of one type can each give a channel. Such a
    /// pair is no double solenoid. Which instance a channel leads to is found
    /// out here, at run time; what follows from the answer is said by
    /// [`TypedDoubleSolenoid::from_check`]. Channels of two controllers that
    /// differ always come back.
    pub fn new(forward_channel: ForwardChannel, backward_channel: BackwardChannel) -> (made:
        Result<Self, (ForwardChannel, BackwardChannel)>)
        ensures
            forward_channel.controller() != backward_channel.controller() ==> made is Err,
            match made {
                Ok(solenoid) => forward_channel.controller() == backward_channel.controller()
                    && solenoid.controller() == forward_channel.controller(),
                Err((forward, backward)) => forward.controller() == forward_channel.controller()
                    && backward.controller() == backward_channel.controller(),
            },
    {
        let controller = forward_channel.into_controller();
        let other = backward_channel.into_controller();
        let same = same_instance(&controller, &other);
        Self::from_check(
            ForwardChannel::new(controller, Reissue::consumed()),
            BackwardChannel::new(other, Reissue::consumed()),
            same,
        )
    }

    /// Makes the double solenoid of two channels, given the answer to the
    /// question whether both lead to the same controller instance. With yes
    /// the solenoid is made; with no the two channels come back as they
    /// were.
    pub fn from_check(
        forward_channel: ForwardChannel,
        backward_channel: BackwardChannel,
        same: bool,
    ) -> (made: Result<Self, (ForwardChannel, BackwardChannel)>)
        requires
            same ==> forward_channel.controller() == backward_channel.controller(),
        ensures
            made is Ok <==> same,
            match made {
                Ok(solenoid) => solenoid.controller() == forward_channel.controller(),
                Err(channels) => channels == (forward_channel, backward_channel),
            },
    {
        if same {
            let controller = forward_channel.into_controller();
            let _ = backward_channel.into_controller();
            Ok(Self { controller, _phantom: PhantomData })
        } else {
            Err((forward_channel, backward_channel))
        }
    }

    /// Releases the channels used by this double solenoid for reuse. The
    /// solenoid had both channels to itself for as long as it lived, so the
    /// channels that come back are the only ones again.
    pub fn into_channels(self) -> (channels: (ForwardChannel, BackwardChannel))
        ensures
            channels.0.controller() == self.controller(),
            channels.1.controller() == self.controller(),
    {
        let forward = ForwardChannel::new(share(&self.controller), Reissue::consumed());
        let backward = BackwardChannel::new(self.controller, Reissue::consumed());
        (forward, backward)
    }

    /// Type-erases the channels used by this double solenoid, storing them at
    /// runtime.
    pub fn erase_channels(self) -> (erased: ChannelErasedDoubleSolenoid<Controller>)
        ensures
            erased.controller() == self.controller(),
            erased.forward_channel() == ForwardChannel::CHANNEL,
            erased.backward_channel() == BackwardChannel::CHANNEL,
    {
        proof {
            ForwardChannel::channel_in_range();
            BackwardChannel::channel_in_range();
        }
        ChannelErasedDoubleSolenoid {
            controller: self.controller,
            forward_channel: ForwardChannel::CHANNEL,
            backward_channel: BackwardChannel::CHANNEL,
        }
    }

    /// Type-erases the channels and controller used by this double solenoid,
    /// storing them at runtime.
    pub fn erase_all(self) -> (erased: AnyDoubleSolenoid) where
        Controller: Send + Sync + 'static,
        ensures
            erased.forward_channel() == ForwardChannel::CHANNEL,
            erased.backward_channel() == BackwardChannel::CHANNEL,
            forall|bits: u32| erased.may_read(bits) == self.may_read(bits),
            forall|mask: u32, values: u32|
                erased.may_write(mask, values) == self.may_write(mask, values),
    {
        proof {
            ForwardChannel::channel_in_range();
            BackwardChannel::channel_in_range();
        }
        AnyDoubleSolenoid {
            controller: Box::new(self.controller),
            forward_channel: ForwardChannel::CHANNEL,
            backward_channel: BackwardChannel::CHANNEL,
        }
    }
}

impl<Controller, ForwardChannel, BackwardChannel> DoubleSolenoid for TypedDoubleSolenoid<
    Controller,
    ForwardChannel,
    BackwardChannel,
> where
    Controller: SolenoidController,
    ForwardChannel: SolenoidChannel<Controller = Controller>,
    BackwardChannel: SolenoidChannel<Controller = Controller>,
 {
    open spec fn forward_mask(&self) -> u32 {
        channel_mask(ForwardChannel::CHANNEL)
    }

    open spec fn backward_mask(&self) -> u32 {
        channel_mask(BackwardChannel::CHANNEL)
    }

    open spec fn may_read(&self, bits: u32) -> bool {
        self.controller().may_read(bits)
    }

    open spec fn may_write(&self, mask: u32, values: u32) -> bool {
        self.controller().may_write(mask, values)
    }

    open spec fn state_in(&self, bits: u32) -> Result<
        DoubleSolenoidState,
        InvalidDoubleSolenoidState,
    > {
        double_state(bits, ForwardChannel::CHANNEL, BackwardChannel::CHANNEL)
    }

    fn get(&self) -> (state: Result<DoubleSolenoidState, InvalidDoubleSolenoidState>) {
        proof {
            ForwardChannel::channel_in_range();
            BackwardChannel::channel_in_range();
        }
        let state = self.controller.get_double_solenoid(
            ForwardChannel::CHANNEL,
            BackwardChannel::CHANNEL,
        );
        proof {
            let bits = choose|bits: u32| #[trigger]
                self.controller.may_read(bits) && state == double_state(
                    bits,
                    ForwardChannel::CHANNEL,
                    BackwardChannel::CHANNEL,
                );
            assert(self.may_read(bits));
        }
        state
    }

    fn set(&mut self, state: DoubleSolenoidState)
        ensures
            final(self).controller() == old(self).controller(),
    {
        proof {
            ForwardChannel::channel_in_range();
            BackwardChannel::channel_in_range();
        }
        self.controller.set_double_solenoid(
            ForwardChannel::CHANNEL,
            BackwardChannel::CHANNEL,
            state,
        );
    }
}

/// A double solenoid with its channels stored at runtime, but controller type
/// still in the type system. Created by
/// [`TypedDoubleSolenoid::erase_channels`]. Several double solenoids of one
/// kind of controller can be stored together in this form.
pub struct ChannelErasedDoubleSolenoid<Controller: SolenoidController> {
    controller: Arc<Controller>,
    forward_channel: u32,
    backward_channel: u32,
}

impl<Controller: SolenoidController> ChannelErasedDoubleSolenoid<Controller> {
    #[verifier::type_invariant]
    spec fn channels_fit(self) -> bool {
        self.forward_channel < CHANNEL_LIMIT && self.backward_channel < CHANNEL_LIMIT
    }

    /// The controller that this solenoid belongs to.
    pub closed spec fn controller(&self) -> Controller {
        *self.controller
    }

    /// The channel that drives this solenoid forwards.
    pub closed spec fn forward_channel(&self) -> u32 {
        self.forward_channel
    }

    /// The channel that drives this solenoid backwards.
    pub closed spec fn backward_channel(&self) -> u32 {
        self.backward_channel
    }

    /// Type-erases the controller used by this double solenoid, storing it at
    /// runtime in addition to the channels already stored at runtime by this
    /// type.
    pub fn erase_all(self) -> (erased: AnyDoubleSolenoid) where
        Controller: Send + Sync + 'static,
        ensures
            erased.forward_channel() == self.forward_channel(),
            erased.backward_channel() == self.backward_channel(),
            forall|bits: u32| erased.may_read(bits) == self.may_read(bits),
            forall|mask: u32, values: u32|
                erased.may_write(mask, values) == self.may_write(mask, values),
    {
        proof {
            use_type_invariant(&self);
        }
        AnyDoubleSolenoid {
            controller: Box::new(self.controller),
            forward_channel: self.forward_channel,
            backward_channel: self.backward_channel,
        }
    }
}

impl<Controller: SolenoidController> DoubleSolenoid for ChannelErasedDoubleSolenoid<Controller> {
    open spec fn forward_mask(&self) -> u32 {
        channel_mask(self.forward_channel())
    }

    open spec fn backward_mask(&self) -> u32 {
        channel_mask(self.backward_channel())
    }

    open spec fn may_read(&self, bits: u32) -> bool {
        self.controller().may_read(bits)
    }

    open spec fn may_write(&self, mask: u32, values: u32) -> bool {
        self.controller().may_write(mask, values)
    }

    open spec fn state_in(&self, bits: u32) -> Result<
        DoubleSolenoidState,
        InvalidDoubleSolenoidState,
    > {
        double_state(bits, self.forward_channel(), self.backward_channel())
    }

    fn get(&self) -> (state: Result<DoubleSolenoidState, InvalidDoubleSolenoidState>) {
        proof {
            use_type_invariant(self);
        }
        let state = self.controller.get_double_solenoid(
            self.forward_channel,
            self.backward_channel,
        );
        proof {
            let bits = choose|bits: u32| #[trigger]
                self.controller.may_read(bits) && state == double_state(
                    bits,
                    self.forward_channel,
                    self.backward_channel,
                );
            assert(self.may_read(bits));
        }
        state
    }

    fn set(&mut self, state: DoubleSolenoidState)
        ensures
            final(self).controller() == old(self).controller(),
            final(self).forward_channel() == old(self).forward_channel(),
            final(self).backward_channel() == old(self).backward_channel(),
    {
        proof {
            use_type_invariant(&*self);
        }
        self.controller.set_double_solenoid(self.forward_channel, self.backward_channel, state);
    }
}

/// A double solenoid with all type information (controller type and
/// channels) erased and stored at runtime. Created by
/// [`TypedDoubleSolenoid::erase_all`] or
/// [`ChannelErasedDoubleSolenoid::erase_all`]. Double solenoids of any
/// controller can be stored together in this form.
pub struct AnyDoubleSolenoid {
    controller: Box<dyn ErasedController>,
    forward_channel: u32,
    backward_channel: u32,
}

impl AnyDoubleSolenoid {
    #[verifier::type_invariant]
    spec fn channels_fit(self) -> bool {
        self.forward_channel < CHANNEL_LIMIT && self.backward_channel < CHANNEL_LIMIT
    }

    /// The channel that drives this solenoid forwards.
    pub closed spec fn forward_channel(&self) -> u32 {
        self.forward_channel
    }

    /// The channel that drives this solenoid backwards.
    pub closed spec fn backward_channel(&self) -> u32 {
        self.backward_channel
    }
}

impl DoubleSolenoid for AnyDoubleSolenoid {
    open spec fn forward_mask(&self) -> u32 {
        channel_mask(self.forward_channel())
    }

    open spec fn backward_mask(&self) -> u32 {
        channel_mask(self.backward_channel())
    }

    closed spec fn may_read(&self, bits: u32) -> bool {
        self.controller.reads(bits)
    }

    closed spec fn may_write(&self, mask: u32, values: u32) -> bool {
        self.controller.writes(mask, values)
    }

    open spec fn state_in(&self, bits: u32) -> Result<
        DoubleSolenoidState,
        InvalidDoubleSolenoidState,
    > {
        double_state(bits, self.forward_channel(), self.backward_channel())
    }

    fn get(&self) -> (state: Result<DoubleSolenoidState, InvalidDoubleSolenoidState>) {
        proof {
            use_type_invariant(self);
        }
        let bits = self.controller.read_bitset();
        assert(self.may_read(bits));
        read_double(bits, self.forward_channel, self.backward_channel)
    }

    fn set(&mut self, state: DoubleSolenoidState)
        ensures
            final(self).forward_channel() == old(self).forward_channel(),
            final(self).backward_channel() == old(self).backward_channel(),
    {
        proof {
            use_type_invariant(&*self);
        }
        let write = double_write(self.forward_channel, self.backward_channel, state);
        self.controller.write_bitset(write.mask, write.values);
    }
}

} // verus!
