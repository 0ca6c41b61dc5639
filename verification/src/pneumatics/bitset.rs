//! The arithmetic of a controller's solenoid bitset.
//!
//! A controller reports and accepts the state of all its channels as one
//! 32-bit word, bit `i` standing for channel `i`. Its only write primitive is
//! a masked write. This module states what a masked write does to a word, what
//! single and double solenoids read out of a word, which masked write each of
//! their setters issues, and proves that the setters and readers agree.

use vstd::prelude::*;

verus! {

/// The number of channels that a bitset can describe.
pub const CHANNEL_LIMIT: u32 = 32;

/// Enumeration of all valid states of a double solenoid.
#[derive(Clone, Copy, Debug, PartialEq, Eq, Structural)]
pub enum DoubleSolenoidState {
    /// Actuated in the forwards direction
    Forward,
    /// Actuated in the backwards direction
    Backward,
    /// Not actuated in any direction
    Off,
}

/// The state of a double solenoid that is actuated on both ends.
/// No double-solenoid setter produces it, but independent writes to the two
/// channels can, so readers return it as a value.
#[derive(Clone, Copy, Debug, PartialEq, Eq, Structural)]
pub struct InvalidDoubleSolenoidState;

/// A masked write to a controller's bitset: for every bit set in `mask`, the
/// channel takes the corresponding bit of `values`.
#[derive(Clone, Copy, Debug, PartialEq, Eq, Structural)]
pub struct BitsetWrite {
    pub mask: u32,
    pub values: u32,
}

/// The word with only the bit of `channel` set.
pub open spec fn channel_mask(channel: u32) -> u32
    recommends
        channel < CHANNEL_LIMIT,
{
    1u32 << channel
}

/// Whether `channel` is actuated in `bitset`.
pub open spec fn is_actuated(bitset: u32, channel: u32) -> bool
    recommends
        channel < CHANNEL_LIMIT,
{
    bitset & channel_mask(channel) != 0
}

/// The bitset that a controller holds after a masked write to `current`.
pub open spec fn masked_write(current: u32, mask: u32, values: u32) -> u32 {
    (current & !mask) | (values & mask)
}

/// What a double solenoid on channels `forward` and `backward` reads out of
/// `bitset`.
pub open spec fn double_state(bitset: u32, forward: u32, backward: u32) -> Result<
    DoubleSolenoidState,
    InvalidDoubleSolenoidState,
>
    recommends
        forward < CHANNEL_LIMIT,
        backward < CHANNEL_LIMIT,
{
    let fwd = is_actuated(bitset, forward);
    let bwd = is_actuated(bitset, backward);
    if fwd && bwd {
        Err(InvalidDoubleSolenoidState)
    } else if fwd {
        Ok(DoubleSolenoidState::Forward)
    } else if bwd {
        Ok(DoubleSolenoidState::Backward)
    } else {
        Ok(DoubleSolenoidState::Off)
    }
}

/// The write that sets the single solenoid on `channel` to `state`.
pub open spec fn single_write_spec(channel: u32, state: bool) -> BitsetWrite
    recommends
        channel < CHANNEL_LIMIT,
{
    BitsetWrite {
        mask: channel_mask(channel),
        values: if state {
            u32::MAX
        } else {
            0
        },
    }
}

/// The write that sets the double solenoid on `forward` and `backward` to
/// `state`: one write over both channels, with at most one bit set.
pub open spec fn double_write_spec(
    forward: u32,
    backward: u32,
    state: DoubleSolenoidState,
) -> BitsetWrite
    recommends
        forward < CHANNEL_LIMIT,
        backward < CHANNEL_LIMIT,
{
    BitsetWrite {
        mask: channel_mask(forward) | channel_mask(backward),
        values: match state {
            DoubleSolenoidState::Forward => channel_mask(forward),
            DoubleSolenoidState::Backward => channel_mask(backward),
            DoubleSolenoidState::Off => 0,
        },
    }
}

impl BitsetWrite {
    /// The bitset that results from this write on `current`.
    pub open spec fn applied(self, current: u32) -> u32 {
        masked_write(current, self.mask, self.values)
    }

    /// Computes the bitset that a controller holds after this write, given the
    /// bitset it held before.
    pub fn apply(&self, current: u32) -> (next: u32)
        ensures
            next == self.applied(current),
            next == (current & !self.mask) | (self.values & self.mask),
    {
        (current & !self.mask) | (self.values & self.mask)
    }
}

/// Computes the mask of a single channel.
pub fn mask_of(channel: u32) -> (mask: u32)
    requires
        channel < CHANNEL_LIMIT,
    ensures
        mask == channel_mask(channel),
{
    1u32 << channel
}

/// Reads the state of the single solenoid on `channel` out of `bitset`.
pub fn read_single(bitset: u32, channel: u32) -> (on: bool)
    requires
        channel < CHANNEL_LIMIT,
    ensures
        on == is_actuated(bitset, channel),
{
    bitset & mask_of(channel) != 0
}

/// Builds the write that sets the single solenoid on `channel` to `state`.
pub fn single_write(channel: u32, state: bool) -> (write: BitsetWrite)
    requires
        channel < CHANNEL_LIMIT,
    ensures
        write == single_write_spec(channel, state),
{
    BitsetWrite {
        mask: mask_of(channel),
        values: if state {
            u32::MAX
        } else {
            0
        },
    }
}

/// Reads the state of the double solenoid on `forward` and `backward` out of
/// `bitset`: forward alone is `Forward`, backward alone is `Backward`, neither
/// is `Off`, and both at once is the invalid state.
pub fn read_double(bitset: u32, forward: u32, backward: u32) -> (state: Result<
    DoubleSolenoidState,
    InvalidDoubleSolenoidState,
>)
    requires
        forward < CHANNEL_LIMIT,
        backward < CHANNEL_LIMIT,
    ensures
        state == double_state(bitset, forward, backward),
{
    let fwd = read_single(bitset, forward);
    let bwd = read_single(bitset, backward);
    if fwd && bwd {
        Err(InvalidDoubleSolenoidState)
    } else if fwd {
        Ok(DoubleSolenoidState::Forward)
    } else if bwd {
        Ok(DoubleSolenoidState::Backward)
    } else {
        Ok(DoubleSolenoidState::Off)
    }
}

/// Builds the single write that sets the double solenoid on `forward` and
/// `backward` to `state`.
pub fn double_write(forward: u32, backward: u32, state: DoubleSolenoidState) -> (write:
    BitsetWrite)
    requires
        forward < CHANNEL_LIMIT,
        backward < CHANNEL_LIMIT,
    ensures
        write == double_write_spec(forward, backward, state),
{
    let forward_mask = mask_of(forward);
    let backward_mask = mask_of(backward);
    let values = match state {
        DoubleSolenoidState::Forward => forward_mask,
        DoubleSolenoidState::Backward => backward_mask,
        DoubleSolenoidState::Off => 0,
    };
    BitsetWrite { mask: forward_mask | backward_mask, values }
}

/// A masked write acts channel by channel: a channel whose bit is set in the
/// mask takes its bit of `values`, and every other channel keeps its state.
pub proof fn lemma_masked_write_per_channel(current: u32, mask: u32, values: u32, channel: u32)
    requires
        channel < CHANNEL_LIMIT,
    ensures
        is_actuated(masked_write(current, mask, values), channel) == (if is_actuated(
            mask,
            channel,
        ) {
            is_actuated(values, channel)
        } else {
            is_actuated(current, channel)
        }),
{
    assert(((((current & !mask) | (values & mask)) & (1u32 << channel)) != 0) == (if (mask & (1u32
        << channel)) != 0 {
        (values & (1u32 << channel)) != 0
    } else {
        (current & (1u32 << channel)) != 0
    })) by (bit_vector)
        requires
            channel < 32,
    ;
}

/// A write through the full mask replaces the bitset, and a write through the
/// empty mask leaves it as it was.
pub proof fn lemma_masked_write_extremes(current: u32, values: u32)
    ensures
        masked_write(current, u32::MAX, values) == values,
        masked_write(current, 0, values) == current,
{
    assert(((current & !0xffff_ffffu32) | (values & 0xffff_ffffu32)) == values) by (bit_vector);
    assert(((current & !0u32) | (values & 0u32)) == current) by (bit_vector);
}

/// The masks of all channels, by number.
pub proof fn lemma_channel_mask_values()
    ensures
        channel_mask(0) == 0x1,
        channel_mask(1) == 0x2,
        channel_mask(2) == 0x4,
        channel_mask(3) == 0x8,
        channel_mask(4) == 0x10,
        channel_mask(5) == 0x20,
        channel_mask(6) == 0x40,
        channel_mask(7) == 0x80,
        channel_mask(8) == 0x100,
        channel_mask(9) == 0x200,
        channel_mask(10) == 0x400,
        channel_mask(11) == 0x800,
        channel_mask(12) == 0x1000,
        channel_mask(13) == 0x2000,
        channel_mask(14) == 0x4000,
        channel_mask(15) == 0x8000,
        channel_mask(16) == 0x10000,
        channel_mask(17) == 0x20000,
        channel_mask(18) == 0x40000,
        channel_mask(19) == 0x80000,
        channel_mask(20) == 0x100000,
        channel_mask(21) == 0x200000,
        channel_mask(22) == 0x400000,
        channel_mask(23) == 0x800000,
        channel_mask(24) == 0x1000000,
        channel_mask(25) == 0x2000000,
        channel_mask(26) == 0x4000000,
        channel_mask(27) == 0x8000000,
        channel_mask(28) == 0x10000000,
        channel_mask(29) == 0x20000000,
        channel_mask(30) == 0x40000000,
        channel_mask(31) == 0x80000000,
{
    assert((1u32 << 0u32) == 0x1u32 && (1u32 << 1u32) == 0x2u32 && (1u32 << 2u32) == 0x4u32 && (1u32 << 3u32) == 0x8u32 && (1u32 << 4u32) == 0x10u32 && (1u32 << 5u32) == 0x20u32 && (1u32 << 6u32) == 0x40u32 && (1u32 << 7u32) == 0x80u32 && (1u32 << 8u32) == 0x100u32 && (1u32 << 9u32) == 0x200u32 && (1u32 << 10u32) == 0x400u32 && (1u32 << 11u32) == 0x800u32 && (1u32 << 12u32) == 0x1000u32 && (1u32 << 13u32) == 0x2000u32 && (1u32 << 14u32) == 0x4000u32 && (1u32 << 15u32) == 0x8000u32 && (1u32 << 16u32) == 0x10000u32 && (1u32 << 17u32) == 0x20000u32 && (1u32 << 18u32) == 0x40000u32 && (1u32 << 19u32) == 0x80000u32 && (1u32 << 20u32) == 0x100000u32 && (1u32 << 21u32) == 0x200000u32 && (1u32 << 22u32) == 0x400000u32 && (1u32 << 23u32) == 0x800000u32 && (1u32 << 24u32) == 0x1000000u32 && (1u32 << 25u32) == 0x2000000u32 && (1u32 << 26u32) == 0x4000000u32 && (1u32 << 27u32) == 0x8000000u32 && (1u32 << 28u32) == 0x10000000u32 && (1u32 << 29u32) == 0x20000000u32 && (1u32 << 30u32) == 0x40000000u32 && (1u32 << 31u32) == 0x80000000u32) by (bit_vector);
}

/// The masks of two channels share a bit only if the channels are the same,
/// and the mask of a channel has exactly that channel actuated.
pub proof fn lemma_channel_mask_distinct(a: u32, b: u32)
    requires
        a < CHANNEL_LIMIT,
        b < CHANNEL_LIMIT,
    ensures
        is_actuated(channel_mask(a), b) == (a == b),
        is_actuated(u32::MAX, a),
        !is_actuated(0, a),
{
    assert((((1u32 << a) & (1u32 << b)) != 0) == (a == b)) by (bit_vector)
        requires
            a < 32,
            b < 32,
    ;
    assert((0xffff_ffffu32 & (1u32 << a)) != 0) by (bit_vector)
        requires
            a < 32,
    ;
    assert((0u32 & (1u32 << a)) == 0) by (bit_vector);
}

/// After the write of a single-solenoid setter, the solenoid reads the state
/// that was set, and every other channel reads what it read before.
pub proof fn lemma_single_write_reads_back(current: u32, channel: u32, state: bool, other: u32)
    requires
        channel < CHANNEL_LIMIT,
        other < CHANNEL_LIMIT,
    ensures
        is_actuated(single_write_spec(channel, state).applied(current), channel) == state,
        other != channel ==> is_actuated(single_write_spec(channel, state).applied(current), other)
            == is_actuated(current, other),
{
    let write = single_write_spec(channel, state);
    lemma_masked_write_per_channel(current, write.mask, write.values, channel);
    lemma_masked_write_per_channel(current, write.mask, write.values, other);
    lemma_channel_mask_distinct(channel, channel);
    lemma_channel_mask_distinct(channel, other);
}

/// After the write of a double-solenoid setter on two distinct channels, the
/// double solenoid reads the state that was set. In particular it never reads
/// as invalid, and after `Forward` the backward channel reads clear. Every
/// channel outside the pair reads what it read before.
pub proof fn lemma_double_write_reads_back(
    current: u32,
    forward: u32,
    backward: u32,
    state: DoubleSolenoidState,
    other: u32,
)
    requires
        forward < CHANNEL_LIMIT,
        backward < CHANNEL_LIMIT,
        other < CHANNEL_LIMIT,
        forward != backward,
    ensures
        double_state(
            double_write_spec(forward, backward, state).applied(current),
            forward,
            backward,
        ) == Ok::<DoubleSolenoidState, InvalidDoubleSolenoidState>(state),
        is_actuated(double_write_spec(forward, backward, state).applied(current), forward) == (
        state == DoubleSolenoidState::Forward),
        is_actuated(double_write_spec(forward, backward, state).applied(current), backward) == (
        state == DoubleSolenoidState::Backward),
        other != forward && other != backward ==> is_actuated(
            double_write_spec(forward, backward, state).applied(current),
            other,
        ) == is_actuated(current, other),
{
    let write = double_write_spec(forward, backward, state);
    lemma_masked_write_per_channel(current, write.mask, write.values, forward);
    lemma_masked_write_per_channel(current, write.mask, write.values, backward);
    lemma_masked_write_per_channel(current, write.mask, write.values, other);
    lemma_mask_union(forward, backward, forward);
    lemma_mask_union(forward, backward, backward);
    lemma_mask_union(forward, backward, other);
    lemma_channel_mask_distinct(forward, forward);
    lemma_channel_mask_distinct(forward, backward);
    lemma_channel_mask_distinct(backward, forward);
    lemma_channel_mask_distinct(backward, backward);
}

/// The union of two channel masks has exactly those two channels actuated.
pub proof fn lemma_mask_union(a: u32, b: u32, channel: u32)
    requires
        a < CHANNEL_LIMIT,
        b < CHANNEL_LIMIT,
        channel < CHANNEL_LIMIT,
    ensures
        is_actuated(channel_mask(a) | channel_mask(b), channel) == (channel == a || channel == b),
{
    assert(((((1u32 << a) | (1u32 << b)) & (1u32 << channel)) != 0) == (channel == a || channel
        == b)) by (bit_vector)
        requires
            a < 32,
            b < 32,
            channel < 32,
    ;
}


/// The bitset that a signed 32-bit hardware word carries: the same 32 bits.
pub open spec fn bits_of_word(word: i32) -> u32 {
    word as u32
}

/// The signed 32-bit hardware word that carries a bitset: the same 32 bits.
pub open spec fn word_of_bits(bits: u32) -> i32 {
    bits as i32
}

/// Reads a bitset out of the signed word in which the hardware layer passes
/// it.
pub fn bits_from_word(word: i32) -> (bits: u32)
    ensures
        bits == bits_of_word(word),
        word_of_bits(bits) == word,
        word >= 0 ==> bits == word,
{
    proof {
        lemma_word_round_trip(word);
    }
    word as u32
}

/// Puts a bitset into the signed word in which the hardware layer takes it.
pub fn word_from_bits(bits: u32) -> (word: i32)
    ensures
        word == word_of_bits(bits),
        bits_of_word(word) == bits,
        bits <= i32::MAX ==> word == bits,
{
    proof {
        lemma_bits_round_trip(bits);
    }
    bits as i32
}

/// A word carries its bitset without loss.
pub proof fn lemma_word_round_trip(word: i32)
    ensures
        word_of_bits(bits_of_word(word)) == word,
        word >= 0 ==> bits_of_word(word) == word,
{
    assert((word as u32) as i32 == word) by (bit_vector);
    assert(word >= 0 ==> (word as u32) == word) by (bit_vector);
}

/// A bitset comes back unchanged out of the word that carries it.
pub proof fn lemma_bits_round_trip(bits: u32)
    ensures
        bits_of_word(word_of_bits(bits)) == bits,
        bits <= i32::MAX ==> word_of_bits(bits) == bits,
{
    assert((bits as i32) as u32 == bits) by (bit_vector);
    assert(bits <= 0x7fff_ffffu32 ==> (bits as i32) == bits) by (bit_vector);
}

/// What a double solenoid that is given by the masks of its two channels
/// reads out of `bitset`: only the forward mask is `Forward`, only the
/// backward mask is `Backward`, nothing is `Off`, and anything else is the
/// invalid state.
pub open spec fn double_state_masked(bitset: u32, forward_mask: u32, backward_mask: u32) -> Result<
    DoubleSolenoidState,
    InvalidDoubleSolenoidState,
> {
    let masked = bitset & (forward_mask | backward_mask);
    if masked == forward_mask {
        Ok(DoubleSolenoidState::Forward)
    } else if masked == backward_mask {
        Ok(DoubleSolenoidState::Backward)
    } else if masked == 0 {
        Ok(DoubleSolenoidState::Off)
    } else {
        Err(InvalidDoubleSolenoidState)
    }
}

/// The write that sets the single solenoid with mask `mask` to `state`.
pub open spec fn masked_single_write_spec(mask: u32, state: bool) -> BitsetWrite {
    BitsetWrite {
        mask,
        values: if state {
            u32::MAX
        } else {
            0
        },
    }
}

/// The write that sets the double solenoid with the two masks to `state`.
pub open spec fn masked_double_write_spec(
    forward_mask: u32,
    backward_mask: u32,
    state: DoubleSolenoidState,
) -> BitsetWrite {
    BitsetWrite {
        mask: forward_mask | backward_mask,
        values: match state {
            DoubleSolenoidState::Forward => forward_mask,
            DoubleSolenoidState::Backward => backward_mask,
            DoubleSolenoidState::Off => 0,
        },
    }
}

/// Reads out of `bitset` whether any channel of `mask` is actuated.
pub fn read_masked(bitset: u32, mask: u32) -> (on: bool)
    ensures
        on == (bitset & mask != 0),
{
    bitset & mask != 0
}

/// Builds the write that sets the single solenoid with mask `mask` to
/// `state`.
pub fn write_masked(mask: u32, state: bool) -> (write: BitsetWrite)
    ensures
        write == masked_single_write_spec(mask, state),
{
    BitsetWrite {
        mask,
        values: if state {
            u32::MAX
        } else {
            0
        },
    }
}

/// Reads the state of the double solenoid with the two masks out of
/// `bitset`.
pub fn read_double_masked(bitset: u32, forward_mask: u32, backward_mask: u32) -> (state: Result<
    DoubleSolenoidState,
    InvalidDoubleSolenoidState,
>)
    ensures
        state == double_state_masked(bitset, forward_mask, backward_mask),
{
    let masked = bitset & (forward_mask | backward_mask);
    if masked == forward_mask {
        Ok(DoubleSolenoidState::Forward)
    } else if masked == backward_mask {
        Ok(DoubleSolenoidState::Backward)
    } else if masked == 0 {
        Ok(DoubleSolenoidState::Off)
    } else {
        Err(InvalidDoubleSolenoidState)
    }
}

/// Builds the single write that sets the double solenoid with the two masks
/// to `state`.
pub fn write_double_masked(forward_mask: u32, backward_mask: u32, state: DoubleSolenoidState) -> (write:
    BitsetWrite)
    ensures
        write == masked_double_write_spec(forward_mask, backward_mask, state),
{
    let values = match state {
        DoubleSolenoidState::Forward => forward_mask,
        DoubleSolenoidState::Backward => backward_mask,
        DoubleSolenoidState::Off => 0,
    };
    BitsetWrite { mask: forward_mask | backward_mask, values }
}

/// For the masks of two distinct channels, reading by masks and reading by
/// channel numbers give the same state, and the setters issue the same
/// write.
pub proof fn lemma_masked_agrees_with_channels(
    bitset: u32,
    forward: u32,
    backward: u32,
    state: DoubleSolenoidState,
)
    requires
        forward < CHANNEL_LIMIT,
        backward < CHANNEL_LIMIT,
        forward != backward,
    ensures
        double_state_masked(bitset, channel_mask(forward), channel_mask(backward)) == double_state(
            bitset,
            forward,
            backward,
        ),
        masked_double_write_spec(channel_mask(forward), channel_mask(backward), state)
            == double_write_spec(forward, backward, state),
{
    let fm = 1u32 << forward;
    let bm = 1u32 << backward;
    let masked = bitset & (fm | bm);
    assert((masked == fm) == ((bitset & fm) != 0 && (bitset & bm) == 0)) by (bit_vector)
        requires
            forward < 32,
            backward < 32,
            forward != backward,
            fm == 1u32 << forward,
            bm == 1u32 << backward,
            masked == bitset & (fm | bm),
    ;
    assert((masked == bm) == ((bitset & bm) != 0 && (bitset & fm) == 0)) by (bit_vector)
        requires
            forward < 32,
            backward < 32,
            forward != backward,
            fm == 1u32 << forward,
            bm == 1u32 << backward,
            masked == bitset & (fm | bm),
    ;
    assert((masked == 0) == ((bitset & bm) == 0 && (bitset & fm) == 0)) by (bit_vector)
        requires
            masked == bitset & (fm | bm),
    ;
}

/// After the write of a double-solenoid setter that is given by two masks
/// with a bit each and none in common, the double solenoid reads the state
/// that was set, and every bit outside the two masks is as before.
pub proof fn lemma_double_masked_reads_back(
    current: u32,
    forward_mask: u32,
    backward_mask: u32,
    state: DoubleSolenoidState,
)
    requires
        forward_mask != 0,
        backward_mask != 0,
        forward_mask & backward_mask == 0,
    ensures
        double_state_masked(
            masked_double_write_spec(forward_mask, backward_mask, state).applied(current),
            forward_mask,
            backward_mask,
        ) == Ok::<DoubleSolenoidState, InvalidDoubleSolenoidState>(state),
        masked_double_write_spec(forward_mask, backward_mask, state).applied(current) & !(
        forward_mask | backward_mask) == current & !(forward_mask | backward_mask),
{
    let both = forward_mask | backward_mask;
    let values = masked_double_write_spec(forward_mask, backward_mask, state).values;
    let next = (current & !both) | (values & both);
    assert(next & !both == current & !both) by (bit_vector)
        requires
            next == (current & !both) | (values & both),
    ;
    assert(values == forward_mask ==> next & both == forward_mask) by (bit_vector)
        requires
            next == (current & !both) | (values & both),
            both == forward_mask | backward_mask,
    ;
    assert(values == backward_mask ==> next & both == backward_mask) by (bit_vector)
        requires
            next == (current & !both) | (values & both),
            both == forward_mask | backward_mask,
    ;
    assert(values == 0 ==> next & both == 0) by (bit_vector)
        requires
            next == (current & !both) | (values & both),
    ;
    assert(forward_mask != backward_mask) by (bit_vector)
        requires
            forward_mask != 0,
            forward_mask & backward_mask == 0,
    ;
}

/// After the write of a single-solenoid setter that is given by its mask,
/// the solenoid reads the state that was set, and every bit outside the mask
/// is as before.
pub proof fn lemma_single_masked_reads_back(current: u32, mask: u32, state: bool)
    requires
        mask != 0,
    ensures
        (masked_single_write_spec(mask, state).applied(current) & mask != 0) == state,
        masked_single_write_spec(mask, state).applied(current) & !mask == current & !mask,
{
    let values = masked_single_write_spec(mask, state).values;
    let next = (current & !mask) | (values & mask);
    assert(next & !mask == current & !mask) by (bit_vector)
        requires
            next == (current & !mask) | (values & mask),
    ;
    assert(values == 0xffff_ffffu32 ==> next & mask == mask) by (bit_vector)
        requires
            next == (current & !mask) | (values & mask),
    ;
    assert(values == 0 ==> next & mask == 0) by (bit_vector)
        requires
            next == (current & !mask) | (values & mask),
    ;
}

} // verus!
