//! A fixed array of waker slots, one per hardware event line.
//!
//! Each line has at most one pending waker. A second registration on an
//! occupied line is turned away rather than queued: it usually shows a logic
//! error, or a future that is polled more often than it needs to be.

use crate::pneumatics::bitset::{
    channel_mask,
    is_actuated,
    lemma_channel_mask_distinct,
    read_single,
    CHANNEL_LIMIT,
};
use std::task::Waker;
use vstd::prelude::*;

verus! {

/// The handle by which a suspended task is resumed. Nothing is known of what
/// is inside it: a waker is stored, handed back, or woken.
#[verifier::external_type_specification]
#[verifier::external_body]
pub struct ExWaker(Waker);

/// `Waker::wake` resumes the task and consumes the waker. Nothing is claimed
/// of it.
pub assume_specification[ Waker::wake ](waker: Waker);

/// `Option::replace` puts a value into the option and returns what was there
/// before.
pub assume_specification<T>[ Option::<T>::replace ](slot: &mut Option<T>, value: T) -> (previous:
    Option<T>)
    ensures
        previous == *old(slot),
        *final(slot) == Some(value),
;

/// An empty slot, whatever its index.
fn empty_slot(_index: usize) -> (slot: Option<Waker>)
    ensures
        slot is None,
{
    None
}

/// An array of empty slots. Calls `std::array::from_fn`, which fills the
/// array with what the function returns for each index.
#[verifier::external_body]
fn empty_slots<const T: usize>() -> (slots: [Option<Waker>; T])
    ensures
        forall|i: int| 0 <= i < T ==> slots@[i] is None,
{
    std::array::from_fn(empty_slot)
}

/// The waker registry: `T` slots, indexed by event line.
pub struct WakerArray<const T: usize> {
    wakers: [Option<Waker>; T],
}

impl<const T: usize> View for WakerArray<T> {
    type V = Seq<Option<Waker>>;

    /// The slots in order of their lines.
    closed spec fn view(&self) -> Seq<Option<Waker>> {
        self.wakers@
    }
}

impl<const T: usize> Default for WakerArray<T> {
    fn default() -> (registry: Self)
        ensures
            registry@.len() == T,
            forall|i: int| 0 <= i < T ==> registry@[i] is None,
    {
        Self::new()
    }
}

/// The slots after the lines below `upto` that are set in `mask` have been
/// delivered: those slots are empty, all others are as before.
pub open spec fn delivered(slots: Seq<Option<Waker>>, mask: u32, upto: int) -> Seq<Option<Waker>> {
    Seq::new(
        slots.len(),
        |i: int|
            if i < upto && i < CHANNEL_LIMIT && is_actuated(mask, i as u32) {
                None
            } else {
                slots[i]
            },
    )
}

/// Whether a call that wakes `waker` can come back. Nothing establishes it
/// but the call itself, so a function that ensures it has woken the waker.
pub open spec fn was_woken(waker: Waker) -> bool {
    call_ensures(Waker::wake, (waker,), ())
}

/// Whether every waker that `slots` holds on a line below `upto` that is set
/// in `mask` was woken.
pub open spec fn fired_woken(slots: Seq<Option<Waker>>, mask: u32, upto: int) -> bool {
    forall|line: int|
        0 <= line < upto && line < slots.len() && line < CHANNEL_LIMIT && is_actuated(
            mask,
            line as u32,
        ) && (#[trigger] slots[line]) is Some ==> was_woken(slots[line]->Some_0)
}

/// The lines below `upto` that are set in `mask` and have a waker in `slots`,
/// as a count.
pub open spec fn count_woken(slots: Seq<Option<Waker>>, mask: u32, upto: int) -> nat
    decreases upto,
{
    if upto <= 0 {
        0
    } else {
        let line = upto - 1;
        let rest = count_woken(slots, mask, line);
        if line < slots.len() && line < CHANNEL_LIMIT && is_actuated(mask, line as u32)
            && slots[line] is Some {
            rest + 1
        } else {
            rest
        }
    }
}

impl<const T: usize> WakerArray<T> {
    /// Every registry has `T` slots.
    pub proof fn lemma_len(&self)
        ensures
            self@.len() == T,
    {
    }

    /// Creates a registry with every slot empty.
    pub fn new() -> (registry: Self)
        ensures
            registry@.len() == T,
            forall|i: int| 0 <= i < T ==> registry@[i] is None,
    {
        Self { wakers: empty_slots() }
    }

    /// Stores `waker` in slot `i` if the slot is empty. If the slot is
    /// occupied, the registry stays as it is and the waker comes back
    /// unused.
    pub fn register(&mut self, waker: Waker, i: usize) -> (outcome: Result<(), Waker>)
        requires
            i < T,
        ensures
            old(self)@[i as int] is None ==> outcome is Ok && final(self)@ == old(self)@.update(
                i as int,
                Some(waker),
            ),
            old(self)@[i as int] is Some ==> outcome == Err::<(), Waker>(waker) && final(self)@
                == old(self)@,
    {
        if self.wakers[i].is_some() {
            Err(waker)
        } else {
            self.wakers[i] = Some(waker);
            Ok(())
        }
    }

    /// Stores `waker` in slot `i` whatever the slot holds, and returns what
    /// it held. The waker that comes back has not been woken.
    pub fn replace(&mut self, waker: Waker, i: usize) -> (previous: Option<Waker>)
        requires
            i < T,
        ensures
            previous == old(self)@[i as int],
            final(self)@ == old(self)@.update(i as int, Some(waker)),
    {
        self.wakers[i].replace(waker)
    }

    /// Delivers line `i`: if its slot holds a waker, takes the waker out,
    /// wakes it and returns true. An empty slot stays empty and gives false.
    /// No other waker is touched.
    pub fn wake(&mut self, i: usize) -> (woken: bool)
        requires
            i < T,
        ensures
            woken == (old(self)@[i as int] is Some),
            final(self)@ == old(self)@.update(i as int, None),
            old(self)@[i as int] matches Some(waker) ==> was_woken(waker),
    {
        match self.wakers[i].take() {
            Some(waker) => {
                waker.wake();
                true
            },
            None => false,
        }
    }

    /// Delivers every line that is set in `mask`, lowest line first: each
    /// waker on such a line is taken out and woken. Returns how many wakers
    /// were woken. Lines that the registry does not have are passed over,
    /// and so are lines without a waker.
    pub fn wake_fired(&mut self, mask: u32) -> (woken: u32)
        ensures
            final(self)@ == delivered(old(self)@, mask, T as int),
            woken == count_woken(old(self)@, mask, T as int),
            fired_woken(old(self)@, mask, T as int),
    {
        let mut woken: u32 = 0;
        let mut line: usize = 0;
        while line < T && line < 32
            invariant
                line <= T,
                line <= 32,
                self@.len() == T,
                old(self)@.len() == T,
                self@ == delivered(old(self)@, mask, line as int),
                woken == count_woken(old(self)@, mask, line as int),
                fired_woken(old(self)@, mask, line as int),
                woken <= line,
            decreases 32 - line,
        {
            if read_single(mask, line as u32) {
                let hit = self.wake(line);
                if hit {
                    woken = woken + 1;
                }
            }
            assert(self@ =~= delivered(old(self)@, mask, line as int + 1));
            line = line + 1;
        }
        proof {
            lemma_delivered_beyond_limit(old(self)@, mask, line as int, T as int);
            lemma_count_beyond_limit(old(self)@, mask, line as int, T as int);
        }
        woken
    }
}

/// Registering on an empty line and then delivering that line wakes the
/// waker that was registered, and leaves the registry as it was before the
/// registration, the slot empty again.
pub proof fn lemma_register_then_wake(slots: Seq<Option<Waker>>, waker: Waker, i: int)
    requires
        0 <= i < slots.len(),
        slots[i] is None,
    ensures
        slots.update(i, Some(waker))[i] == Some(waker),
        slots.update(i, Some(waker)).update(i, None::<Waker>) == slots,
        slots.update(i, Some(waker)).update(i, None::<Waker>)[i] is None,
{
    assert(slots.update(i, Some(waker)).update(i, None::<Waker>) =~= slots);
}

/// When only line `line` fires, exactly its slot is delivered: no other slot
/// changes, one waker is woken if the line had one, and none if it had not.
pub proof fn lemma_single_line_fired(slots: Seq<Option<Waker>>, line: u32)
    requires
        line < CHANNEL_LIMIT,
        line < slots.len(),
    ensures
        delivered(slots, channel_mask(line), slots.len() as int) == slots.update(
            line as int,
            None::<Waker>,
        ),
        count_woken(slots, channel_mask(line), slots.len() as int) == (if slots[line as int]
            is Some {
            1nat
        } else {
            0nat
        }),
{
    let mask = channel_mask(line);
    assert forall|other: u32| other < CHANNEL_LIMIT implies is_actuated(mask, other) == (other
        == line) by {
        lemma_channel_mask_distinct(line, other);
    }
    assert(delivered(slots, mask, slots.len() as int) =~= slots.update(
        line as int,
        None::<Waker>,
    ));
    lemma_count_single(slots, line, slots.len() as int);
}

/// Counting up to `upto` when only line `line` fires: one if the line is
/// below `upto` and has a waker, none otherwise.
proof fn lemma_count_single(slots: Seq<Option<Waker>>, line: u32, upto: int)
    requires
        line < CHANNEL_LIMIT,
        line < slots.len(),
        0 <= upto <= slots.len(),
    ensures
        count_woken(slots, channel_mask(line), upto) == (if line < upto && slots[line as int]
            is Some {
            1nat
        } else {
            0nat
        }),
    decreases upto,
{
    if upto > 0 {
        lemma_count_single(slots, line, upto - 1);
        let at = upto - 1;
        if at < CHANNEL_LIMIT {
            lemma_channel_mask_distinct(line, at as u32);
        }
    }
}

/// A mask with no line set delivers nothing.
pub proof fn lemma_nothing_fired(slots: Seq<Option<Waker>>, upto: int)
    ensures
        delivered(slots, 0, upto) == slots,
        count_woken(slots, 0, upto) == 0,
        fired_woken(slots, 0, upto),
    decreases upto,
{
    assert forall|line: u32| line < CHANNEL_LIMIT implies !is_actuated(0, line) by {
        lemma_channel_mask_distinct(line, line);
    }
    assert(delivered(slots, 0, upto) =~= slots);
    if upto > 0 {
        lemma_nothing_fired(slots, upto - 1);
    }
}

/// Lines from the bitset's limit on are never delivered.
pub proof fn lemma_delivered_beyond_limit(
    slots: Seq<Option<Waker>>,
    mask: u32,
    from: int,
    upto: int,
)
    requires
        from <= upto,
        from >= CHANNEL_LIMIT || from == upto,
    ensures
        delivered(slots, mask, from) == delivered(slots, mask, upto),
{
    assert(delivered(slots, mask, from) =~= delivered(slots, mask, upto));
}

/// Lines from the bitset's limit on are never counted.
pub proof fn lemma_count_beyond_limit(slots: Seq<Option<Waker>>, mask: u32, from: int, upto: int)
    requires
        from <= upto,
        from >= CHANNEL_LIMIT || from == upto,
    ensures
        count_woken(slots, mask, from) == count_woken(slots, mask, upto),
    decreases upto - from,
{
    if from < upto {
        lemma_count_beyond_limit(slots, mask, from, upto - 1);
    }
}

} // verus!
