//! The interrupt reactor: what one background thread decides between two
//! blocking waits on the multiplexed interrupt lines.
//!
//! The thread belongs to the embedding program. It initialises the interrupt
//! subsystem, and then waits, with a short timeout, for a mask of fired
//! lines. Each return of the wait is handed to [`Reactor::on_wait`], which
//! delivers the fired lines to the waker registry and says whether to wait
//! again. Tasks register their wakers in between. The registry is touched
//! only inside these calls, never while the thread is blocked.

use crate::error::HAL_SUCCESS;
use crate::reactor::dio::{status_outcome, InterruptError};
use crate::reactor::waker_array::{delivered, fired_woken, WakerArray};
use std::task::Waker;
use vstd::prelude::*;

verus! {

/// The life of a reactor or bridge.
#[derive(Clone, Copy, Debug, PartialEq, Eq, Structural)]
pub enum Lifecycle {
    /// The background thread is alive.
    Running,
    /// Shutdown was requested and the thread has not seen it yet.
    ShuttingDown,
    /// The thread has left its loop.
    Stopped,
}

/// What a blocking wait on the interrupt lines came back with.
#[derive(Clone, Copy, Debug, PartialEq, Eq, Structural)]
pub enum WaitOutcome {
    /// These lines fired, bit `i` for line `i`.
    Fired(u32),
    /// No line fired within the timeout: the normal idle condition.
    TimedOut,
    /// The wait failed.
    Fault(InterruptError),
}

/// What the background thread does next.
#[derive(Clone, Copy, Debug, PartialEq, Eq, Structural)]
pub enum ReactorAction {
    /// Wait again.
    Wait,
    /// Leave the loop: shutdown was requested.
    Exit,
    /// Abort: the interrupt subsystem is faulted, and to go on polling it
    /// would lose events without a sign.
    Abort(InterruptError),
}

/// What the return of a wait means. A non-zero mask is a set of fired lines;
/// an empty mask with a good status is a timeout; an empty mask with any
/// other status is a fault.
pub open spec fn wait_outcome(mask: u32, status: i32) -> WaitOutcome {
    if mask != 0 {
        WaitOutcome::Fired(mask)
    } else {
        match status_outcome(status) {
            Ok(_) => WaitOutcome::TimedOut,
            Err(e) => WaitOutcome::Fault(e),
        }
    }
}

/// Sorts the return of a wait on the interrupt lines.
pub fn classify_wait(mask: u32, status: i32) -> (outcome: WaitOutcome)
    ensures
        outcome == wait_outcome(mask, status),
        outcome is TimedOut <==> mask == 0 && status == HAL_SUCCESS,
{
    if mask != 0 {
        WaitOutcome::Fired(mask)
    } else {
        match InterruptError::from_status(status) {
            Ok(_) => WaitOutcome::TimedOut,
            Err(e) => WaitOutcome::Fault(e),
        }
    }
}

impl WaitOutcome {
    /// The lines that this outcome reports as fired.
    pub open spec fn fired(self) -> u32 {
        match self {
            WaitOutcome::Fired(mask) => mask,
            _ => 0,
        }
    }
}

/// The state that follows a wait.
pub open spec fn state_after_wait(state: Lifecycle, outcome: WaitOutcome) -> Lifecycle {
    match (state, outcome) {
        (Lifecycle::Running, WaitOutcome::Fired(_)) => Lifecycle::Running,
        (Lifecycle::Running, WaitOutcome::TimedOut) => Lifecycle::Running,
        _ => Lifecycle::Stopped,
    }
}

/// The action that follows a wait.
pub open spec fn action_after_wait(state: Lifecycle, outcome: WaitOutcome) -> ReactorAction {
    match (state, outcome) {
        (Lifecycle::Stopped, _) => ReactorAction::Exit,
        (_, WaitOutcome::Fault(e)) => ReactorAction::Abort(e),
        (Lifecycle::ShuttingDown, _) => ReactorAction::Exit,
        (Lifecycle::Running, _) => ReactorAction::Wait,
    }
}

/// An interrupt reactor over `T` lines: the waker registry and the state of
/// the background thread.
pub struct Reactor<const T: usize> {
    registry: WakerArray<T>,
    state: Lifecycle,
}

impl<const T: usize> Reactor<T> {
    /// The slots of the registry, in order of their lines.
    pub closed spec fn slots(&self) -> Seq<Option<Waker>> {
        self.registry@
    }

    /// Where the reactor stands in its life.
    pub closed spec fn lifecycle(&self) -> Lifecycle {
        self.state
    }

    /// Every reactor has `T` slots.
    pub proof fn lemma_len(&self)
        ensures
            self.slots().len() == T,
    {
        self.registry.lemma_len();
    }

    /// Creates a running reactor with every slot empty.
    pub fn new() -> (reactor: Self)
        ensures
            reactor.lifecycle() == Lifecycle::Running,
            reactor.slots().len() == T,
            forall|i: int| 0 <= i < T ==> reactor.slots()[i] is None,
    {
        Self { registry: WakerArray::new(), state: Lifecycle::Running }
    }

    /// Gives the state of the reactor.
    pub fn state(&self) -> (state: Lifecycle)
        ensures
            state == self.lifecycle(),
    {
        self.state
    }

    /// Stores `waker` for line `i` if no waker is pending there, and hands it
    /// back if one is.
    pub fn register(&mut self, waker: Waker, i: usize) -> (outcome: Result<(), Waker>)
        requires
            i < T,
        ensures
            final(self).lifecycle() == old(self).lifecycle(),
            old(self).slots()[i as int] is None ==> outcome is Ok && final(self).slots() == old(self).slots().update(i as int, Some(waker)),
            old(self).slots()[i as int] is Some ==> outcome == Err::<(), Waker>(waker) && final(self).slots() == old(self).slots(),
    {
        self.registry.register(waker, i)
    }

    /// Stores `waker` for line `i` in any case and returns the waker that
    /// was pending there, unwoken.
    pub fn replace(&mut self, waker: Waker, i: usize) -> (previous: Option<Waker>)
        requires
            i < T,
        ensures
            final(self).lifecycle() == old(self).lifecycle(),
            previous == old(self).slots()[i as int],
            final(self).slots() == old(self).slots().update(i as int, Some(waker)),
    {
        self.registry.replace(waker, i)
    }

    /// Requests shutdown. A running reactor is shutting down from now on; one
    /// that is shutting down or stopped stays so. The registry is untouched.
    pub fn shutdown(&mut self)
        ensures
            final(self).slots() == old(self).slots(),
            final(self).lifecycle() == (if old(self).lifecycle() == Lifecycle::Running {
                Lifecycle::ShuttingDown
            } else {
                old(self).lifecycle()
            }),
    {
        if self.state == Lifecycle::Running {
            self.state = Lifecycle::ShuttingDown;
        }
    }

    /// Takes what a wait came back with.
    ///
    /// The lines that fired are delivered, lowest first: each such slot is
    /// emptied and its waker woken. A timeout delivers nothing. After that
    /// the reactor looks at its own state: while running it waits again, and
    /// once shutdown was requested it stops, so that a shutdown is seen
    /// after one wait at most. A fault stops the reactor with nothing
    /// delivered. A stopped reactor does nothing at all.
    pub fn on_wait(&mut self, outcome: WaitOutcome) -> (action: ReactorAction)
        ensures
            action == action_after_wait(old(self).lifecycle(), outcome),
            final(self).lifecycle() == state_after_wait(old(self).lifecycle(), outcome),
            final(self).slots() == (if old(self).lifecycle() == Lifecycle::Stopped {
                old(self).slots()
            } else {
                delivered(old(self).slots(), outcome.fired(), T as int)
            }),
            old(self).lifecycle() != Lifecycle::Stopped ==> fired_woken(
                old(self).slots(),
                outcome.fired(),
                T as int,
            ),
    {
        proof {
            self.registry.lemma_len();
            crate::reactor::waker_array::lemma_nothing_fired(self.registry@, T as int);
        }
        match self.state {
            Lifecycle::Stopped => ReactorAction::Exit,
            Lifecycle::Running => match outcome {
                WaitOutcome::Fired(mask) => {
                    let _ = self.registry.wake_fired(mask);
                    ReactorAction::Wait
                },
                WaitOutcome::TimedOut => ReactorAction::Wait,
                WaitOutcome::Fault(e) => {
                    self.state = Lifecycle::Stopped;
                    ReactorAction::Abort(e)
                },
            },
            Lifecycle::ShuttingDown => {
                self.state = Lifecycle::Stopped;
                match outcome {
                    WaitOutcome::Fired(mask) => {
                        let _ = self.registry.wake_fired(mask);
                        ReactorAction::Exit
                    },
                    WaitOutcome::TimedOut => ReactorAction::Exit,
                    WaitOutcome::Fault(e) => ReactorAction::Abort(e),
                }
            },
        }
    }
}

/// Once shutdown was requested, the next return of the wait, whatever it is,
/// stops the reactor: the thread leaves its loop within one wait.
pub proof fn lemma_shutdown_within_one_wait(state: Lifecycle, outcome: WaitOutcome)
    requires
        state != Lifecycle::Running,
    ensures
        state_after_wait(state, outcome) == Lifecycle::Stopped,
        action_after_wait(state, outcome) != ReactorAction::Wait,
{
}

/// A running reactor goes on for as long as its waits return fired lines or
/// time out.
pub proof fn lemma_running_goes_on(outcome: WaitOutcome)
    requires
        !(outcome is Fault),
    ensures
        state_after_wait(Lifecycle::Running, outcome) == Lifecycle::Running,
        action_after_wait(Lifecycle::Running, outcome) == ReactorAction::Wait,
{
}

} // verus!
