//! Waiting for an edge on a digital input, as a sequence of decisions.
//!
//! An edge wait is four calls into the interrupt subsystem: obtain an
//! interrupt, route the pin to it, choose the edges, and block until the
//! interrupt fires. Each call reports a status, and the statuses decide how
//! the wait goes on. The calls are made by the embedding program, on a
//! thread of its own; [`EdgeWait`] says which call comes next.

use crate::error::{HalError, HAL_HANDLE_ERROR, HAL_SUCCESS, NO_AVAILABLE_RESOURCES};
use vstd::prelude::*;

verus! {

/// Why an interrupt could not be had or waited for.
#[derive(Clone, Copy, Debug, PartialEq, Eq, Structural)]
pub enum InterruptError {
    /// All interrupts are in use. A caller may fall back to polling.
    NoAvailableInterrupt,
    /// The handle is invalid.
    BadHandle,
    /// Any other fault of the hardware layer.
    Fpga(HalError),
}

/// What the status of a call into the interrupt subsystem means.
pub open spec fn status_outcome(status: i32) -> Result<(), InterruptError> {
    if status == HAL_SUCCESS {
        Ok(())
    } else if status == NO_AVAILABLE_RESOURCES {
        Err(InterruptError::NoAvailableInterrupt)
    } else if status == HAL_HANDLE_ERROR {
        Err(InterruptError::BadHandle)
    } else {
        Err(InterruptError::Fpga(HalError(status)))
    }
}

impl InterruptError {
    /// Sorts a status of the interrupt subsystem: success, one of the two
    /// conditions that a caller may want to handle, or a fault that carries
    /// the status.
    pub fn from_status(status: i32) -> (outcome: Result<(), Self>)
        ensures
            outcome == status_outcome(status),
            outcome is Ok <==> status == HAL_SUCCESS,
    {
        if status == HAL_SUCCESS {
            Ok(())
        } else if status == NO_AVAILABLE_RESOURCES {
            Err(InterruptError::NoAvailableInterrupt)
        } else if status == HAL_HANDLE_ERROR {
            Err(InterruptError::BadHandle)
        } else {
            Err(InterruptError::Fpga(HalError::new(status)))
        }
    }
}

/// The edges of a signal that a wait can be for.
#[derive(Clone, Copy, Debug, PartialEq, Eq, Structural)]
pub enum EdgeType {
    Rising,
    Falling,
    Either,
}

impl EdgeType {
    /// Whether a wait for this kind of edge listens to rising edges.
    pub open spec fn rising(self) -> bool {
        self != EdgeType::Falling
    }

    /// Whether a wait for this kind of edge listens to falling edges.
    pub open spec fn falling(self) -> bool {
        self != EdgeType::Rising
    }

    /// Gives the two switches of the interrupt subsystem, rising first.
    pub fn edges(self) -> (switches: (bool, bool))
        ensures
            switches.0 == self.rising(),
            switches.1 == self.falling(),
            switches.0 || switches.1,
    {
        match self {
            EdgeType::Rising => (true, false),
            EdgeType::Falling => (false, true),
            EdgeType::Either => (true, true),
        }
    }
}

/// Where an edge wait stands: the call that is to be made next, or how the
/// wait ended.
#[derive(Clone, Copy, Debug, PartialEq, Eq, Structural)]
pub enum EdgeWait {
    /// Obtain an interrupt from the subsystem.
    Initialize,
    /// Route the digital input to the interrupt.
    Request,
    /// Choose the edges to listen to.
    Configure { rising: bool, falling: bool },
    /// Block until the interrupt fires or the wait times out.
    Wait,
    /// The edge was seen.
    Done,
    /// A call failed; the wait is over.
    Failed(InterruptError),
}

impl EdgeWait {
    /// Whether the wait is over.
    pub open spec fn is_over(self) -> bool {
        self is Done || self is Failed
    }

    /// The step that follows this one when the call that it named has
    /// returned. `status` is the status of that call and `asserted` what the
    /// blocking wait returned (zero where the call was another one).
    ///
    /// A failed call ends the wait. A blocking wait that returns without an
    /// asserted interrupt and without a fault has timed out and is made
    /// again.
    pub open spec fn next(self, edge: EdgeType, status: i32, asserted: i64) -> EdgeWait {
        match self {
            EdgeWait::Initialize => match status_outcome(status) {
                Ok(_) => EdgeWait::Request,
                Err(e) => EdgeWait::Failed(e),
            },
            EdgeWait::Request => match status_outcome(status) {
                Ok(_) => EdgeWait::Configure { rising: edge.rising(), falling: edge.falling() },
                Err(e) => EdgeWait::Failed(e),
            },
            EdgeWait::Configure { .. } => match status_outcome(status) {
                Ok(_) => EdgeWait::Wait,
                Err(e) => EdgeWait::Failed(e),
            },
            EdgeWait::Wait => if asserted != 0 {
                EdgeWait::Done
            } else {
                match status_outcome(status) {
                    Ok(_) => EdgeWait::Wait,
                    Err(e) => EdgeWait::Failed(e),
                }
            },
            EdgeWait::Done => EdgeWait::Done,
            EdgeWait::Failed(e) => EdgeWait::Failed(e),
        }
    }

    /// Begins an edge wait.
    pub fn start() -> (step: Self)
        ensures
            step == EdgeWait::Initialize,
    {
        EdgeWait::Initialize
    }

    /// Whether the wait is over, and with what: nothing while it goes on,
    /// success once the edge was seen, the error once a call failed.
    pub fn outcome(&self) -> (ended: Option<Result<(), InterruptError>>)
        ensures
            ended is Some <==> self.is_over(),
            *self is Done ==> ended == Some(Ok::<(), InterruptError>(())),
            *self matches EdgeWait::Failed(e) ==> ended == Some(Err::<(), InterruptError>(e)),
    {
        match self {
            EdgeWait::Done => Some(Ok(())),
            EdgeWait::Failed(e) => Some(Err(*e)),
            _ => None,
        }
    }

    /// Takes the result of the call that this step named and gives the step
    /// that follows.
    pub fn advance(self, edge: EdgeType, status: i32, asserted: i64) -> (step: Self)
        ensures
            step == self.next(edge, status, asserted),
    {
        match self {
            EdgeWait::Initialize => match InterruptError::from_status(status) {
                Ok(_) => EdgeWait::Request,
                Err(e) => EdgeWait::Failed(e),
            },
            EdgeWait::Request => match InterruptError::from_status(status) {
                Ok(_) => {
                    let (rising, falling) = edge.edges();
                    EdgeWait::Configure { rising, falling }
                },
                Err(e) => EdgeWait::Failed(e),
            },
            EdgeWait::Configure { .. } => match InterruptError::from_status(status) {
                Ok(_) => EdgeWait::Wait,
                Err(e) => EdgeWait::Failed(e),
            },
            EdgeWait::Wait => if asserted != 0 {
                EdgeWait::Done
            } else {
                match InterruptError::from_status(status) {
                    Ok(_) => EdgeWait::Wait,
                    Err(e) => EdgeWait::Failed(e),
                }
            },
            EdgeWait::Done => EdgeWait::Done,
            EdgeWait::Failed(e) => EdgeWait::Failed(e),
        }
    }
}

/// A wait that is over stays over, whatever is reported to it.
pub proof fn lemma_edge_wait_ends_once(step: EdgeWait, edge: EdgeType, status: i32, asserted: i64)
    requires
        step.is_over(),
    ensures
        step.next(edge, status, asserted) == step,
{
}

/// A wait that meets no fault makes its four calls in order and ends with the
/// first asserted interrupt.
pub proof fn lemma_edge_wait_course(edge: EdgeType, asserted: i64)
    requires
        asserted != 0,
    ensures
        EdgeWait::Initialize.next(edge, HAL_SUCCESS, 0) == EdgeWait::Request,
        EdgeWait::Request.next(edge, HAL_SUCCESS, 0) == (EdgeWait::Configure {
            rising: edge.rising(),
            falling: edge.falling(),
        }),
        (EdgeWait::Configure { rising: edge.rising(), falling: edge.falling() }).next(
            edge,
            HAL_SUCCESS,
            0,
        ) == EdgeWait::Wait,
        EdgeWait::Wait.next(edge, HAL_SUCCESS, 0) == EdgeWait::Wait,
        EdgeWait::Wait.next(edge, HAL_SUCCESS, asserted) == EdgeWait::Done,
{
}

} // verus!
