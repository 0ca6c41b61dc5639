//! Faults of the hardware layer.

use vstd::prelude::*;

verus! {

/// The status with which the hardware layer reports success.
pub const HAL_SUCCESS: i32 = 0;

/// The status with which the hardware layer reports that a resource of some
/// kind has run out.
pub const NO_AVAILABLE_RESOURCES: i32 = -1004;

/// The status with which the hardware layer reports a handle that it does
/// not know.
pub const HAL_HANDLE_ERROR: i32 = -1098;

/// A fault of the hardware layer that is known by its status alone.
///
/// Call sites should prefer to check for the statuses that they can handle
/// and wrap them into more specific enums. This type is the "something else"
/// beside them. The text that belongs to a status is the hardware layer's to
/// give.
#[derive(Clone, Copy, Debug, PartialEq, Eq, Structural)]
pub struct HalError(pub i32);

impl HalError {
    /// The status that this fault carries.
    pub open spec fn code(self) -> i32 {
        self.0
    }

    /// Wraps a status.
    pub fn new(status: i32) -> (fault: Self)
        ensures
            fault.code() == status,
    {
        Self(status)
    }

    /// Gives the status that this fault carries.
    pub fn status(&self) -> (status: i32)
        ensures
            status == self.code(),
    {
        self.0
    }
}

} // verus!
