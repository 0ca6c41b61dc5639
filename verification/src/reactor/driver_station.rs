//! The driver-input bridge: snapshots of what the driver station reports,
//! and what the bridge's background thread decides between two waits.
//!
//! The background thread waits, with a timeout, on the event that the
//! hardware layer signals when new data has arrived. Every signalled wait is
//! published to all tasks that wait for a packet at that moment; a task that
//! was not waiting has missed nothing that it could still use, since the
//! snapshots are read directly and are always the freshest. A controller
//! that is not plugged in has no snapshot at all, rather than one of zeros.

use crate::pneumatics::bitset::{is_actuated, read_single};
use crate::reactor::interrupt::Lifecycle;
use vstd::prelude::*;

verus! {

/// The most axes that one controller reports.
pub const MAX_AXES: usize = 12;

/// The most POVs (directional pads) that one controller reports.
pub const MAX_POVS: usize = 12;

/// The most buttons that one controller reports.
pub const MAX_BUTTONS: u8 = 32;

/// The mode that the driver station has put the robot in.
#[derive(Clone, Copy, Debug, PartialEq, Eq, Structural)]
pub enum RobotMode {
    Disabled,
    Autonomous,
    Teleop,
    EStop,
}

impl Default for RobotMode {
    fn default() -> (mode: Self)
        ensures
            mode == RobotMode::Disabled,
    {
        RobotMode::Disabled
    }
}

/// The mode that a control word stands for. An enabled robot is autonomous
/// or tele-operated; a robot that is not enabled is stopped for emergency
/// or simply disabled.
pub open spec fn mode_of_control_word(enabled: u32, autonomous: u32, e_stop: u32) -> RobotMode {
    if enabled != 0 {
        if autonomous != 0 {
            RobotMode::Autonomous
        } else {
            RobotMode::Teleop
        }
    } else if e_stop != 0 {
        RobotMode::EStop
    } else {
        RobotMode::Disabled
    }
}

impl RobotMode {
    /// Reads the robot mode out of the three fields of the control word that
    /// bear on it. Each field counts as set when it is not zero.
    pub fn from_control_word(enabled: u32, autonomous: u32, e_stop: u32) -> (mode: Self)
        ensures
            mode == mode_of_control_word(enabled, autonomous, e_stop),
    {
        if enabled != 0 {
            if autonomous != 0 {
                RobotMode::Autonomous
            } else {
                RobotMode::Teleop
            }
        } else if e_stop != 0 {
            RobotMode::EStop
        } else {
            RobotMode::Disabled
        }
    }
}

/// The axes of one controller at one moment. Each value is the bit pattern
/// of a single-precision number, kept as the hardware layer delivered it;
/// the embedding program reads the number out of it. The count is kept as
/// delivered too; no more than [`MAX_AXES`] axes are ever served.
#[derive(Clone, Copy, Debug, PartialEq, Eq)]
pub struct ControllerAxes {
    count: i16,
    axes: [u32; 12],
}

impl ControllerAxes {
    /// How many axes the controller has.
    pub closed spec fn count(&self) -> int {
        self.count as int
    }

    /// The values of all twelve places, of which the first `count` are axes.
    pub closed spec fn values(&self) -> Seq<u32> {
        self.axes@
    }

    /// Makes a snapshot of `count` axes.
    pub fn new(count: i16, axes: [u32; 12]) -> (snapshot: Self)
        ensures
            snapshot.count() == count,
            snapshot.values() == axes@,
    {
        Self { count, axes }
    }

    /// Gets the value of axis `n`, or nothing if there is no such axis.
    pub fn get(&self, n: u8) -> (value: Option<u32>)
        ensures
            value == (if n < self.count() && n < MAX_AXES {
                Some(self.values()[n as int])
            } else {
                None
            }),
    {
        if (n as i16) < self.count && (n as usize) < MAX_AXES {
            Some(self.axes[n as usize])
        } else {
            None
        }
    }
}

/// The POVs (directional pads) of one controller at one moment.
#[derive(Clone, Copy, Debug, PartialEq, Eq)]
pub struct ControllerPOVs {
    count: i16,
    povs: [i16; 12],
}

impl ControllerPOVs {
    /// How many POVs the controller has.
    pub closed spec fn count(&self) -> int {
        self.count as int
    }

    /// The values of all twelve places, of which the first `count` are POVs.
    pub closed spec fn values(&self) -> Seq<i16> {
        self.povs@
    }

    /// Makes a snapshot of `count` POVs.
    pub fn new(count: i16, povs: [i16; 12]) -> (snapshot: Self)
        ensures
            snapshot.count() == count,
            snapshot.values() == povs@,
    {
        Self { count, povs }
    }

    /// Gets the value of POV `n`, or nothing if there is no such POV.
    pub fn get(&self, n: u8) -> (value: Option<i16>)
        ensures
            value == (if n < self.count() && n < MAX_POVS {
                Some(self.values()[n as int])
            } else {
                None
            }),
    {
        if (n as i16) < self.count && (n as usize) < MAX_POVS {
            Some(self.povs[n as usize])
        } else {
            None
        }
    }
}

/// The buttons of one controller at one moment, bit `n` for button `n`.
#[derive(Clone, Copy, Debug, PartialEq, Eq)]
pub struct ControllerButtons {
    count: u8,
    buttons: u32,
}

impl ControllerButtons {
    /// How many buttons the controller has.
    pub closed spec fn count(&self) -> int {
        self.count as int
    }

    /// The buttons as a bitset.
    pub closed spec fn bits(&self) -> u32 {
        self.buttons
    }

    /// Makes a snapshot of `count` buttons.
    pub fn new(count: u8, buttons: u32) -> (snapshot: Self)
        ensures
            snapshot.count() == count,
            snapshot.bits() == buttons,
    {
        Self { count, buttons }
    }

    /// Gets whether button `n` is pressed, or nothing if there is no such
    /// button.
    pub fn get(&self, n: u8) -> (pressed: Option<bool>)
        ensures
            pressed == (if n < self.count() && n < MAX_BUTTONS {
                Some(is_actuated(self.bits(), n as u32))
            } else {
                None
            }),
    {
        if n < self.count && n < MAX_BUTTONS {
            Some(read_single(self.buttons, n as u32))
        } else {
            None
        }
    }
}

/// The state of one controller at one moment.
#[derive(Clone, Copy, Debug, PartialEq, Eq)]
pub struct ControllerState {
    axes: ControllerAxes,
    povs: ControllerPOVs,
    buttons: ControllerButtons,
}

impl ControllerState {
    /// The axes of this snapshot.
    pub closed spec fn axes(&self) -> ControllerAxes {
        self.axes
    }

    /// The POVs of this snapshot.
    pub closed spec fn povs(&self) -> ControllerPOVs {
        self.povs
    }

    /// The buttons of this snapshot.
    pub closed spec fn buttons(&self) -> ControllerButtons {
        self.buttons
    }

    /// Puts the three readings of one port together. A port on which any of
    /// them could not be had has no controller, and therefore no snapshot.
    pub fn from_readings(
        axes: Option<ControllerAxes>,
        povs: Option<ControllerPOVs>,
        buttons: Option<ControllerButtons>,
    ) -> (state: Option<Self>)
        ensures
            state is Some <==> axes is Some && povs is Some && buttons is Some,
            state matches Some(s) ==> Some(s.axes()) == axes && Some(s.povs()) == povs && Some(
                s.buttons(),
            ) == buttons,
    {
        match (axes, povs, buttons) {
            (Some(axes), Some(povs), Some(buttons)) => Some(Self { axes, povs, buttons }),
            _ => None,
        }
    }

    /// Gets the value of a controller axis as a bit pattern, or nothing if no
    /// such axis exists.
    pub fn axis(&self, n: u8) -> (value: Option<u32>)
        ensures
            value == (if n < self.axes().count() && n < MAX_AXES {
                Some(self.axes().values()[n as int])
            } else {
                None
            }),
    {
        self.axes.get(n)
    }

    /// Gets the value of a controller POV (D-pad), or nothing if no such POV
    /// exists.
    pub fn pov(&self, n: u8) -> (value: Option<i16>)
        ensures
            value == (if n < self.povs().count() && n < MAX_POVS {
                Some(self.povs().values()[n as int])
            } else {
                None
            }),
    {
        self.povs.get(n)
    }

    /// Gets the value of a controller button, or nothing if no such button
    /// exists.
    pub fn button(&self, n: u8) -> (pressed: Option<bool>)
        ensures
            pressed == (if n < self.buttons().count() && n < MAX_BUTTONS {
                Some(is_actuated(self.buttons().bits(), n as u32))
            } else {
                None
            }),
    {
        self.buttons.get(n)
    }
}

/// Whether a read of a port found a device there. The hardware layer
/// reports in a status whether it did: zero means that it did.
pub fn device_present(status: i32) -> (present: bool)
    ensures
        present == (status == 0),
{
    status == 0
}

/// Whether a wait on the new-data event was signalled. The hardware layer
/// reports in a word whether the wait timed out: zero means that it did not.
pub fn wait_signalled(timed_out: i32) -> (signalled: Result<(), ()>)
    ensures
        signalled is Ok <==> timed_out == 0,
{
    if timed_out == 0 {
        Ok(())
    } else {
        Err(())
    }
}

/// What the bridge's background thread does after a wait.
#[derive(Clone, Copy, Debug, PartialEq, Eq, Structural)]
pub struct BridgeAction {
    /// Notify every task that waits for a packet now.
    pub notify: bool,
    /// Leave the loop.
    pub exit: bool,
}

/// The driver-input bridge as its background thread sees it.
pub struct Bridge {
    state: Lifecycle,
}

impl Bridge {
    /// Where the bridge stands in its life.
    pub closed spec fn lifecycle(&self) -> Lifecycle {
        self.state
    }

    /// Creates a running bridge.
    pub fn new() -> (bridge: Self)
        ensures
            bridge.lifecycle() == Lifecycle::Running,
    {
        Self { state: Lifecycle::Running }
    }

    /// Gives the state of the bridge.
    pub fn state(&self) -> (state: Lifecycle)
        ensures
            state == self.lifecycle(),
    {
        self.state
    }

    /// Requests shutdown. A running bridge is shutting down from now on; one
    /// that is shutting down or stopped stays so.
    pub fn shutdown(&mut self)
        ensures
            final(self).lifecycle() == (if old(self).lifecycle() == Lifecycle::Running {
                Lifecycle::ShuttingDown
            } else {
                old(self).lifecycle()
            }),
    {
        if self.state == Lifecycle::Running {
            self.state = Lifecycle::ShuttingDown;
        }
    }

    /// Takes the outcome of a wait on the new-data event.
    ///
    /// A signalled wait is published, a timed-out wait is not. The thread
    /// goes on while the bridge is running and leaves its loop once shutdown
    /// was requested, so that a shutdown is seen after one wait at most. A
    /// stopped bridge publishes nothing.
    pub fn on_wait(&mut self, signalled: Result<(), ()>) -> (action: BridgeAction)
        ensures
            action.notify == (signalled is Ok && old(self).lifecycle() != Lifecycle::Stopped),
            action.exit == (old(self).lifecycle() != Lifecycle::Running),
            final(self).lifecycle() == (if old(self).lifecycle() == Lifecycle::Running {
                Lifecycle::Running
            } else {
                Lifecycle::Stopped
            }),
    {
        match self.state {
            Lifecycle::Running => BridgeAction { notify: signalled.is_ok(), exit: false },
            Lifecycle::ShuttingDown => {
                self.state = Lifecycle::Stopped;
                BridgeAction { notify: signalled.is_ok(), exit: true }
            },
            Lifecycle::Stopped => BridgeAction { notify: false, exit: true },
        }
    }
}

} // verus!
