use frc::reactor::driver_station::{
    device_present, wait_signalled, Bridge, BridgeAction, ControllerAxes, ControllerButtons, ControllerPOVs,
    ControllerState, RobotMode,
};
use frc::reactor::interrupt::Lifecycle;

fn axes() -> ControllerAxes {
    let mut values = [0u32; 12];
    values[0] = 0.5f32.to_bits();
    values[1] = (-1.0f32).to_bits();
    values[2] = 7;
    ControllerAxes::new(2, values)
}

fn povs() -> ControllerPOVs {
    let mut values = [0i16; 12];
    values[0] = 90;
    values[1] = -1;
    values[2] = 270;
    ControllerPOVs::new(2, values)
}

#[test]
fn robot_mode_from_control_word() {
    assert_eq!(RobotMode::from_control_word(1, 1, 0), RobotMode::Autonomous);
    assert_eq!(RobotMode::from_control_word(1, 1, 1), RobotMode::Autonomous);
    assert_eq!(RobotMode::from_control_word(1, 0, 0), RobotMode::Teleop);
    assert_eq!(RobotMode::from_control_word(1, 0, 1), RobotMode::Teleop);
    assert_eq!(RobotMode::from_control_word(0, 0, 1), RobotMode::EStop);
    assert_eq!(RobotMode::from_control_word(0, 1, 1), RobotMode::EStop);
    assert_eq!(RobotMode::from_control_word(0, 1, 0), RobotMode::Disabled);
    assert_eq!(RobotMode::from_control_word(0, 0, 0), RobotMode::Disabled);
    assert_eq!(RobotMode::default(), RobotMode::Disabled);
}

#[test]
fn axes_are_bounded_by_their_count() {
    let axes = axes();
    assert_eq!(axes.get(0).map(f32::from_bits), Some(0.5));
    assert_eq!(axes.get(1).map(f32::from_bits), Some(-1.0));
    assert_eq!(axes.get(2), None);
    assert_eq!(axes.get(12), None);
    assert_eq!(axes.get(255), None);
    let full = ControllerAxes::new(12, [3; 12]);
    assert_eq!(full.get(11), Some(3));
    assert_eq!(full.get(12), None);
    let none = ControllerAxes::new(-3, [3; 12]);
    assert_eq!(none.get(0), None);
}

#[test]
fn povs_are_bounded_by_their_count() {
    let povs = povs();
    assert_eq!(povs.get(0), Some(90));
    assert_eq!(povs.get(1), Some(-1));
    assert_eq!(povs.get(2), None);
    assert_eq!(povs.get(200), None);
    let empty = ControllerPOVs::new(0, [45; 12]);
    assert_eq!(empty.get(0), None);
}

#[test]
fn buttons_are_bounded_by_their_count() {
    let buttons = ControllerButtons::new(3, 0b1101);
    assert_eq!(buttons.get(0), Some(true));
    assert_eq!(buttons.get(1), Some(false));
    assert_eq!(buttons.get(2), Some(true));
    assert_eq!(buttons.get(3), None);
    assert_eq!(buttons.get(40), None);
    let all = ControllerButtons::new(32, 0x8000_0000);
    assert_eq!(all.get(31), Some(true));
    assert_eq!(all.get(30), Some(false));
    assert_eq!(all.get(32), None);
}

#[test]
fn a_port_without_a_reading_has_no_snapshot() {
    let buttons = ControllerButtons::new(3, 0b1101);
    assert_eq!(ControllerState::from_readings(None, Some(povs()), Some(buttons)), None);
    assert_eq!(ControllerState::from_readings(Some(axes()), None, Some(buttons)), None);
    assert_eq!(ControllerState::from_readings(Some(axes()), Some(povs()), None), None);
    assert_eq!(ControllerState::from_readings(None, None, None), None);
}

#[test]
fn a_snapshot_serves_its_readings() {
    let buttons = ControllerButtons::new(3, 0b1101);
    let state = match ControllerState::from_readings(Some(axes()), Some(povs()), Some(buttons)) {
        Some(state) => state,
        None => panic!("three readings made no snapshot"),
    };
    assert_eq!(state.axis(1).map(f32::from_bits), Some(-1.0));
    assert_eq!(state.axis(2), None);
    assert_eq!(state.pov(0), Some(90));
    assert_eq!(state.pov(5), None);
    assert_eq!(state.button(2), Some(true));
    assert_eq!(state.button(1), Some(false));
    assert_eq!(state.button(3), None);
}

#[test]
fn wait_is_signalled_when_it_did_not_time_out() {
    assert_eq!(wait_signalled(0), Ok(()));
    assert_eq!(wait_signalled(1), Err(()));
    assert_eq!(wait_signalled(-1), Err(()));
}

#[test]
fn bridge_publishes_signalled_waits() {
    let mut bridge = Bridge::new();
    assert_eq!(bridge.state(), Lifecycle::Running);
    assert_eq!(bridge.on_wait(Ok(())), BridgeAction { notify: true, exit: false });
    assert_eq!(bridge.on_wait(Err(())), BridgeAction { notify: false, exit: false });
    assert_eq!(bridge.state(), Lifecycle::Running);
}

#[test]
fn bridge_stops_within_one_wait_of_shutdown() {
    let mut bridge = Bridge::new();
    bridge.shutdown();
    assert_eq!(bridge.state(), Lifecycle::ShuttingDown);
    assert_eq!(bridge.on_wait(Ok(())), BridgeAction { notify: true, exit: true });
    assert_eq!(bridge.state(), Lifecycle::Stopped);
    assert_eq!(bridge.on_wait(Ok(())), BridgeAction { notify: false, exit: true });
    bridge.shutdown();
    assert_eq!(bridge.state(), Lifecycle::Stopped);

    let mut idle = Bridge::new();
    idle.shutdown();
    assert_eq!(idle.on_wait(Err(())), BridgeAction { notify: false, exit: true });
}

#[test]
fn a_count_above_the_maximum_is_kept_and_serves_no_more_than_the_maximum() {
    let axes = ControllerAxes::new(20, [9; 12]);
    assert_eq!(axes.get(11), Some(9));
    assert_eq!(axes.get(12), None);
    assert_eq!(axes.get(19), None);
    let povs = ControllerPOVs::new(i16::MAX, [-7; 12]);
    assert_eq!(povs.get(0), Some(-7));
    assert_eq!(povs.get(11), Some(-7));
    assert_eq!(povs.get(12), None);
    let buttons = ControllerButtons::new(200, 0x8000_0001);
    assert_eq!(buttons.get(0), Some(true));
    assert_eq!(buttons.get(31), Some(true));
    assert_eq!(buttons.get(32), None);
    assert_eq!(buttons.get(199), None);
}

#[test]
fn a_device_is_present_when_the_read_reports_zero() {
    assert!(device_present(0));
    assert!(!device_present(1));
    assert!(!device_present(-1));
    assert!(!device_present(i32::MIN));
}
