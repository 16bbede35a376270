use pros_simulator::abi::{
    EINVAL, E_CONTROLLER_ANALOG_LEFT_X, E_CONTROLLER_ANALOG_LEFT_Y, E_CONTROLLER_ANALOG_RIGHT_X,
    E_CONTROLLER_ANALOG_RIGHT_Y, E_CONTROLLER_DIGITAL_A, E_CONTROLLER_DIGITAL_B,
    E_CONTROLLER_DIGITAL_L1, E_CONTROLLER_DIGITAL_X, E_CONTROLLER_MASTER, E_CONTROLLER_PARTNER,
};
use pros_simulator::api::misc::{
    competition_get_status, competition_is_autonomous, competition_is_connected,
    competition_is_disabled, controller_get_analog, controller_get_battery_capacity,
    controller_get_battery_level, controller_get_digital, controller_get_digital_new_press,
    controller_is_connected,
};
use pros_simulator::host::controllers::{Controller, Controllers};
use pros_simulator::host::memory::GuestMemory;
use pros_simulator::host::{Host, Reply};
use pros_simulator::interface::{
    AnalogControllerState, CompetitionPhase, ControllerState, DigitalControllerState,
};
use pros_simulator::system::system_daemon::CompetitionPhaseExt;

fn host_on(memory: Vec<u8>) -> Host {
    let mut linker = pros_simulator::api::Linker::new();
    pros_simulator::api::configure_api(&mut linker).unwrap();
    let module = pros_simulator::api::Module { imports: Vec::new() };
    Host::new(GuestMemory::new(memory), linker, module)
}

fn released() -> DigitalControllerState {
    DigitalControllerState {
        l1: false,
        l2: false,
        r1: false,
        r2: false,
        up: false,
        down: false,
        left: false,
        right: false,
        x: false,
        b: false,
        y: false,
        a: false,
    }
}

fn centered() -> AnalogControllerState {
    AnalogControllerState { left_x: 0, left_y: 0, right_x: 0, right_y: 0 }
}

fn with_x(x: bool) -> ControllerState {
    ControllerState { digital: DigitalControllerState { x, ..released() }, analog: centered() }
}

#[test]
fn new_press_is_reported_once_per_rising_edge() {
    let mut controllers = Controllers::new(None, None);
    controllers.update(Some(with_x(false)), None);
    assert_eq!(controllers.get_digital_new_press(E_CONTROLLER_MASTER, E_CONTROLLER_DIGITAL_X), Ok(false));
    controllers.update(Some(with_x(true)), None);
    assert_eq!(controllers.get_digital_new_press(E_CONTROLLER_MASTER, E_CONTROLLER_DIGITAL_X), Ok(true));
    controllers.update(Some(with_x(true)), None);
    assert_eq!(controllers.get_digital_new_press(E_CONTROLLER_MASTER, E_CONTROLLER_DIGITAL_X), Ok(false));
}

#[test]
fn new_press_edge_through_the_host_call() {
    let mut host = host_on(vec![0; 16]);
    host.controllers.update(Some(with_x(false)), None);
    let first = controller_get_digital_new_press(&mut host, E_CONTROLLER_MASTER, E_CONTROLLER_DIGITAL_X);
    host.controllers.update(Some(with_x(true)), None);
    let second = controller_get_digital_new_press(&mut host, E_CONTROLLER_MASTER, E_CONTROLLER_DIGITAL_X);
    host.controllers.update(Some(with_x(true)), None);
    let third = controller_get_digital_new_press(&mut host, E_CONTROLLER_MASTER, E_CONTROLLER_DIGITAL_X);
    assert_eq!((first.value, second.value, third.value), (0, 1, 0));
    assert_eq!((first.errno, second.errno, third.errno), (None, None, None));
}

#[test]
fn press_waits_until_it_is_read() {
    let mut controllers = Controllers::new(Some(with_x(false)), None);
    controllers.update(Some(with_x(true)), None);
    controllers.update(Some(with_x(false)), None);
    controllers.update(Some(with_x(false)), None);
    assert_eq!(controllers.get_digital(E_CONTROLLER_MASTER, E_CONTROLLER_DIGITAL_X), Ok(false));
    assert_eq!(controllers.get_digital_new_press(E_CONTROLLER_MASTER, E_CONTROLLER_DIGITAL_X), Ok(true));
    assert_eq!(controllers.get_digital_new_press(E_CONTROLLER_MASTER, E_CONTROLLER_DIGITAL_X), Ok(false));
}

#[test]
fn reading_one_button_keeps_the_press_of_another() {
    let mut controllers = Controllers::new(Some(with_x(false)), None);
    let both = ControllerState {
        digital: DigitalControllerState { x: true, a: true, ..released() },
        analog: centered(),
    };
    controllers.update(Some(both), None);
    assert_eq!(controllers.get_digital_new_press(E_CONTROLLER_MASTER, E_CONTROLLER_DIGITAL_X), Ok(true));
    assert_eq!(controllers.get_digital_new_press(E_CONTROLLER_MASTER, E_CONTROLLER_DIGITAL_A), Ok(true));
    assert_eq!(controllers.get_digital_new_press(E_CONTROLLER_MASTER, E_CONTROLLER_DIGITAL_A), Ok(false));
}

#[test]
fn button_held_at_connection_counts_as_new_press() {
    let mut controllers = Controllers::new(None, Some(with_x(true)));
    assert_eq!(controllers.get_digital_new_press(E_CONTROLLER_PARTNER, E_CONTROLLER_DIGITAL_X), Ok(true));
    assert_eq!(controllers.get_digital_new_press(E_CONTROLLER_PARTNER, E_CONTROLLER_DIGITAL_X), Ok(false));
}

#[test]
fn controller_update_keeps_pending_presses() {
    let mut controller = Controller::new(with_x(false));
    controller.update(with_x(true));
    controller.update(with_x(false));
    assert_eq!(controller.digital(E_CONTROLLER_DIGITAL_X), Some(false));
    assert_eq!(controller.take_new_press(E_CONTROLLER_DIGITAL_X), Some(true));
    assert_eq!(controller.take_new_press(E_CONTROLLER_DIGITAL_X), Some(false));
    assert_eq!(controller.take_new_press(5), None);
    assert_eq!(controller.take_new_press(18), None);
}

#[test]
fn absent_controller_reads_as_zero() {
    let mut controllers = Controllers::new(None, None);
    assert_eq!(controllers.is_connected(E_CONTROLLER_MASTER), Ok(false));
    assert_eq!(controllers.get_analog(E_CONTROLLER_MASTER, E_CONTROLLER_ANALOG_LEFT_X), Ok(0));
    assert_eq!(controllers.get_analog(E_CONTROLLER_MASTER, 99), Ok(0));
    assert_eq!(controllers.get_digital(E_CONTROLLER_PARTNER, E_CONTROLLER_DIGITAL_A), Ok(false));
    assert_eq!(controllers.get_digital_new_press(E_CONTROLLER_PARTNER, 99), Ok(false));
}

#[test]
fn invalid_identifiers_give_einval() {
    let mut controllers = Controllers::new(Some(with_x(true)), None);
    assert_eq!(controllers.is_connected(0), Err(EINVAL));
    assert_eq!(controllers.is_connected(3), Err(EINVAL));
    assert_eq!(controllers.get_analog(0, E_CONTROLLER_ANALOG_LEFT_X), Err(EINVAL));
    assert_eq!(controllers.get_analog(E_CONTROLLER_MASTER, 4), Err(EINVAL));
    assert_eq!(controllers.get_digital(7, E_CONTROLLER_DIGITAL_X), Err(EINVAL));
    assert_eq!(controllers.get_digital(E_CONTROLLER_MASTER, 5), Err(EINVAL));
    assert_eq!(controllers.get_digital(E_CONTROLLER_MASTER, 18), Err(EINVAL));
    assert_eq!(controllers.get_digital_new_press(0, E_CONTROLLER_DIGITAL_X), Err(EINVAL));
    assert_eq!(controllers.get_digital_new_press(E_CONTROLLER_MASTER, 3), Err(EINVAL));
    assert_eq!(controllers.get_digital_new_press(E_CONTROLLER_MASTER, E_CONTROLLER_DIGITAL_X), Ok(true));
}

#[test]
fn analog_channels_and_buttons_are_read_by_identifier() {
    let state = ControllerState {
        digital: DigitalControllerState { l1: true, b: true, ..released() },
        analog: AnalogControllerState { left_x: -127, left_y: 5, right_x: 127, right_y: -1 },
    };
    let controllers = Controllers::new(Some(state), Some(with_x(false)));
    assert_eq!(controllers.is_connected(E_CONTROLLER_MASTER), Ok(true));
    assert_eq!(controllers.is_connected(E_CONTROLLER_PARTNER), Ok(true));
    assert_eq!(controllers.get_analog(E_CONTROLLER_MASTER, E_CONTROLLER_ANALOG_LEFT_X), Ok(-127));
    assert_eq!(controllers.get_analog(E_CONTROLLER_MASTER, E_CONTROLLER_ANALOG_LEFT_Y), Ok(5));
    assert_eq!(controllers.get_analog(E_CONTROLLER_MASTER, E_CONTROLLER_ANALOG_RIGHT_X), Ok(127));
    assert_eq!(controllers.get_analog(E_CONTROLLER_MASTER, E_CONTROLLER_ANALOG_RIGHT_Y), Ok(-1));
    assert_eq!(controllers.get_analog(E_CONTROLLER_PARTNER, E_CONTROLLER_ANALOG_RIGHT_X), Ok(0));
    assert_eq!(controllers.get_digital(E_CONTROLLER_MASTER, E_CONTROLLER_DIGITAL_L1), Ok(true));
    assert_eq!(controllers.get_digital(E_CONTROLLER_MASTER, E_CONTROLLER_DIGITAL_B), Ok(true));
    assert_eq!(controllers.get_digital(E_CONTROLLER_MASTER, E_CONTROLLER_DIGITAL_A), Ok(false));
}

#[test]
fn update_without_report_leaves_controller_alone() {
    let mut controllers = Controllers::new(Some(with_x(true)), None);
    controllers.update(None, Some(with_x(false)));
    assert_eq!(controllers.get_digital(E_CONTROLLER_MASTER, E_CONTROLLER_DIGITAL_X), Ok(true));
    assert_eq!(controllers.is_connected(E_CONTROLLER_PARTNER), Ok(true));
}

#[test]
fn controller_from_state() {
    let controller = Controller::from(with_x(true));
    assert_eq!(controller.digital(E_CONTROLLER_DIGITAL_X), Some(true));
    assert_eq!(controller.analog(E_CONTROLLER_ANALOG_LEFT_X), Some(0));
    assert_eq!(controller.analog(4), None);
}

#[test]
fn controller_host_calls_set_errno_code() {
    let mut host = host_on(vec![0; 16]);
    let state = ControllerState {
        digital: DigitalControllerState { y: true, ..released() },
        analog: AnalogControllerState { left_x: 1, left_y: 2, right_x: 3, right_y: -4 },
    };
    host.controllers.update(Some(state), None);
    assert_eq!(controller_get_analog(&host, E_CONTROLLER_MASTER, 3), Reply { value: -4, errno: None });
    assert_eq!(controller_get_analog(&host, E_CONTROLLER_MASTER, 9), Reply { value: 0, errno: Some(22) });
    assert_eq!(controller_get_analog(&host, 0, 0), Reply { value: 0, errno: Some(22) });
    assert_eq!(controller_get_digital(&host, E_CONTROLLER_MASTER, 16), Reply { value: 1, errno: None });
    assert_eq!(controller_get_digital(&host, E_CONTROLLER_MASTER, 17), Reply { value: 0, errno: None });
    assert_eq!(controller_get_digital(&host, E_CONTROLLER_MASTER, 0), Reply { value: 0, errno: Some(22) });
    assert_eq!(controller_get_digital(&host, E_CONTROLLER_PARTNER, 0), Reply { value: 0, errno: None });
    assert_eq!(controller_is_connected(&host, E_CONTROLLER_MASTER), Reply { value: 1, errno: None });
    assert_eq!(controller_is_connected(&host, E_CONTROLLER_PARTNER), Reply { value: 0, errno: None });
    assert_eq!(controller_is_connected(&host, 5), Reply { value: 0, errno: Some(22) });
    assert_eq!(
        controller_get_digital_new_press(&mut host, 9, 16),
        Reply { value: 0, errno: Some(22) }
    );
    assert_eq!(controller_get_battery_capacity(E_CONTROLLER_MASTER), 100);
    assert_eq!(controller_get_battery_level(E_CONTROLLER_PARTNER), 100);
}

#[test]
fn competition_status_bits() {
    let phase = |autonomous, enabled, is_competition| CompetitionPhase { autonomous, enabled, is_competition };
    assert_eq!(phase(false, true, false).as_bits(), 0);
    assert_eq!(phase(true, true, false).as_bits(), 1);
    assert_eq!(phase(false, false, false).as_bits(), 2);
    assert_eq!(phase(false, true, true).as_bits(), 4);
    assert_eq!(phase(true, false, true).as_bits(), 7);
    assert_eq!(CompetitionPhase::default().as_bits(), 2);
}

#[test]
fn competition_host_calls() {
    let mut host = host_on(vec![0; 16]);
    assert_eq!(competition_get_status(&host), 2);
    assert_eq!(competition_is_disabled(&host), 1);
    assert_eq!(competition_is_autonomous(&host), 0);
    assert_eq!(competition_is_connected(&host), 0);
    host.competition_phase = CompetitionPhase { autonomous: true, enabled: true, is_competition: true };
    assert_eq!(competition_get_status(&host), 5);
    assert_eq!(competition_is_disabled(&host), 0);
    assert_eq!(competition_is_autonomous(&host), 1);
    assert_eq!(competition_is_connected(&host), 1);
}
