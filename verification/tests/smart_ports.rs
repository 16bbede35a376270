use pros_simulator::abi::{ENODEV, PROS_ERR};
use pros_simulator::api::motors::{motor_move, motor_set_brake_mode, motor_set_encoder_units};
use pros_simulator::host::memory::{GuestMemory, SharedMemoryExt};
use pros_simulator::host::smart_device::{
    Motor, MotorError, PortNotConfiguredError, SmartDevice, SmartPorts,
};
use pros_simulator::host::task::{Errno, TaskOptions};
use pros_simulator::host::{Host, Reply};
use pros_simulator::interface::{
    MotorBrakeMode, MotorEncoderUnits, SimulatorEvent, SimulatorInterface, SmartDeviceSpec,
};
use std::collections::HashMap;

fn host_on(memory: Vec<u8>) -> Host {
    let mut linker = pros_simulator::api::Linker::new();
    pros_simulator::api::configure_api(&mut linker).unwrap();
    let module = pros_simulator::api::Module { imports: Vec::new() };
    Host::new(GuestMemory::new(memory), linker, module)
}

fn updated(port: u32, volts: i8) -> SimulatorEvent {
    SimulatorEvent::MotorUpdated {
        port,
        volts,
        encoder_units: MotorEncoderUnits::Degrees,
        brake_mode: MotorBrakeMode::Coast,
    }
}

fn host_with_motor(port: u32) -> Host {
    let mut host = host_on(vec![0; 8]);
    host.smart_ports.update_specs(&HashMap::from([(port, SmartDeviceSpec::Motor)]));
    host
}

#[test]
fn motor_codes() {
    assert_eq!(MotorEncoderUnits::Degrees.code(), 0);
    assert_eq!(MotorEncoderUnits::Rotations.code(), 1);
    assert_eq!(MotorEncoderUnits::Counts.code(), 2);
    assert_eq!(MotorBrakeMode::Coast.code(), 0);
    assert_eq!(MotorBrakeMode::Brake.code(), 1);
    assert_eq!(MotorBrakeMode::Hold.code(), 2);
    assert_eq!(MotorEncoderUnits::from_code(2), Some(MotorEncoderUnits::Counts));
    assert_eq!(MotorEncoderUnits::from_code(3), None);
    assert_eq!(MotorBrakeMode::from_code(1), Some(MotorBrakeMode::Brake));
    assert_eq!(MotorBrakeMode::from_code(u32::MAX), None);
    assert_eq!(MotorEncoderUnits::default(), MotorEncoderUnits::Degrees);
    assert_eq!(MotorBrakeMode::default(), MotorBrakeMode::Coast);
}

#[test]
fn motor_clamp() {
    let mut host = host_with_motor(0);
    assert_eq!(motor_move(&mut host, 0, 200), Reply { value: 1, errno: None });
    assert_eq!(
        host.interface.take(),
        vec![
            SimulatorEvent::Warning("Motor voltage out of range: 200 > 127".to_string()),
            updated(0, 127),
        ]
    );
}

#[test]
fn motor_voltage_is_clamped_on_both_sides() {
    let mut motor = Motor::new(4);
    let mut interface = SimulatorInterface::new();
    motor.set_output_volts(&mut interface, -128);
    motor.set_output_volts(&mut interface, -127);
    motor.set_output_volts(&mut interface, 127);
    motor.set_output_volts(&mut interface, 128);
    motor.set_output_volts(&mut interface, i32::MIN);
    motor.set_output_volts(&mut interface, 0);
    assert_eq!(
        interface.take(),
        vec![
            SimulatorEvent::Warning("Motor voltage out of range: -128 < -127".to_string()),
            updated(4, -127),
            updated(4, -127),
            updated(4, 127),
            SimulatorEvent::Warning("Motor voltage out of range: 128 > 127".to_string()),
            updated(4, 127),
            SimulatorEvent::Warning("Motor voltage out of range: -2147483648 < -127".to_string()),
            updated(4, -127),
            updated(4, 0),
        ]
    );
}

#[test]
fn motor_settings_by_code() {
    let mut host = host_with_motor(3);
    let done = Reply { value: 1, errno: None };
    assert_eq!(motor_set_brake_mode(&mut host, 3, 2), done);
    assert_eq!(motor_set_encoder_units(&mut host, 3, 1), done);
    assert_eq!(motor_move(&mut host, 3, -5), done);
    let hold_rotations = |volts| SimulatorEvent::MotorUpdated {
        port: 3,
        volts,
        encoder_units: MotorEncoderUnits::Rotations,
        brake_mode: MotorBrakeMode::Hold,
    };
    assert_eq!(
        host.interface.take(),
        vec![
            SimulatorEvent::MotorUpdated {
                port: 3,
                volts: 0,
                encoder_units: MotorEncoderUnits::Degrees,
                brake_mode: MotorBrakeMode::Hold,
            },
            hold_rotations(0),
            hold_rotations(-5),
        ]
    );
    assert_eq!(motor_move(&mut host, 3, 1), done);
    assert_eq!(host.interface.take(), vec![hold_rotations(1)]);
}

#[test]
fn invalid_motor_setting_gives_einval() {
    let mut host = host_with_motor(3);
    motor_set_brake_mode(&mut host, 3, 1);
    host.interface.take();
    let before = *host.smart_ports.get(3).unwrap();
    let refused = Reply { value: i32::MAX, errno: Some(22) };
    assert_eq!(motor_set_brake_mode(&mut host, 3, 3), refused);
    assert_eq!(motor_set_encoder_units(&mut host, 3, 9), refused);
    assert_eq!(motor_set_encoder_units(&mut host, 3, u32::MAX), refused);
    assert_eq!(host.interface.len(), 0);
    assert_eq!(host.smart_ports.get(3), Ok(&before));
}

#[test]
fn unconfigured_port_gives_enodev() {
    let mut host = host_with_motor(3);
    let missing = Reply { value: PROS_ERR, errno: Some(ENODEV) };
    assert_eq!((PROS_ERR, ENODEV), (i32::MAX, 19));
    assert_eq!(motor_move(&mut host, 4, 1), missing);
    assert_eq!(motor_set_brake_mode(&mut host, 4, 1), missing);
    assert_eq!(motor_set_encoder_units(&mut host, 4, 1), missing);
    assert_eq!(motor_set_brake_mode(&mut host, 4, 7), missing);
    assert_eq!(host.interface.len(), 0);
    assert!(host.smart_ports.get(4).is_err());
    assert_eq!(host.smart_ports.get(3), Ok(&SmartDevice::Motor(Motor::new(3))));
}

#[test]
fn motor_error_reaches_errno_and_the_task_goes_on() {
    let mut host = host_with_motor(3);
    host.memory = GuestMemory::new(vec![0; 16]);
    let linker = pros_simulator::api::Linker::new();
    let module = pros_simulator::api::Module { imports: Vec::new() };
    host.tasks.spawn(TaskOptions::new_extern(0, 0), &linker, &module, &mut host.interface).unwrap();
    assert!(host.tasks.cycle_tasks());
    let reply = motor_move(&mut host, 9, 50);
    assert_eq!(host.deliver(reply, Errno::new(8)), Ok(PROS_ERR));
    assert_eq!(host.memory.read_relaxed(8, 4), Ok(vec![19, 0, 0, 0]));
    let reply = motor_set_brake_mode(&mut host, 3, 5);
    assert_eq!(host.deliver(reply, Errno::new(12)), Ok(PROS_ERR));
    assert_eq!(host.memory.read_relaxed(8, 4), Ok(vec![22, 0, 0, 0]));
    assert!(host.tasks.is_running_task());
    let reply = motor_move(&mut host, 3, 50);
    assert_eq!(host.deliver(reply, Errno::new(12)), Ok(1));
    assert_eq!(host.memory.read_relaxed(8, 4), Ok(vec![22, 0, 0, 0]));
    assert_eq!(host.interface.take(), vec![updated(3, 50)]);
}

#[test]
fn motor_rejects_codes_that_stand_for_nothing() {
    let mut motor = Motor::new(2);
    let mut interface = SimulatorInterface::new();
    assert_eq!(motor.set_brake_mode(&mut interface, 3), Err(MotorError::InvalidBrakeMode(3)));
    assert_eq!(motor.set_encoder_units(&mut interface, 4), Err(MotorError::InvalidEncoderUnits(4)));
    assert_eq!(motor, Motor::new(2));
    assert_eq!(interface.len(), 0);
    assert_eq!(motor.set_brake_mode(&mut interface, 1), Ok(()));
    assert_eq!(interface.len(), 1);
}

#[test]
fn update_specs_keeps_devices_of_the_same_kind() {
    let mut ports = SmartPorts::new();
    let mut interface = SimulatorInterface::new();
    assert_eq!(ports.get(1).err(), Some(PortNotConfiguredError { port: 1 }));
    ports.update_specs(&HashMap::from([(1, SmartDeviceSpec::Motor), (21, SmartDeviceSpec::Motor)]));
    assert_eq!(ports.get(1), Ok(&SmartDevice::new(SmartDeviceSpec::Motor, 1)));
    assert_eq!(ports.get(21), Ok(&SmartDevice::Motor(Motor::new(21))));
    ports.get_mut(1).unwrap().as_motor_mut().unwrap().set_output_volts(&mut interface, 50);
    let moved = *ports.get(1).unwrap();
    assert!(moved != SmartDevice::new(SmartDeviceSpec::Motor, 1));
    ports.update_specs(&HashMap::from([(1, SmartDeviceSpec::Motor), (2, SmartDeviceSpec::Motor)]));
    assert_eq!(ports.get(1), Ok(&moved));
    assert_eq!(ports.get(2), Ok(&SmartDevice::new(SmartDeviceSpec::Motor, 2)));
    assert_eq!(ports.get(21), Ok(&SmartDevice::Motor(Motor::new(21))));
    ports.update_specs(&HashMap::new());
    assert_eq!(ports.get(1), Ok(&moved));
    assert_eq!(ports.get_mut(9).err(), Some(PortNotConfiguredError { port: 9 }));
    assert_eq!(interface.take(), vec![updated(1, 50)]);
}

#[test]
fn device_kind() {
    let device = SmartDevice::new(SmartDeviceSpec::Motor, 7);
    assert_eq!(device.kind(), SmartDeviceSpec::Motor);
    assert_eq!(SmartDeviceSpec::from(&device), SmartDeviceSpec::Motor);
    assert_eq!(device.as_motor(), Ok(&Motor::new(7)));
}
