//! The smart ports of the brain and the devices that are plugged into them.
use crate::interface::{
    EventView, MotorBrakeMode, MotorEncoderUnits, SimulatorEvent, SimulatorInterface, SmartDeviceSpec,
};
use crate::text::{concat, signed_decimal, signed_decimal_string};
use std::collections::HashMap;
use vstd::prelude::*;
use vstd::std_specs::iter::IteratorSpec;
use vstd::string::StringExecFns;

verus! {

broadcast use vstd::std_specs::hash::group_hash_axioms;

/// No device is plugged into the port.
#[derive(Debug, Clone, Copy, PartialEq, Eq, Structural)]
pub struct PortNotConfiguredError {
    pub port: u32,
}

/// The device in the port is of another kind than the caller needs.
#[derive(Debug, Clone, Copy, PartialEq, Eq, Structural)]
pub struct IncorrectDeviceTypeError {
    pub port: u32,
    pub expected: SmartDeviceSpec,
    pub actual: SmartDeviceSpec,
}

/// A number that stands for no setting of a motor.
#[derive(Debug, Clone, Copy, PartialEq, Eq, Structural)]
pub enum MotorError {
    /// Not the code of a unit of position.
    InvalidEncoderUnits(u32),
    /// Not the code of a brake mode.
    InvalidBrakeMode(u32),
}

/// The lowest output that a motor takes.
pub const MOTOR_VOLTS_MIN: i32 = -127;

/// The highest output that a motor takes.
pub const MOTOR_VOLTS_MAX: i32 = 127;

/// `volts` brought into the range that a motor takes.
pub open spec fn clamped_volts(volts: i32) -> i8 {
    if volts < MOTOR_VOLTS_MIN {
        -127i8
    } else if volts > MOTOR_VOLTS_MAX {
        127i8
    } else {
        volts as i8
    }
}

/// The text of the warning about an output that a motor does not take.
pub open spec fn volts_warning(volts: i32) -> Seq<char> {
    if volts < MOTOR_VOLTS_MIN {
        "Motor voltage out of range: "@ + signed_decimal(volts as int) + " < -127"@
    } else {
        "Motor voltage out of range: "@ + signed_decimal(volts as int) + " > 127"@
    }
}

/// A motor.
#[derive(Debug, Clone, Copy, PartialEq, Eq, Structural)]
pub struct Motor {
    port: u32,
    brake_mode: MotorBrakeMode,
    encoder_units: MotorEncoderUnits,
    output_volts: i8,
}

impl Motor {
    /// The port that the motor is plugged into.
    pub closed spec fn port(self) -> u32 {
        self.port
    }

    /// What the motor does when it is told to stop.
    pub closed spec fn brake_mode(self) -> MotorBrakeMode {
        self.brake_mode
    }

    /// The unit in which the motor reports its position.
    pub closed spec fn encoder_units(self) -> MotorEncoderUnits {
        self.encoder_units
    }

    /// The output of the motor, in `-127..=127`.
    pub closed spec fn output_volts(self) -> i8 {
        self.output_volts
    }

    /// What the motor reports of itself.
    pub open spec fn report(self) -> EventView {
        EventView::MotorUpdated {
            port: self.port(),
            volts: self.output_volts(),
            encoder_units: self.encoder_units(),
            brake_mode: self.brake_mode(),
        }
    }

    /// A motor in `port` that coasts, counts degrees and stands still.
    pub closed spec fn fresh(port: u32) -> Motor {
        Motor {
            port,
            brake_mode: MotorBrakeMode::Coast,
            encoder_units: MotorEncoderUnits::Degrees,
            output_volts: 0,
        }
    }

    /// What a fresh motor holds: it sits in its port, coasts, counts
    /// degrees and stands still.
    pub proof fn lemma_fresh(port: u32)
        ensures
            Self::fresh(port).port() == port,
            Self::fresh(port).brake_mode() == MotorBrakeMode::Coast,
            Self::fresh(port).encoder_units() == MotorEncoderUnits::Degrees,
            Self::fresh(port).output_volts() == 0,
    {
    }

    /// A motor in `port` that coasts, counts degrees and stands still.
    pub fn new(port: u32) -> (motor: Self)
        ensures
            motor == Self::fresh(port),
            motor.port() == port,
            motor.brake_mode() == MotorBrakeMode::Coast,
            motor.encoder_units() == MotorEncoderUnits::Degrees,
            motor.output_volts() == 0,
    {
        Motor {
            port,
            brake_mode: MotorBrakeMode::Coast,
            encoder_units: MotorEncoderUnits::Degrees,
            output_volts: 0,
        }
    }

    /// Reports the state of the motor.
    fn publish(&self, interface: &mut SimulatorInterface)
        ensures
            final(interface)@ == old(interface)@.push(self.report()),
    {
        interface.send(
            SimulatorEvent::MotorUpdated {
                port: self.port,
                brake_mode: self.brake_mode,
                encoder_units: self.encoder_units,
                volts: self.output_volts,
            },
        );
    }

    /// Sets the output to `volts`, brought into `-127..=127`, and reports
    /// the motor. An output outside that range is warned of first.
    pub fn set_output_volts(&mut self, interface: &mut SimulatorInterface, volts: i32)
        ensures
            final(self).output_volts() == clamped_volts(volts),
            final(self).port() == old(self).port(),
            final(self).brake_mode() == old(self).brake_mode(),
            final(self).encoder_units() == old(self).encoder_units(),
            final(interface)@ == if MOTOR_VOLTS_MIN <= volts <= MOTOR_VOLTS_MAX {
                old(interface)@.push(final(self).report())
            } else {
                old(interface)@.push(EventView::Warning(volts_warning(volts))).push(final(self).report())
            },
    {
        if volts < -127 {
            let mut text = concat("Motor voltage out of range: ", signed_decimal_string(volts).as_str());
            text.append(" < -127");
            assert(text@ =~= volts_warning(volts));
            interface.send(SimulatorEvent::Warning(text));
            self.output_volts = -127;
        } else if volts > 127 {
            let mut text = concat("Motor voltage out of range: ", signed_decimal_string(volts).as_str());
            text.append(" > 127");
            assert(text@ =~= volts_warning(volts));
            interface.send(SimulatorEvent::Warning(text));
            self.output_volts = 127;
        } else {
            self.output_volts = volts as i8;
        }
        self.publish(interface);
    }

    /// Sets the unit of position to the one that `units` stands for and
    /// reports the motor. An error, and nothing happens, where `units`
    /// stands for none.
    pub fn set_encoder_units(&mut self, interface: &mut SimulatorInterface, units: u32) -> (done: Result<
        (),
        MotorError,
    >)
        ensures
            done == if units <= 2 {
                Ok::<(), MotorError>(())
            } else {
                Err::<(), MotorError>(MotorError::InvalidEncoderUnits(units))
            },
            done is Ok ==> final(self).encoder_units().spec_code() == units,
            done is Ok ==> final(interface)@ == old(interface)@.push(final(self).report()),
            final(self).port() == old(self).port(),
            final(self).brake_mode() == old(self).brake_mode(),
            final(self).output_volts() == old(self).output_volts(),
            done is Err ==> *final(self) == *old(self) && *final(interface) == *old(interface),
    {
        match MotorEncoderUnits::from_code(units) {
            Some(units) => {
                self.encoder_units = units;
                self.publish(interface);
                Ok(())
            },
            None => Err(MotorError::InvalidEncoderUnits(units)),
        }
    }

    /// Sets the brake mode to the one that `mode` stands for and reports
    /// the motor. An error, and nothing happens, where `mode` stands for
    /// none.
    pub fn set_brake_mode(&mut self, interface: &mut SimulatorInterface, mode: u32) -> (done: Result<
        (),
        MotorError,
    >)
        ensures
            done == if mode <= 2 {
                Ok::<(), MotorError>(())
            } else {
                Err::<(), MotorError>(MotorError::InvalidBrakeMode(mode))
            },
            done is Ok ==> final(self).brake_mode().spec_code() == mode,
            done is Ok ==> final(interface)@ == old(interface)@.push(final(self).report()),
            final(self).port() == old(self).port(),
            final(self).encoder_units() == old(self).encoder_units(),
            final(self).output_volts() == old(self).output_volts(),
            done is Err ==> *final(self) == *old(self) && *final(interface) == *old(interface),
    {
        match MotorBrakeMode::from_code(mode) {
            Some(mode) => {
                self.brake_mode = mode;
                self.publish(interface);
                Ok(())
            },
            None => Err(MotorError::InvalidBrakeMode(mode)),
        }
    }
}

/// A device in a smart port.
#[derive(Debug, Clone, Copy, PartialEq, Eq, Structural)]
pub enum SmartDevice {
    Motor(Motor),
}

impl SmartDevice {
    /// The kind of the device.
    pub open spec fn spec(self) -> SmartDeviceSpec {
        match self {
            SmartDevice::Motor(_) => SmartDeviceSpec::Motor,
        }
    }

    /// The port that the device is plugged into.
    pub open spec fn port(self) -> u32 {
        match self {
            SmartDevice::Motor(m) => m.port(),
        }
    }

    /// A device of the kind `spec` in `port`, in the state in which it is
    /// plugged in.
    pub open spec fn fresh(spec: SmartDeviceSpec, port: u32) -> SmartDevice {
        match spec {
            SmartDeviceSpec::Motor => SmartDevice::Motor(Motor::fresh(port)),
        }
    }

    /// A device of the kind `spec` in `port`, in the state in which it is
    /// plugged in.
    pub fn new(spec: SmartDeviceSpec, port: u32) -> (device: Self)
        ensures
            device == Self::fresh(spec, port),
            device.spec() == spec,
            device.port() == port,
    {
        match spec {
            SmartDeviceSpec::Motor => SmartDevice::Motor(Motor::new(port)),
        }
    }

    /// The kind of the device.
    pub fn kind(&self) -> (spec: SmartDeviceSpec)
        ensures
            spec == self.spec(),
    {
        match self {
            SmartDevice::Motor(_) => SmartDeviceSpec::Motor,
        }
    }

    /// The device as a motor.
    pub fn as_motor(&self) -> (motor: Result<&Motor, IncorrectDeviceTypeError>)
        ensures
            motor matches Ok(m) && *self == SmartDevice::Motor(*m),
    {
        match self {
            SmartDevice::Motor(m) => Ok(m),
        }
    }

    /// The device as a motor, for changing it.
    pub fn as_motor_mut(&mut self) -> (motor: Result<&mut Motor, IncorrectDeviceTypeError>)
        ensures
            motor matches Ok(m) && *old(self) == SmartDevice::Motor(*m) && *final(self)
                == SmartDevice::Motor(*final(m)),
    {
        match self {
            SmartDevice::Motor(m) => Ok(m),
        }
    }
}

impl From<&SmartDevice> for SmartDeviceSpec {
    fn from(value: &SmartDevice) -> (spec: Self) {
        value.kind()
    }
}

impl vstd::std_specs::convert::FromSpecImpl<&SmartDevice> for SmartDeviceSpec {
    open spec fn obeys_from_spec() -> bool {
        true
    }

    open spec fn from_spec(value: &SmartDevice) -> Self {
        value.spec()
    }
}

/// The devices after the ports have been configured as `specs` says: a port
/// that `specs` names holds a device of the kind named, a fresh one unless
/// the device that was there is of that kind; every other port is as it
/// was.
pub open spec fn respecified(devices: Map<u32, SmartDevice>, specs: Map<u32, SmartDeviceSpec>) -> Map<
    u32,
    SmartDevice,
> {
    Map::new(
        |port: u32| devices.contains_key(port) || specs.contains_key(port),
        |port: u32|
            if specs.contains_key(port) && !(devices.contains_key(port) && devices[port].spec()
                == specs[port]) {
                SmartDevice::fresh(specs[port], port)
            } else {
                devices[port]
            },
    )
}

/// Whether one of the first `n` entries of `entries` names `port`.
spec fn configured(entries: Seq<(&u32, &SmartDeviceSpec)>, n: int, port: u32) -> bool {
    exists|j: int| 0 <= j < n && *(#[trigger] entries[j]).0 == port
}

/// `HashMap::get_mut`: the device under `port`, if there is one, for
/// changing it. What it is changed to becomes the device under `port`;
/// every other entry stays.
#[verifier::external_body]
fn devices_get_mut(devices: &mut HashMap<u32, SmartDevice>, port: u32) -> (found: Option<&mut SmartDevice>)
    ensures
        match found {
            Some(device) => old(devices)@.contains_key(port) && *device == old(devices)@[port]
                && final(devices)@ == old(devices)@.insert(port, *final(device)),
            None => !old(devices)@.contains_key(port) && final(devices)@ == old(devices)@,
        },
{
    devices.get_mut(&port)
}

/// The smart ports of the brain.
#[derive(Debug)]
pub struct SmartPorts {
    devices: HashMap<u32, SmartDevice>,
}

impl View for SmartPorts {
    type V = Map<u32, SmartDevice>;

    closed spec fn view(&self) -> Map<u32, SmartDevice> {
        self.devices@
    }
}

impl SmartPorts {
    /// Ports without devices.
    pub fn new() -> (ports: Self)
        ensures
            ports@ == Map::<u32, SmartDevice>::empty(),
    {
        SmartPorts { devices: HashMap::new() }
    }

    /// Configures the ports as `specs` says. A port whose device is of the
    /// kind named keeps its device; a port that is empty or holds another
    /// kind of device gets a fresh device; a port that `specs` does not
    /// name stays as it is.
    pub fn update_specs(&mut self, specs: &HashMap<u32, SmartDeviceSpec>)
        ensures
            final(self)@ == respecified(old(self)@, specs@),
    {
        let ghost before = self.devices@;
        for entry in it: specs.iter()
            invariant
                it.seq() == vstd::std_specs::hash::spec_hash_map_iter(specs).remaining(),
                forall|port: u32|
                    #![trigger configured(it.seq(), it.index(), port)]
                    #![trigger self.devices@.contains_key(port)]
                    configured(it.seq(), it.index(), port) ==> self.devices@.contains_key(port)
                        && self.devices@[port] == respecified(before, specs@)[port],
                forall|port: u32|
                    #![trigger self.devices@.contains_key(port)]
                    !configured(it.seq(), it.index(), port) ==> (self.devices@.contains_key(port)
                        <==> before.contains_key(port)) && (before.contains_key(port)
                        ==> self.devices@[port] == before[port]),
        {
            let ghost done = it.index();
            let ghost earlier = self.devices@;
            let (port, spec) = entry;
            assert(specs@.contains_key(*port) && specs@[*port] == *spec) by {
                assert(*it.seq()[done].0 == *port);
            }
            let replace = match self.devices.get(port) {
                Some(device) => device.kind() != *spec,
                None => true,
            };
            if replace {
                self.devices.insert(*port, SmartDevice::new(*spec, *port));
            }
            proof {
                assert forall|p: u32| configured(it.seq(), done + 1, p) implies (configured(
                    it.seq(),
                    done,
                    p,
                ) || p == *port) by {
                    let j = choose|j: int| 0 <= j < done + 1 && *(#[trigger] it.seq()[j]).0 == p;
                    if j < done {
                        assert(configured(it.seq(), done, p));
                    }
                }
                assert forall|p: u32| configured(it.seq(), done, p) implies configured(
                    it.seq(),
                    done + 1,
                    p,
                ) by {
                    let j = choose|j: int| 0 <= j < done && *(#[trigger] it.seq()[j]).0 == p;
                    assert(0 <= j < done + 1 && *it.seq()[j].0 == p);
                }
                assert(configured(it.seq(), done + 1, *port)) by {
                    assert(0 <= done < done + 1 && *it.seq()[done].0 == *port);
                }
                let target = respecified(before, specs@);
                assert(self.devices@.contains_key(*port) && self.devices@[*port] == target[*port]) by {
                    if configured(it.seq(), done, *port) {
                        assert(earlier[*port] == target[*port]);
                    } else {
                        assert(earlier.contains_key(*port) <==> before.contains_key(*port));
                    }
                }
                assert forall|p: u32|
                    #![trigger configured(it.seq(), done + 1, p)]
                    #![trigger self.devices@.contains_key(p)]
                    configured(it.seq(), done + 1, p) implies self.devices@.contains_key(p)
                    && self.devices@[p] == target[p] by {
                    if p != *port {
                        assert(configured(it.seq(), done, p));
                        assert(earlier.contains_key(p) && earlier[p] == target[p]);
                    }
                }
                assert forall|p: u32| !configured(it.seq(), done + 1, p) implies (
                self.devices@.contains_key(p) <==> before.contains_key(p)) && (before.contains_key(p)
                    ==> self.devices@[p] == before[p]) by {
                    assert(p != *port);
                    assert(!configured(it.seq(), done, p));
                }
            }
        }
        proof {
            let all = vstd::std_specs::hash::spec_hash_map_iter(specs).remaining();
            assert forall|p: u32| specs@.contains_key(p) implies configured(all, all.len() as int, p) by {
                assert(all.contains((&p, &specs@[p])));
                let j = choose|j: int| 0 <= j < all.len() && all[j] == (&p, &specs@[p]);
                assert(*all[j].0 == p);
            }
            assert forall|p: u32| configured(all, all.len() as int, p) implies specs@.contains_key(p) by {
                let j = choose|j: int| 0 <= j < all.len() && *(#[trigger] all[j]).0 == p;
                assert(specs@.contains_key(*all[j].0));
            }
        }
        assert(self.devices@ =~= respecified(before, specs@));
    }

    /// The device in `port`.
    pub fn get(&self, port: u32) -> (device: Result<&SmartDevice, PortNotConfiguredError>)
        ensures
            match device {
                Ok(d) => self@.contains_key(port) && *d == self@[port],
                Err(e) => !self@.contains_key(port) && e.port == port,
            },
    {
        match self.devices.get(&port) {
            Some(device) => Ok(device),
            None => Err(PortNotConfiguredError { port }),
        }
    }

    /// The device in `port`, for changing it. What it is changed to is
    /// from then on the device in `port`; every other port stays as it is.
    pub fn get_mut(&mut self, port: u32) -> (device: Result<&mut SmartDevice, PortNotConfiguredError>)
        ensures
            match device {
                Ok(d) => {
                    &&& old(self)@.contains_key(port)
                    &&& *d == old(self)@[port]
                    &&& final(self)@ == old(self)@.insert(port, *final(d))
                },
                Err(e) => !old(self)@.contains_key(port) && e.port == port && final(self)@ == old(self)@,
            },
    {
        match devices_get_mut(&mut self.devices, port) {
            Some(device) => Ok(device),
            None => Err(PortNotConfiguredError { port }),
        }
    }
}

} // verus!
