//! Motors, as robot code calls them.
use crate::abi::{EINVAL, ENODEV, PROS_ERR};
use crate::api::{
    api_items, distinct_from, env_items, lemma_group_names_are_distinct, AlreadyDefinedError,
    Definition, HostFunction, HostItem, Linker,
};
use crate::host::smart_device::{
    clamped_volts, volts_warning, Motor, SmartDevice, MOTOR_VOLTS_MAX, MOTOR_VOLTS_MIN,
};
use crate::host::{Host, Reply};
use crate::interface::EventView;
use vstd::prelude::*;

verus! {

/// The functions of this group, each under the name that robot code
/// imports it by.
pub open spec fn motors_items() -> Seq<(&'static str, HostItem)> {
    seq![
        ("motor_move", HostItem::Function(HostFunction::MotorMove)),
        ("motor_set_brake_mode", HostItem::Function(HostFunction::MotorSetBrakeMode)),
        ("motor_set_encoder_units", HostItem::Function(HostFunction::MotorSetEncoderUnits)),
    ]
}

/// The functions of this group, each under the name that robot code
/// imports it by.
pub fn motors_api() -> (items: Vec<(&'static str, HostItem)>)
    ensures
        items@ == motors_items(),
{
    let mut items: Vec<(&'static str, HostItem)> = Vec::new();
    items.push(("motor_move", HostItem::Function(HostFunction::MotorMove)));
    items.push(("motor_set_brake_mode", HostItem::Function(HostFunction::MotorSetBrakeMode)));
    items.push(("motor_set_encoder_units", HostItem::Function(HostFunction::MotorSetEncoderUnits)));
    assert(items@ =~= motors_items());
    items
}

/// Offers the functions of the motors to robot code. An error where one of
/// the names is defined already: the functions before that one have been
/// defined. A linker that offers nothing yet takes them all.
pub fn configure_motors_api(linker: &mut Linker) -> (done: Result<(), AlreadyDefinedError>)
    ensures
        old(linker)@.len() == 0 ==> done is Ok,
        done is Ok <==> distinct_from(old(linker)@, env_items(motors_items())),
        done is Ok ==> final(linker)@ == old(linker)@ + env_items(motors_items()),
        done is Err ==> exists|k: int|
            0 <= k < motors_items().len() && final(linker)@ == old(linker)@ + env_items(
                motors_items().subrange(0, k),
            ),
{
    proof {
        let group = motors_items();
        assert(group =~= api_items().subrange(18, 18 + group.len() as int));
        lemma_group_names_are_distinct(group, 18);
        if linker@.len() == 0 {
            assert(linker@ =~= Seq::<Definition>::empty());
        }
    }
    linker.define_all(&motors_api())
}

/// The motor in `port`, where a motor is plugged in there.
pub open spec fn motor_in(host: &Host, port: u32) -> Motor {
    match host.smart_ports@[port] {
        SmartDevice::Motor(m) => m,
    }
}

/// What stays as it is when a host call changes a motor.
pub open spec fn same_but_ports(before: &Host, after: &Host) -> bool {
    &&& after.memory == before.memory
    &&& after.module == before.module
    &&& after.linker == before.linker
    &&& after.lcd == before.lcd
    &&& after.mutexes == before.mutexes
    &&& after.tasks == before.tasks
    &&& after.controllers == before.controllers
    &&& after.competition_phase == before.competition_phase
}

/// What a motor host call hands back where it cannot be carried out:
/// [`PROS_ERR`], and the error code for `errno`.
pub open spec fn failed(code: i32) -> Reply<i32> {
    Reply { value: PROS_ERR, errno: Some(code) }
}

/// What a motor host call hands back where it was carried out: 1.
pub open spec fn succeeded() -> Reply<i32> {
    Reply { value: 1, errno: None }
}

/// What stays as it is in the ports when a host call changes the motor in
/// `port`: the ports that hold a device, every other device, and the port
/// that the motor sits in.
pub open spec fn same_but_motor(before: &Host, after: &Host, port: u32) -> bool {
    &&& after.smart_ports@.dom() == before.smart_ports@.dom()
    &&& forall|other: u32|
        other != port && before.smart_ports@.contains_key(other) ==> after.smart_ports@[other]
            == before.smart_ports@[other]
    &&& motor_in(after, port).port() == motor_in(before, port).port()
}

/// `motor_move`: sets the output of the motor in `port` to `voltage`,
/// brought into `-127..=127`. Returns 1.
///
/// The motor is reported with its new output. Where `voltage` lies outside
/// `-127..=127`, a warning is reported before that. Returns [`PROS_ERR`],
/// with `ENODEV` for `errno`, where no motor is plugged into `port`: then
/// nothing changes and nothing is reported.
pub fn motor_move(host: &mut Host, port: u32, voltage: i32) -> (reply: Reply<i32>)
    ensures
        same_but_ports(old(host), final(host)),
        reply == if old(host).smart_ports@.contains_key(port) {
            succeeded()
        } else {
            failed(ENODEV)
        },
        reply.errno is Some ==> final(host).smart_ports@ == old(host).smart_ports@ && final(host).interface == old(host).interface,
        reply.errno is None ==> {
            &&& same_but_motor(old(host), final(host), port)
            &&& motor_in(final(host), port).output_volts() == clamped_volts(voltage)
            &&& motor_in(final(host), port).brake_mode() == motor_in(old(host), port).brake_mode()
            &&& motor_in(final(host), port).encoder_units() == motor_in(old(host), port).encoder_units()
            &&& final(host).interface@ == if MOTOR_VOLTS_MIN <= voltage <= MOTOR_VOLTS_MAX {
                old(host).interface@.push(motor_in(final(host), port).report())
            } else {
                old(host).interface@.push(EventView::Warning(volts_warning(voltage))).push(
                    motor_in(final(host), port).report(),
                )
            }
        },
{
    let device = match host.smart_ports.get_mut(port) {
        Ok(device) => device,
        Err(_) => {
            return Reply { value: PROS_ERR, errno: Some(ENODEV) };
        },
    };
    let motor = match device.as_motor_mut() {
        Ok(motor) => motor,
        Err(_) => {
            return Reply { value: PROS_ERR, errno: Some(ENODEV) };
        },
    };
    motor.set_output_volts(&mut host.interface, voltage);
    proof {
        assert(final(host).smart_ports@.dom() =~= old(host).smart_ports@.dom());
    }
    Reply { value: 1, errno: None }
}

/// `motor_set_brake_mode`: sets the brake mode of the motor in `port` to
/// the one that `mode` stands for (0 coast, 1 brake, 2 hold), and reports
/// the motor. Returns 1.
///
/// Returns [`PROS_ERR`], with `ENODEV` for `errno`, where no motor is
/// plugged into `port`; otherwise [`PROS_ERR`], with `EINVAL`, where `mode`
/// stands for no brake mode. Either way nothing changes and nothing is
/// reported.
pub fn motor_set_brake_mode(host: &mut Host, port: u32, mode: u32) -> (reply: Reply<i32>)
    ensures
        same_but_ports(old(host), final(host)),
        reply == if !old(host).smart_ports@.contains_key(port) {
            failed(ENODEV)
        } else if mode > 2 {
            failed(EINVAL)
        } else {
            succeeded()
        },
        reply.errno is Some ==> final(host).smart_ports@ == old(host).smart_ports@ && final(host).interface == old(host).interface,
        reply.errno is None ==> {
            &&& same_but_motor(old(host), final(host), port)
            &&& motor_in(final(host), port).brake_mode().spec_code() == mode
            &&& motor_in(final(host), port).output_volts() == motor_in(old(host), port).output_volts()
            &&& motor_in(final(host), port).encoder_units() == motor_in(old(host), port).encoder_units()
            &&& final(host).interface@ == old(host).interface@.push(motor_in(final(host), port).report())
        },
{
    let device = match host.smart_ports.get_mut(port) {
        Ok(device) => device,
        Err(_) => {
            return Reply { value: PROS_ERR, errno: Some(ENODEV) };
        },
    };
    let motor = match device.as_motor_mut() {
        Ok(motor) => motor,
        Err(_) => {
            return Reply { value: PROS_ERR, errno: Some(ENODEV) };
        },
    };
    let set = motor.set_brake_mode(&mut host.interface, mode);
    proof {
        assert(final(host).smart_ports@.dom() =~= old(host).smart_ports@.dom());
        if set is Err {
            assert(final(host).smart_ports@ =~= old(host).smart_ports@);
        }
    }
    match set {
        Ok(()) => Reply { value: 1, errno: None },
        Err(_) => Reply { value: PROS_ERR, errno: Some(EINVAL) },
    }
}

/// `motor_set_encoder_units`: sets the unit of position of the motor in
/// `port` to the one that `units` stands for (0 degrees, 1 rotations, 2
/// counts), and reports the motor. Returns 1.
///
/// Returns [`PROS_ERR`], with `ENODEV` for `errno`, where no motor is
/// plugged into `port`; otherwise [`PROS_ERR`], with `EINVAL`, where
/// `units` stands for no unit. Either way nothing changes and nothing is
/// reported.
pub fn motor_set_encoder_units(host: &mut Host, port: u32, units: u32) -> (reply: Reply<i32>)
    ensures
        same_but_ports(old(host), final(host)),
        reply == if !old(host).smart_ports@.contains_key(port) {
            failed(ENODEV)
        } else if units > 2 {
            failed(EINVAL)
        } else {
            succeeded()
        },
        reply.errno is Some ==> final(host).smart_ports@ == old(host).smart_ports@ && final(host).interface == old(host).interface,
        reply.errno is None ==> {
            &&& same_but_motor(old(host), final(host), port)
            &&& motor_in(final(host), port).encoder_units().spec_code() == units
            &&& motor_in(final(host), port).output_volts() == motor_in(old(host), port).output_volts()
            &&& motor_in(final(host), port).brake_mode() == motor_in(old(host), port).brake_mode()
            &&& final(host).interface@ == old(host).interface@.push(motor_in(final(host), port).report())
        },
{
    let device = match host.smart_ports.get_mut(port) {
        Ok(device) => device,
        Err(_) => {
            return Reply { value: PROS_ERR, errno: Some(ENODEV) };
        },
    };
    let motor = match device.as_motor_mut() {
        Ok(motor) => motor,
        Err(_) => {
            return Reply { value: PROS_ERR, errno: Some(ENODEV) };
        },
    };
    let set = motor.set_encoder_units(&mut host.interface, units);
    proof {
        assert(final(host).smart_ports@.dom() =~= old(host).smart_ports@.dom());
        if set is Err {
            assert(final(host).smart_ports@ =~= old(host).smart_ports@);
        }
    }
    match set {
        Ok(()) => Reply { value: 1, errno: None },
        Err(_) => Reply { value: PROS_ERR, errno: Some(EINVAL) },
    }
}

} // verus!
