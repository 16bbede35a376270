//! Controllers and competition status, as robot code calls them.
use crate::abi::EINVAL;
use crate::api::{
    api_items, distinct_from, env_items, lemma_group_names_are_distinct, AlreadyDefinedError,
    Definition, HostFunction, HostItem, Linker,
};
use crate::host::controllers::{
    button_cleared, button_of, channel_of, is_button, is_channel, is_controller, slot_view,
};
use crate::host::{Host, Reply, ResultExt};
use crate::system::system_daemon::{phase_bits, CompetitionPhaseExt};
use vstd::prelude::*;

verus! {

/// The functions of this group, each under the name that robot code
/// imports it by.
pub open spec fn misc_items() -> Seq<(&'static str, HostItem)> {
    seq![
        ("controller_get_analog", HostItem::Function(HostFunction::ControllerGetAnalog)),
        ("controller_get_digital", HostItem::Function(HostFunction::ControllerGetDigital)),
        (
            "controller_get_digital_new_press",
            HostItem::Function(HostFunction::ControllerGetDigitalNewPress),
        ),
        ("controller_is_connected", HostItem::Function(HostFunction::ControllerIsConnected)),
        (
            "controller_get_battery_capacity",
            HostItem::Function(HostFunction::ControllerGetBatteryCapacity),
        ),
        ("controller_get_battery_level", HostItem::Function(HostFunction::ControllerGetBatteryLevel)),
        ("competition_get_status", HostItem::Function(HostFunction::CompetitionGetStatus)),
        ("competition_is_autonomous", HostItem::Function(HostFunction::CompetitionIsAutonomous)),
        ("competition_is_connected", HostItem::Function(HostFunction::CompetitionIsConnected)),
        ("competition_is_disabled", HostItem::Function(HostFunction::CompetitionIsDisabled)),
    ]
}

/// The functions of this group, each under the name that robot code
/// imports it by.
pub fn misc_api() -> (items: Vec<(&'static str, HostItem)>)
    ensures
        items@ == misc_items(),
{
    let mut items: Vec<(&'static str, HostItem)> = Vec::new();
    items.push(("controller_get_analog", HostItem::Function(HostFunction::ControllerGetAnalog)));
    items.push(("controller_get_digital", HostItem::Function(HostFunction::ControllerGetDigital)));
    items.push(
        (
            "controller_get_digital_new_press",
            HostItem::Function(HostFunction::ControllerGetDigitalNewPress),
        ),
    );
    items.push(("controller_is_connected", HostItem::Function(HostFunction::ControllerIsConnected)));
    items.push(
        (
            "controller_get_battery_capacity",
            HostItem::Function(HostFunction::ControllerGetBatteryCapacity),
        ),
    );
    items.push(
        ("controller_get_battery_level", HostItem::Function(HostFunction::ControllerGetBatteryLevel)),
    );
    items.push(("competition_get_status", HostItem::Function(HostFunction::CompetitionGetStatus)));
    items.push(
        ("competition_is_autonomous", HostItem::Function(HostFunction::CompetitionIsAutonomous)),
    );
    items.push(("competition_is_connected", HostItem::Function(HostFunction::CompetitionIsConnected)));
    items.push(("competition_is_disabled", HostItem::Function(HostFunction::CompetitionIsDisabled)));
    assert(items@ =~= misc_items());
    items
}

/// Offers the functions of this group to robot code. An error where one of
/// the names is defined already: the functions before that one have been
/// defined. A linker that offers nothing yet takes them all.
pub fn configure_misc_api(linker: &mut Linker) -> (done: Result<(), AlreadyDefinedError>)
    ensures
        old(linker)@.len() == 0 ==> done is Ok,
        done is Ok <==> distinct_from(old(linker)@, env_items(misc_items())),
        done is Ok ==> final(linker)@ == old(linker)@ + env_items(misc_items()),
        done is Err ==> exists|k: int|
            0 <= k < misc_items().len() && final(linker)@ == old(linker)@ + env_items(
                misc_items().subrange(0, k),
            ),
{
    proof {
        let group = misc_items();
        assert(group =~= api_items().subrange(8, 8 + group.len() as int));
        lemma_group_names_are_distinct(group, 8);
        if linker@.len() == 0 {
            assert(linker@ =~= Seq::<Definition>::empty());
        }
    }
    linker.define_all(&misc_api())
}

/// The charge that every controller reports, in percent.
pub const CONTROLLER_BATTERY: i32 = 100;

/// `controller_get_analog`: the position of the axis `channel` of the
/// controller `id`, in `-127..=127`; 0 while the controller is not
/// connected. Returns 0, with `EINVAL` for `errno`, where `id` names no
/// controller, or where the controller is connected and `channel` names no
/// axis.
pub fn controller_get_analog(host: &Host, id: u32, channel: u32) -> (reply: Reply<i32>)
    ensures
        reply == if !is_controller(id) {
            Reply { value: 0i32, errno: Some(EINVAL) }
        } else {
            match host.controllers.slot(id) {
                None => Reply { value: 0i32, errno: None },
                Some(c) => if is_channel(channel) {
                    Reply { value: channel_of(c.state().analog, channel) as i32, errno: None }
                } else {
                    Reply { value: 0i32, errno: Some(EINVAL) }
                },
            }
        },
{
    host.controllers.get_analog(id, channel).unwrap_or_errno_as(0)
}

/// `controller_get_digital`: 1 if `button` of the controller `id` is down,
/// else 0; 0 while the controller is not connected. Returns 0, with
/// `EINVAL` for `errno`, where `id` names no controller, or where the
/// controller is connected and `button` names no button.
pub fn controller_get_digital(host: &Host, id: u32, button: u32) -> (reply: Reply<i32>)
    ensures
        reply == if !is_controller(id) {
            Reply { value: 0i32, errno: Some(EINVAL) }
        } else {
            match host.controllers.slot(id) {
                None => Reply { value: 0i32, errno: None },
                Some(c) => if is_button(button) {
                    Reply {
                        value: if button_of(c.state().digital, button) {
                            1i32
                        } else {
                            0i32
                        },
                        errno: None,
                    }
                } else {
                    Reply { value: 0i32, errno: Some(EINVAL) }
                },
            }
        },
{
    let reply = host.controllers.get_digital(id, button).unwrap_or_errno_as(false);
    Reply { value: if reply.value { 1 } else { 0 }, errno: reply.errno }
}

/// `controller_get_digital_new_press`: 1 if `button` of the controller `id`
/// went down since the last call for that button, else 0; the press is
/// collected, so that each press is reported once. 0 while the controller
/// is not connected. Returns 0, with `EINVAL` for `errno`, and nothing
/// changes, where `id` names no controller, or where the controller is
/// connected and `button` names no button.
pub fn controller_get_digital_new_press(host: &mut Host, id: u32, button: u32) -> (reply: Reply<i32>)
    ensures
        reply == if !is_controller(id) {
            Reply { value: 0i32, errno: Some(EINVAL) }
        } else {
            match old(host).controllers.slot(id) {
                None => Reply { value: 0i32, errno: None },
                Some(c) => if is_button(button) {
                    Reply {
                        value: if button_of(c.new_presses(), button) {
                            1i32
                        } else {
                            0i32
                        },
                        errno: None,
                    }
                } else {
                    Reply { value: 0i32, errno: Some(EINVAL) }
                },
            }
        },
        forall|other: u32| other != id ==> final(host).controllers.slot(other) == old(host).controllers.slot(other),
        slot_view(final(host).controllers.slot(id)) == match old(host).controllers.slot(id) {
            None => None,
            Some(c) => Some((c.state(), button_cleared(c.new_presses(), button))),
        },
        final(host).memory == old(host).memory,
        final(host).module == old(host).module,
        final(host).linker == old(host).linker,
        final(host).interface == old(host).interface,
        final(host).lcd == old(host).lcd,
        final(host).mutexes == old(host).mutexes,
        final(host).tasks == old(host).tasks,
        final(host).competition_phase == old(host).competition_phase,
        final(host).smart_ports == old(host).smart_ports,
{
    let reply = host.controllers.get_digital_new_press(id, button).unwrap_or_errno_as(false);
    Reply { value: if reply.value { 1 } else { 0 }, errno: reply.errno }
}

/// `controller_is_connected`: 1 if the controller `id` is connected, else
/// 0. Returns 0, with `EINVAL` for `errno`, where `id` names no
/// controller.
pub fn controller_is_connected(host: &Host, id: u32) -> (reply: Reply<i32>)
    ensures
        reply == if !is_controller(id) {
            Reply { value: 0i32, errno: Some(EINVAL) }
        } else {
            Reply {
                value: if host.controllers.slot(id) is Some {
                    1i32
                } else {
                    0i32
                },
                errno: None,
            }
        },
{
    let reply = host.controllers.is_connected(id).unwrap_or_errno_as(false);
    Reply { value: if reply.value { 1 } else { 0 }, errno: reply.errno }
}

/// `controller_get_battery_capacity`: always 100.
pub fn controller_get_battery_capacity(id: u32) -> (value: i32)
    ensures
        value == CONTROLLER_BATTERY,
{
    100
}

/// `controller_get_battery_level`: always 100.
pub fn controller_get_battery_level(id: u32) -> (value: i32)
    ensures
        value == CONTROLLER_BATTERY,
{
    100
}

/// `competition_get_status`: the match state as status bits.
pub fn competition_get_status(host: &Host) -> (value: i32)
    ensures
        value == phase_bits(host.competition_phase),
{
    host.competition_phase.as_bits() as i32
}

/// `competition_is_autonomous`: 1 in the autonomous period, else 0.
pub fn competition_is_autonomous(host: &Host) -> (value: i32)
    ensures
        value == if host.competition_phase.autonomous {
            1i32
        } else {
            0i32
        },
{
    if host.competition_phase.autonomous {
        1
    } else {
        0
    }
}

/// `competition_is_connected`: 1 if the robot is connected to competition
/// control, else 0.
pub fn competition_is_connected(host: &Host) -> (value: i32)
    ensures
        value == if host.competition_phase.is_competition {
            1i32
        } else {
            0i32
        },
{
    if host.competition_phase.is_competition {
        1
    } else {
        0
    }
}

/// `competition_is_disabled`: 1 if the robot is disabled, else 0.
pub fn competition_is_disabled(host: &Host) -> (value: i32)
    ensures
        value == if host.competition_phase.enabled {
            0i32
        } else {
            1i32
        },
{
    if host.competition_phase.enabled {
        0
    } else {
        1
    }
}

} // verus!
