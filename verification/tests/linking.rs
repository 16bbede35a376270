use pros_simulator::api::generic_io::configure_generic_io_api;
use pros_simulator::api::llemu::{configure_llemu_api, llemu_api};
use pros_simulator::api::misc::configure_misc_api;
use pros_simulator::api::motors::configure_motors_api;
use pros_simulator::api::rtos_facilities::configure_rtos_facilities_api;
use pros_simulator::api::{
    configure_api, AlreadyDefinedError, HostFunction, HostItem, Import, Linker,
};
use pros_simulator::host::task::TaskPool;
use pros_simulator::interface::{SimulatorEvent, SimulatorInterface};

fn import(name: &str) -> Import {
    Import { module: "env".to_string(), name: name.to_string() }
}

#[test]
fn every_host_function_is_offered_under_its_name() {
    let mut linker = Linker::new();
    assert_eq!(configure_api(&mut linker), Ok(()));
    assert_eq!(linker.get("env", "memory"), Some(HostItem::Memory));
    let names = [
        ("lcd_initialize", HostFunction::LcdInitialize),
        ("lcd_set_text", HostFunction::LcdSetText),
        ("lcd_clear_line", HostFunction::LcdClearLine),
        ("lcd_clear", HostFunction::LcdClear),
        ("lcd_register_btn0_cb", HostFunction::LcdRegisterBtn0Cb),
        ("lcd_register_btn1_cb", HostFunction::LcdRegisterBtn1Cb),
        ("lcd_register_btn2_cb", HostFunction::LcdRegisterBtn2Cb),
        ("controller_get_analog", HostFunction::ControllerGetAnalog),
        ("controller_get_digital", HostFunction::ControllerGetDigital),
        ("controller_get_digital_new_press", HostFunction::ControllerGetDigitalNewPress),
        ("controller_is_connected", HostFunction::ControllerIsConnected),
        ("controller_get_battery_capacity", HostFunction::ControllerGetBatteryCapacity),
        ("controller_get_battery_level", HostFunction::ControllerGetBatteryLevel),
        ("competition_get_status", HostFunction::CompetitionGetStatus),
        ("competition_is_autonomous", HostFunction::CompetitionIsAutonomous),
        ("competition_is_connected", HostFunction::CompetitionIsConnected),
        ("competition_is_disabled", HostFunction::CompetitionIsDisabled),
        ("motor_move", HostFunction::MotorMove),
        ("motor_set_brake_mode", HostFunction::MotorSetBrakeMode),
        ("motor_set_encoder_units", HostFunction::MotorSetEncoderUnits),
        ("mutex_create", HostFunction::MutexCreate),
        ("mutex_delete", HostFunction::MutexDelete),
        ("mutex_give", HostFunction::MutexGive),
        ("mutex_take", HostFunction::MutexTake),
        ("pvTaskGetThreadLocalStoragePointer", HostFunction::TaskGetThreadLocalStoragePointer),
        ("vTaskSetThreadLocalStoragePointer", HostFunction::TaskSetThreadLocalStoragePointer),
        ("task_get_current", HostFunction::TaskGetCurrent),
        ("delay", HostFunction::Delay),
        ("task_delay", HostFunction::TaskDelay),
        ("task_delay_until", HostFunction::TaskDelayUntil),
        ("rtos_suspend_all", HostFunction::RtosSuspendAll),
        ("rtos_resume_all", HostFunction::RtosResumeAll),
        ("millis", HostFunction::Millis),
        ("task_create", HostFunction::TaskCreate),
        ("task_delete", HostFunction::TaskDelete),
        ("task_get_name", HostFunction::TaskGetName),
        ("__errno", HostFunction::Errno),
        ("sim_abort", HostFunction::SimAbort),
        ("puts", HostFunction::Puts),
        ("write", HostFunction::Write),
        ("exit", HostFunction::Exit),
        ("sim_log_backtrace", HostFunction::SimLogBacktrace),
    ];
    assert_eq!(names.len(), 42);
    for (name, function) in names {
        assert_eq!(linker.get("env", name), Some(HostItem::Function(function)));
    }
    assert_eq!(linker.get("env", "lcd_print"), None);
    assert_eq!(linker.get("wasi", "lcd_clear"), None);
    assert_eq!(linker.get("", ""), None);
}

#[test]
fn groups_can_be_configured_one_by_one() {
    let mut linker = Linker::new();
    assert_eq!(configure_generic_io_api(&mut linker), Ok(()));
    assert_eq!(configure_rtos_facilities_api(&mut linker), Ok(()));
    assert_eq!(configure_motors_api(&mut linker), Ok(()));
    assert_eq!(configure_misc_api(&mut linker), Ok(()));
    assert_eq!(configure_llemu_api(&mut linker), Ok(()));
    assert_eq!(linker.get("env", "exit"), Some(HostItem::Function(HostFunction::Exit)));
    assert_eq!(linker.get("env", "lcd_clear"), Some(HostItem::Function(HostFunction::LcdClear)));
    assert_eq!(linker.get("env", "memory"), None);
}

#[test]
fn a_name_is_defined_once() {
    let mut linker = Linker::new();
    assert_eq!(linker.define("env", "lcd_clear", HostItem::Memory), Ok(()));
    assert_eq!(linker.define("env", "lcd_clear", HostItem::Memory), Err(AlreadyDefinedError));
    assert_eq!(linker.define("other", "lcd_clear", HostItem::Memory), Ok(()));
    // the group stops at the name that is taken; what came before it is defined
    assert_eq!(configure_llemu_api(&mut linker), Err(AlreadyDefinedError));
    assert_eq!(linker.get("env", "lcd_clear"), Some(HostItem::Memory));
    assert_eq!(linker.get("env", "lcd_clear_line"), Some(HostItem::Function(HostFunction::LcdClearLine)));
    assert_eq!(linker.get("env", "lcd_register_btn0_cb"), None);
    assert_eq!(configure_api(&mut linker), Err(AlreadyDefinedError));
    assert_eq!(linker.get("env", "memory"), Some(HostItem::Memory));
    assert_eq!(linker.get("env", "motor_move"), None);
    assert_eq!(llemu_api().len(), 7);
    assert_eq!(linker.define_all(&vec![("a", HostItem::Memory), ("a", HostItem::Memory)]), Err(AlreadyDefinedError));
    assert_eq!(linker.get("env", "a"), Some(HostItem::Memory));
}

#[test]
fn unknown_imports_are_warned_of_and_trap() {
    let mut linker = Linker::new();
    configure_api(&mut linker).unwrap();
    let mut interface = SimulatorInterface::new();
    let imports = vec![
        import("memory"),
        import("lcd_print"),
        import("puts"),
        Import { module: "wasi".to_string(), name: "puts".to_string() },
        import("motor_get_position"),
    ];
    assert_eq!(
        TaskPool::instantiate(&linker, &imports, &mut interface),
        vec![false, true, false, true, true]
    );
    assert_eq!(
        interface.take(),
        vec![
            SimulatorEvent::Warning(
                "Unimplemented API `lcd_print` (Robot code will crash if this is used)".to_string()
            ),
            SimulatorEvent::Warning(
                "Unimplemented API `puts` (Robot code will crash if this is used)".to_string()
            ),
            SimulatorEvent::Warning(
                "Unimplemented API `motor_get_position` (Robot code will crash if this is used)"
                    .to_string()
            ),
        ]
    );
    assert_eq!(TaskPool::instantiate(&linker, &Vec::new(), &mut interface), Vec::<bool>::new());
    assert_eq!(interface.len(), 0);
}
