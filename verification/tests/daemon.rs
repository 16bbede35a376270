use pros_simulator::api::llemu::{lcd_initialize, lcd_set_text};
use pros_simulator::host::memory::GuestMemory;
use pros_simulator::host::task::{PollOutcome, TaskEntry, TaskState};
use pros_simulator::host::Host;
use pros_simulator::interface::{
    AnalogControllerState, CompetitionPhase, ControllerState, DigitalControllerState,
    SimulatorEvent, SimulatorMessage, SmartDeviceSpec,
};
use pros_simulator::system::system_daemon::{
    next_user_task, spawn_user_code, system_daemon_initialize, DaemonStage, DaemonStep,
    SystemDaemon, UserTask, SYSTEM_DAEMON_CLOSURE, SYSTEM_DAEMON_PERIOD,
};
use std::collections::HashMap;

fn host_on(memory: Vec<u8>) -> Host {
    let mut linker = pros_simulator::api::Linker::new();
    pros_simulator::api::configure_api(&mut linker).unwrap();
    let module = pros_simulator::api::Module { imports: Vec::new() };
    Host::new(GuestMemory::new(memory), linker, module)
}

fn phase(autonomous: bool, enabled: bool, is_competition: bool) -> CompetitionPhase {
    CompetitionPhase { autonomous, enabled, is_competition }
}

/// Lets the daemon run until `initialize` has finished.
fn started() -> (Host, SystemDaemon) {
    let mut host = host_on(vec![0; 8]);
    let mut daemon = SystemDaemon::new();
    assert_eq!(system_daemon_initialize(&mut host), Some(1));
    daemon.do_background_operations(&mut host, SimulatorMessage::BeginSimulation);
    assert!(host.tasks.cycle_tasks());
    assert_eq!(daemon.system_daemon_task(&mut host), DaemonStep { deleted: None, spawned: Some(2) });
    assert!(host.tasks.cycle_tasks());
    assert_eq!(host.tasks.current().id(), 2);
    host.tasks.after_poll(&mut host.interface, PollOutcome::Finished);
    assert!(host.tasks.cycle_tasks());
    assert_eq!(host.tasks.current().id(), 1);
    host.interface.take();
    (host, daemon)
}

#[test]
fn daemon_constants() {
    assert_eq!(SYSTEM_DAEMON_PERIOD, 2);
    assert_eq!(SYSTEM_DAEMON_CLOSURE, 0);
}

#[test]
fn user_task_names() {
    assert_eq!(UserTask::Opcontrol.entrypoint(), "opcontrol");
    assert_eq!(UserTask::Auton.entrypoint(), "autonomous");
    assert_eq!(UserTask::Disabled.entrypoint(), "disabled");
    assert_eq!(UserTask::CompInit.entrypoint(), "competition_initialize");
    assert_eq!(UserTask::Opcontrol.name(), "User Operator Control (PROS)");
    assert_eq!(UserTask::Auton.name(), "User Autonomous (PROS)");
    assert_eq!(UserTask::Disabled.name(), "User Disabled (PROS)");
    assert_eq!(UserTask::CompInit.name(), "User Comp. Init. (PROS)");
}

#[test]
fn user_task_follows_the_phase() {
    assert_eq!(next_user_task(None, phase(false, true, false)), Some(UserTask::Opcontrol));
    assert_eq!(next_user_task(None, phase(true, true, false)), Some(UserTask::Auton));
    assert_eq!(next_user_task(None, phase(false, false, false)), None);
    assert_eq!(next_user_task(None, phase(true, false, true)), None);
    let driving = Some(phase(false, true, false));
    assert_eq!(next_user_task(driving, phase(false, true, false)), None);
    assert_eq!(next_user_task(driving, phase(true, true, false)), Some(UserTask::Auton));
    assert_eq!(next_user_task(driving, phase(false, false, false)), Some(UserTask::Disabled));
    assert_eq!(next_user_task(driving, phase(false, false, true)), Some(UserTask::CompInit));
    assert_eq!(next_user_task(driving, phase(false, true, true)), Some(UserTask::Opcontrol));
    let disabled_on_field = Some(phase(false, false, true));
    assert_eq!(next_user_task(disabled_on_field, phase(true, false, true)), None);
    assert_eq!(next_user_task(disabled_on_field, phase(true, true, true)), Some(UserTask::Auton));
    assert_eq!(next_user_task(Some(phase(true, true, true)), phase(false, false, true)), Some(UserTask::Disabled));
}

#[test]
fn robot_code_waits_for_begin_simulation() {
    let mut host = host_on(vec![0; 8]);
    let mut daemon = SystemDaemon::new();
    assert_eq!(system_daemon_initialize(&mut host), Some(1));
    let task = host.tasks.by_id(1).unwrap();
    assert_eq!((task.name(), task.priority), ("PROS System Daemon", 7));
    assert_eq!(task.start(), &TaskEntry::Closure(SYSTEM_DAEMON_CLOSURE));
    assert_eq!(daemon.system_daemon_task(&mut host), DaemonStep { deleted: None, spawned: None });
    daemon.do_background_operations(&mut host, SimulatorMessage::PhaseChange(phase(false, true, false)));
    assert_eq!(daemon.system_daemon_task(&mut host), DaemonStep { deleted: None, spawned: None });
    assert_eq!(daemon.stage, DaemonStage::AwaitingStart);
    assert_eq!(host.interface.len(), 0);
    daemon.do_background_operations(&mut host, SimulatorMessage::BeginSimulation);
    assert!(daemon.ready_to_init);
    assert_eq!(daemon.system_daemon_task(&mut host), DaemonStep { deleted: None, spawned: Some(2) });
    assert_eq!(daemon.stage, DaemonStage::Initializing);
    assert_eq!(host.interface.take(), vec![SimulatorEvent::RobotCodeRunning]);
    let task = host.tasks.by_id(2).unwrap();
    assert_eq!(task.name(), "User Initialization (PROS)");
    assert_eq!(task.start(), &TaskEntry::Global("initialize".to_string()));
    // nothing else starts before initialize has finished
    assert_eq!(daemon.system_daemon_task(&mut host), DaemonStep { deleted: None, spawned: None });
    assert_eq!(daemon.stage, DaemonStage::Initializing);
    assert_eq!(host.interface.len(), 0);
}

#[test]
fn lcd_hello_from_start_to_finish() {
    let mut bytes = vec![0u8; 16];
    bytes[4..6].copy_from_slice(b"hi");
    let mut host = host_on(bytes);
    let mut daemon = SystemDaemon::new();
    host.loading();
    system_daemon_initialize(&mut host).unwrap();
    daemon.do_background_operations(&mut host, SimulatorMessage::BeginSimulation);
    assert!(host.tasks.cycle_tasks());
    let initialize = daemon.system_daemon_task(&mut host).spawned.unwrap();
    host.tasks.after_poll(&mut host.interface, PollOutcome::Pending);
    assert!(host.tasks.cycle_tasks());
    assert_eq!(host.tasks.current().id(), initialize);
    assert_eq!(lcd_initialize(&mut host), 1);
    assert_eq!(lcd_set_text(&mut host, 0, 4).unwrap().value, 1);
    host.tasks.after_poll(&mut host.interface, PollOutcome::Finished);
    // the daemon runs on, disabled, until it is taken away
    assert!(host.tasks.cycle_tasks());
    assert_eq!(daemon.system_daemon_task(&mut host), DaemonStep { deleted: None, spawned: None });
    assert_eq!(daemon.stage, DaemonStage::Competing);
    host.tasks.after_poll(&mut host.interface, PollOutcome::Finished);
    assert!(!host.tasks.cycle_tasks());
    host.finish(None);
    let hi = ["hi", "", "", "", "", "", "", ""].map(|row| row.to_string());
    assert_eq!(
        host.interface.take(),
        vec![
            SimulatorEvent::Loading,
            SimulatorEvent::RobotCodeRunning,
            SimulatorEvent::LcdInitialized,
            SimulatorEvent::LcdUpdated(hi),
            SimulatorEvent::AllTasksFinished,
        ]
    );
}

#[test]
fn competition_phase_switch() {
    let (mut host, mut daemon) = started();
    daemon.do_background_operations(&mut host, SimulatorMessage::PhaseChange(phase(false, true, false)));
    assert_eq!(daemon.system_daemon_task(&mut host), DaemonStep { deleted: None, spawned: Some(3) });
    assert_eq!(host.tasks.by_id(3).unwrap().name(), "User Operator Control (PROS)");
    assert_eq!(host.tasks.by_id(3).unwrap().start(), &TaskEntry::Global("opcontrol".to_string()));
    assert_eq!(daemon.system_daemon_task(&mut host), DaemonStep { deleted: None, spawned: None });
    // opcontrol has not run yet: it is deleted when autonomous begins
    daemon.do_background_operations(&mut host, SimulatorMessage::PhaseChange(phase(true, true, false)));
    assert_eq!(daemon.system_daemon_task(&mut host), DaemonStep { deleted: Some(3), spawned: Some(4) });
    assert_eq!(host.tasks.task_state(3), Some(TaskState::Deleted));
    assert_eq!(host.tasks.by_id(4).unwrap().name(), "User Autonomous (PROS)");
    assert_eq!(host.tasks.by_id(4).unwrap().start(), &TaskEntry::Global("autonomous".to_string()));
    assert_eq!(daemon.competition_task, Some(4));
    assert_eq!(daemon.status, Some(phase(true, true, false)));
    assert_eq!(host.interface.len(), 0);
}

#[test]
fn finished_phase_task_is_not_deleted() {
    let (mut host, mut daemon) = started();
    daemon.do_background_operations(&mut host, SimulatorMessage::PhaseChange(phase(true, true, true)));
    assert_eq!(daemon.system_daemon_task(&mut host).spawned, Some(3));
    host.tasks.after_poll(&mut host.interface, PollOutcome::Pending);
    assert!(host.tasks.cycle_tasks());
    assert_eq!(host.tasks.current().id(), 3);
    host.tasks.after_poll(&mut host.interface, PollOutcome::Finished);
    assert!(host.tasks.cycle_tasks());
    daemon.do_background_operations(&mut host, SimulatorMessage::PhaseChange(phase(true, false, true)));
    assert_eq!(daemon.system_daemon_task(&mut host), DaemonStep { deleted: None, spawned: Some(4) });
    assert_eq!(host.tasks.by_id(4).unwrap().name(), "User Disabled (PROS)");
    assert_eq!(host.tasks.task_state(3), Some(TaskState::Deleted));
    assert!(host.tasks.has_finished(3));
    // disabled stays disabled whatever else changes
    daemon.do_background_operations(&mut host, SimulatorMessage::PhaseChange(phase(false, false, false)));
    assert_eq!(daemon.system_daemon_task(&mut host), DaemonStep { deleted: None, spawned: None });
    assert_eq!(daemon.status, Some(phase(false, false, false)));
    daemon.do_background_operations(&mut host, SimulatorMessage::PhaseChange(phase(false, true, false)));
    assert_eq!(daemon.system_daemon_task(&mut host), DaemonStep { deleted: Some(4), spawned: Some(5) });
    daemon.do_background_operations(&mut host, SimulatorMessage::PhaseChange(phase(false, false, true)));
    assert_eq!(daemon.system_daemon_task(&mut host), DaemonStep { deleted: Some(5), spawned: Some(6) });
    assert_eq!(host.tasks.by_id(6).unwrap().name(), "User Comp. Init. (PROS)");
    assert_eq!(
        host.tasks.by_id(6).unwrap().start(),
        &TaskEntry::Global("competition_initialize".to_string())
    );
}

#[test]
fn messages_reach_the_devices() {
    let (mut host, mut daemon) = started();
    let digital = DigitalControllerState {
        l1: false,
        l2: false,
        r1: false,
        r2: true,
        up: false,
        down: false,
        left: false,
        right: false,
        x: false,
        b: false,
        y: false,
        a: false,
    };
    let state = ControllerState {
        digital,
        analog: AnalogControllerState { left_x: 9, left_y: 0, right_x: 0, right_y: 0 },
    };
    let none = daemon.do_background_operations(&mut host, SimulatorMessage::ControllerUpdate(None, Some(state)));
    assert_eq!(none, Vec::<u32>::new());
    assert_eq!(host.controllers.is_connected(1), Ok(false));
    assert_eq!(host.controllers.get_analog(2, 0), Ok(9));
    assert_eq!(host.controllers.get_digital(2, 9), Ok(true));
    let ports = HashMap::from([(5, SmartDeviceSpec::Motor)]);
    daemon.do_background_operations(&mut host, SimulatorMessage::PortsUpdate(ports));
    assert!(host.smart_ports.get(5).is_ok());
    assert!(host.smart_ports.get(6).is_err());
    lcd_initialize(&mut host);
    host.lcd.set_btn_press_callback(1, 42).unwrap();
    let due = daemon.do_background_operations(&mut host, SimulatorMessage::LcdButtonsUpdate([true, true, false]));
    assert_eq!(due, vec![42]);
    // BeginSimulation counts only while the daemon waits for it
    assert_eq!(daemon.stage, DaemonStage::Initializing);
    let before = daemon;
    daemon.do_background_operations(&mut host, SimulatorMessage::BeginSimulation);
    assert_eq!(daemon, before);
}

#[test]
fn user_code_is_spawned_with_default_priority() {
    let mut host = host_on(vec![0; 8]);
    assert_eq!(spawn_user_code(&mut host, UserTask::Auton), Some(1));
    let task = host.tasks.by_id(1).unwrap();
    assert_eq!((task.name(), task.priority, task.state()), ("User Autonomous (PROS)", 7, TaskState::Ready));
}
