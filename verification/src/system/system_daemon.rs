//! The system daemon: the task of the simulator that takes in the messages
//! of the front end and starts the entry points of robot code as the match
//! goes through its phases.
use crate::abi::{COMPETITION_AUTONOMOUS, COMPETITION_CONNECTED, COMPETITION_DISABLED};
use crate::api::link_warnings;
use crate::host::Host;
use crate::host::controllers::{slot_after, slot_view};
use crate::host::lcd::callbacks_due;
use crate::host::smart_device::respecified;
use crate::host::task::{index_of, Task, TaskEntry, TaskOptions, TaskState, TASK_PRIORITY_DEFAULT};
use crate::interface::{CompetitionPhase, EventView, SimulatorEvent, SimulatorMessage};
use vstd::prelude::*;
use vstd::string::StringExecFns;

verus! {

/// The match state as status bits: bit 0 for autonomous, bit 1 for
/// disabled, bit 2 for connected to competition control.
pub open spec fn phase_bits(phase: CompetitionPhase) -> u8 {
    ((if phase.autonomous {
        1int
    } else {
        0int
    }) + (if phase.enabled {
        0int
    } else {
        2int
    }) + (if phase.is_competition {
        4int
    } else {
        0int
    })) as u8
}

/// The match state as robot code reads it.
pub trait CompetitionPhaseExt {
    /// The match state that the bits are taken from.
    spec fn phase(&self) -> CompetitionPhase;

    /// The match state as status bits.
    fn as_bits(&self) -> (bits: u8)
        ensures
            bits == phase_bits(self.phase()),
    ;
}

impl CompetitionPhaseExt for CompetitionPhase {
    open spec fn phase(&self) -> CompetitionPhase {
        *self
    }

    fn as_bits(&self) -> (bits: u8) {
        let mut bits: u8 = 0;
        if self.autonomous {
            bits = bits + COMPETITION_AUTONOMOUS;
        }
        if !self.enabled {
            bits = bits + COMPETITION_DISABLED;
        }
        if self.is_competition {
            bits = bits + COMPETITION_CONNECTED;
        }
        bits
    }
}


/// An entry point of robot code that belongs to a phase of the match.
#[derive(Debug, Clone, Copy, PartialEq, Eq, Structural)]
pub enum UserTask {
    Opcontrol,
    Auton,
    Disabled,
    CompInit,
}

impl UserTask {
    /// The name under which robot code exports the entry point.
    pub open spec fn spec_entrypoint(self) -> Seq<char> {
        match self {
            UserTask::Opcontrol => "opcontrol"@,
            UserTask::Auton => "autonomous"@,
            UserTask::Disabled => "disabled"@,
            UserTask::CompInit => "competition_initialize"@,
        }
    }

    /// The name of the task that runs the entry point.
    pub open spec fn spec_name(self) -> Seq<char> {
        match self {
            UserTask::Opcontrol => "User Operator Control (PROS)"@,
            UserTask::Auton => "User Autonomous (PROS)"@,
            UserTask::Disabled => "User Disabled (PROS)"@,
            UserTask::CompInit => "User Comp. Init. (PROS)"@,
        }
    }

    /// The name under which robot code exports the entry point.
    pub fn entrypoint(self) -> (name: &'static str)
        ensures
            name@ == self.spec_entrypoint(),
    {
        match self {
            UserTask::Opcontrol => "opcontrol",
            UserTask::Auton => "autonomous",
            UserTask::Disabled => "disabled",
            UserTask::CompInit => "competition_initialize",
        }
    }

    /// The name of the task that runs the entry point.
    pub fn name(self) -> (name: &'static str)
        ensures
            name@ == self.spec_name(),
    {
        match self {
            UserTask::Opcontrol => "User Operator Control (PROS)",
            UserTask::Auton => "User Autonomous (PROS)",
            UserTask::Disabled => "User Disabled (PROS)",
            UserTask::CompInit => "User Comp. Init. (PROS)",
        }
    }
}

/// The entry point that is due when the match goes from `old` to `new`,
/// if one is. None is due while the robot stays disabled. A robot that is
/// disabled and has just been connected to competition control runs its
/// competition initialization; otherwise a disabled robot runs its
/// disabled routine, an enabled robot its autonomous routine in the
/// autonomous period and its operator control outside of it.
pub open spec fn user_task_for(old: CompetitionPhase, new: CompetitionPhase) -> Option<UserTask> {
    if !new.enabled && !old.enabled {
        None
    } else if !old.is_competition && new.is_competition && !new.enabled {
        Some(UserTask::CompInit)
    } else if !new.enabled {
        Some(UserTask::Disabled)
    } else if new.autonomous {
        Some(UserTask::Auton)
    } else {
        Some(UserTask::Opcontrol)
    }
}

/// The match state that the daemon compares with before it has seen any:
/// disabled, driver controlled, not connected.
pub open spec fn initial_phase() -> CompetitionPhase {
    CompetitionPhase { autonomous: false, enabled: false, is_competition: false }
}

/// The entry point that is due when the daemon, which saw the match state
/// `seen` last, finds the match state `new`. None is due while the match
/// state is what it was.
pub open spec fn due_user_task(seen: Option<CompetitionPhase>, new: CompetitionPhase) -> Option<
    UserTask,
> {
    match seen {
        Some(old) => if old == new {
            None
        } else {
            user_task_for(old, new)
        },
        None => user_task_for(initial_phase(), new),
    }
}

/// The entry point that is due when the daemon, which saw the match state
/// `seen` last, finds the match state `new`.
pub fn next_user_task(seen: Option<CompetitionPhase>, new: CompetitionPhase) -> (due: Option<UserTask>)
    ensures
        due == due_user_task(seen, new),
{
    let old = match seen {
        Some(old) => {
            if old.autonomous == new.autonomous && old.enabled == new.enabled && old.is_competition
                == new.is_competition {
                return None;
            }
            old
        },
        None => CompetitionPhase { autonomous: false, enabled: false, is_competition: false },
    };
    if !new.enabled && !old.enabled {
        None
    } else if !old.is_competition && new.is_competition && !new.enabled {
        Some(UserTask::CompInit)
    } else if !new.enabled {
        Some(UserTask::Disabled)
    } else if new.autonomous {
        Some(UserTask::Auton)
    } else {
        Some(UserTask::Opcontrol)
    }
}

/// The number by which the simulator knows the routine of the daemon.
pub const SYSTEM_DAEMON_CLOSURE: u32 = 0;

/// Milliseconds that the daemon waits between two passes.
pub const SYSTEM_DAEMON_PERIOD: u64 = 2;

/// Whether `task` is a ready task named `name` that starts at the export
/// `entrypoint` of robot code, with the default priority and nothing
/// allocated.
pub open spec fn is_user_task(task: Task, id: u32, name: Seq<char>, entrypoint: Seq<char>) -> bool {
    &&& task.id == id
    &&& task.name@ == name
    &&& task.priority == TASK_PRIORITY_DEFAULT
    &&& task.entry matches TaskEntry::Global(export) && export@ == entrypoint
    &&& task.state == TaskState::Ready
    &&& task.errno is None
    &&& task.local_storage is None
    &&& !task.marked_for_delete
}

/// What stays as it is when the daemon starts or deletes tasks.
pub open spec fn same_devices(before: &Host, after: &Host) -> bool {
    &&& after.memory == before.memory
    &&& after.module == before.module
    &&& after.linker == before.linker
    &&& after.lcd == before.lcd
    &&& after.mutexes == before.mutexes
    &&& after.controllers == before.controllers
    &&& after.competition_phase == before.competition_phase
    &&& after.smart_ports == before.smart_ports
}

/// What stays as it is in the pool of tasks when the daemon starts or
/// deletes tasks.
pub open spec fn same_scheduler(before: &Host, after: &Host) -> bool {
    &&& after.tasks.current_id() == before.tasks.current_id()
    &&& after.tasks.suspended() == before.tasks.suspended()
    &&& after.tasks.yield_pending() == before.tasks.yield_pending()
    &&& after.tasks.shutdown_pending() == before.tasks.shutdown_pending()
    &&& (before.tasks.has_current() ==> after.tasks.has_current())
}

/// Starts the task that runs `entrypoint`, an export of robot code, under
/// the name `name`, and returns its handle. `None`, and nothing changes,
/// where every handle has been given out.
fn spawn_global(host: &mut Host, entrypoint: &'static str, name: &'static str) -> (handle: Option<u32>)
    requires
        old(host).wf(),
    ensures
        final(host).wf(),
        same_devices(old(host), final(host)),
        same_scheduler(old(host), final(host)),
        final(host).tasks.retired() == old(host).tasks.retired(),
        handle is Some <==> old(host).tasks.newest_id() < u32::MAX,
        handle is None ==> final(host).tasks == old(host).tasks && final(host).interface == old(host).interface,
        handle is Some ==> final(host).interface@ == old(host).interface@ + link_warnings(
            old(host).linker@,
            old(host).module.imports@,
        ),
        handle matches Some(id) ==> {
            &&& id == old(host).tasks.newest_id() + 1
            &&& final(host).tasks.newest_id() == id
            &&& final(host).tasks.tasks().len() == old(host).tasks.tasks().len() + 1
            &&& final(host).tasks.tasks().drop_last() == old(host).tasks.tasks()
            &&& is_user_task(final(host).tasks.tasks().last(), id, name@, entrypoint@)
        },
{
    let options = TaskOptions::new_global(entrypoint).name(String::from_str(name));
    host.tasks.spawn(options, &host.linker, &host.module, &mut host.interface)
}

/// Starts the task that runs the entry point `task` of robot code and
/// returns its handle. `None`, and nothing changes, where every handle has
/// been given out.
pub fn spawn_user_code(host: &mut Host, task: UserTask) -> (handle: Option<u32>)
    requires
        old(host).wf(),
    ensures
        final(host).wf(),
        same_devices(old(host), final(host)),
        same_scheduler(old(host), final(host)),
        final(host).tasks.retired() == old(host).tasks.retired(),
        handle is Some <==> old(host).tasks.newest_id() < u32::MAX,
        handle is None ==> final(host).tasks == old(host).tasks && final(host).interface == old(host).interface,
        handle is Some ==> final(host).interface@ == old(host).interface@ + link_warnings(
            old(host).linker@,
            old(host).module.imports@,
        ),
        handle matches Some(id) ==> {
            &&& id == old(host).tasks.newest_id() + 1
            &&& final(host).tasks.newest_id() == id
            &&& final(host).tasks.tasks().len() == old(host).tasks.tasks().len() + 1
            &&& final(host).tasks.tasks().drop_last() == old(host).tasks.tasks()
            &&& is_user_task(
                final(host).tasks.tasks().last(),
                id,
                task.spec_name(),
                task.spec_entrypoint(),
            )
        },
{
    spawn_global(host, task.entrypoint(), task.name())
}

/// Starts the task of the system daemon, before any robot code runs, and
/// returns its handle. `None`, and nothing changes, where every handle has
/// been given out.
pub fn system_daemon_initialize(host: &mut Host) -> (handle: Option<u32>)
    requires
        old(host).wf(),
    ensures
        final(host).wf(),
        same_devices(old(host), final(host)),
        same_scheduler(old(host), final(host)),
        final(host).tasks.retired() == old(host).tasks.retired(),
        handle is Some <==> old(host).tasks.newest_id() < u32::MAX,
        handle is None ==> final(host).tasks == old(host).tasks && final(host).interface == old(host).interface,
        handle is Some ==> final(host).interface@ == old(host).interface@ + link_warnings(
            old(host).linker@,
            old(host).module.imports@,
        ),
        handle matches Some(id) ==> {
            &&& id == old(host).tasks.newest_id() + 1
            &&& final(host).tasks.newest_id() == id
            &&& final(host).tasks.tasks().len() == old(host).tasks.tasks().len() + 1
            &&& final(host).tasks.tasks().drop_last() == old(host).tasks.tasks()
            &&& final(host).tasks.tasks().last().id == id
            &&& final(host).tasks.tasks().last().name@ == "PROS System Daemon"@
            &&& final(host).tasks.tasks().last().priority == TASK_PRIORITY_DEFAULT
            &&& final(host).tasks.tasks().last().entry == TaskEntry::Closure(SYSTEM_DAEMON_CLOSURE)
            &&& final(host).tasks.tasks().last().state == TaskState::Ready
        },
{
    let daemon = TaskOptions::new_closure(SYSTEM_DAEMON_CLOSURE).name(
        String::from_str("PROS System Daemon"),
    );
    host.tasks.spawn(daemon, &host.linker, &host.module, &mut host.interface)
}

/// How far the daemon has come.
#[derive(Debug, Clone, Copy, PartialEq, Eq, Structural)]
pub enum DaemonStage {
    /// Robot code must not start yet: the front end has not sent
    /// `BeginSimulation`.
    AwaitingStart,
    /// The `initialize` routine of robot code is running.
    Initializing,
    /// The routines of the phases of the match take their turns.
    Competing,
}

/// What one pass of the daemon did to the tasks of robot code.
#[derive(Debug, Clone, Copy, PartialEq, Eq, Structural)]
pub struct DaemonStep {
    /// The task that was deleted, if one was.
    pub deleted: Option<u32>,
    /// The task that was started, if one was.
    pub spawned: Option<u32>,
}

/// The state of the system daemon.
#[derive(Debug, Clone, Copy, PartialEq, Eq, Structural)]
pub struct SystemDaemon {
    pub stage: DaemonStage,
    /// Whether the front end has sent `BeginSimulation`.
    pub ready_to_init: bool,
    /// The match state that the daemon saw last.
    pub status: Option<CompetitionPhase>,
    /// The task of robot code that the daemon started last.
    pub competition_task: Option<u32>,
}

impl SystemDaemon {
    /// A daemon that waits for the front end to let robot code start.
    pub fn new() -> (daemon: Self)
        ensures
            daemon == (SystemDaemon {
                stage: DaemonStage::AwaitingStart,
                ready_to_init: false,
                status: None,
                competition_task: None,
            }),
    {
        SystemDaemon {
            stage: DaemonStage::AwaitingStart,
            ready_to_init: false,
            status: None,
            competition_task: None,
        }
    }

    /// Takes in one message of the front end, and returns the callbacks of
    /// robot code that the caller has to run before it takes in the next
    /// message: indices into the indirect function table.
    ///
    /// A report of the controllers goes to the controllers, a change of
    /// the match state becomes the match state, a configuration of the
    /// ports goes to the ports. A report of the LCD buttons goes to the
    /// LCD, and the callbacks of the buttons that went down are returned.
    /// `BeginSimulation` lets robot code start; it counts only while the
    /// daemon waits for it.
    pub fn do_background_operations(&mut self, host: &mut Host, message: SimulatorMessage) -> (callbacks:
        Vec<u32>)
        ensures
            final(self).stage == old(self).stage,
            final(self).status == old(self).status,
            final(self).competition_task == old(self).competition_task,
            final(self).ready_to_init == (old(self).ready_to_init || (message is BeginSimulation
                && old(self).stage == DaemonStage::AwaitingStart)),
            final(host).memory == old(host).memory,
            final(host).module == old(host).module,
            final(host).linker == old(host).linker,
            final(host).interface == old(host).interface,
            final(host).mutexes == old(host).mutexes,
            final(host).tasks == old(host).tasks,
            match message {
                SimulatorMessage::ControllerUpdate(master, partner) => {
                    &&& callbacks@ == Seq::<u32>::empty()
                    &&& slot_view(final(host).controllers.master()) == slot_after(
                        old(host).controllers.master(),
                        master,
                    )
                    &&& slot_view(final(host).controllers.partner()) == slot_after(
                        old(host).controllers.partner(),
                        partner,
                    )
                    &&& final(host).lcd == old(host).lcd
                    &&& final(host).competition_phase == old(host).competition_phase
                    &&& final(host).smart_ports == old(host).smart_ports
                },
                SimulatorMessage::LcdButtonsUpdate(buttons) => {
                    &&& callbacks@ == callbacks_due(
                        old(host).lcd.button_presses(),
                        buttons@,
                        old(host).lcd.button_callbacks(),
                    )
                    &&& final(host).lcd.button_presses() == buttons@
                    &&& final(host).lcd.button_callbacks() == old(host).lcd.button_callbacks()
                    &&& final(host).lcd.initialized() == old(host).lcd.initialized()
                    &&& final(host).lcd.lines() == old(host).lcd.lines()
                    &&& final(host).controllers == old(host).controllers
                    &&& final(host).competition_phase == old(host).competition_phase
                    &&& final(host).smart_ports == old(host).smart_ports
                },
                SimulatorMessage::PhaseChange(phase) => {
                    &&& callbacks@ == Seq::<u32>::empty()
                    &&& final(host).competition_phase == phase
                    &&& final(host).lcd == old(host).lcd
                    &&& final(host).controllers == old(host).controllers
                    &&& final(host).smart_ports == old(host).smart_ports
                },
                SimulatorMessage::PortsUpdate(ports) => {
                    &&& callbacks@ == Seq::<u32>::empty()
                    &&& final(host).smart_ports@ == respecified(old(host).smart_ports@, ports@)
                    &&& final(host).lcd == old(host).lcd
                    &&& final(host).controllers == old(host).controllers
                    &&& final(host).competition_phase == old(host).competition_phase
                },
                SimulatorMessage::BeginSimulation => {
                    &&& callbacks@ == Seq::<u32>::empty()
                    &&& final(host).lcd == old(host).lcd
                    &&& final(host).controllers == old(host).controllers
                    &&& final(host).competition_phase == old(host).competition_phase
                    &&& final(host).smart_ports == old(host).smart_ports
                },
            },
    {
        match message {
            SimulatorMessage::ControllerUpdate(master, partner) => {
                host.controllers.update(master, partner);
                Vec::new()
            },
            SimulatorMessage::LcdButtonsUpdate(buttons) => host.lcd.press(buttons),
            SimulatorMessage::PhaseChange(new_phase) => {
                host.competition_phase = new_phase;
                Vec::new()
            },
            SimulatorMessage::PortsUpdate(ports) => {
                host.smart_ports.update_specs(&ports);
                Vec::new()
            },
            SimulatorMessage::BeginSimulation => {
                if self.stage == DaemonStage::AwaitingStart {
                    self.ready_to_init = true;
                }
                Vec::new()
            },
        }
    }

    /// One pass of the daemon, after it has taken in the messages that
    /// were waiting. The caller starts what the result names, lets
    /// [`SYSTEM_DAEMON_PERIOD`] milliseconds pass, and comes back.
    ///
    /// While the daemon waits for the front end, nothing happens. Once
    /// robot code may start, the daemon reports that robot code is running
    /// and starts `initialize`. Once `initialize` has finished, each pass
    /// compares the match state with the one seen last; where an entry
    /// point is due, the task that the daemon started last is deleted if
    /// it has not begun to run, and the entry point is started.
    pub fn system_daemon_task(&mut self, host: &mut Host) -> (step: DaemonStep)
        requires
            old(host).wf(),
        ensures
            final(host).wf(),
            same_devices(old(host), final(host)),
            same_scheduler(old(host), final(host)),
            final(self).ready_to_init == old(self).ready_to_init,
            daemon_pass(old(self), old(host), final(self), final(host), step),
    {
        match self.stage {
            DaemonStage::AwaitingStart => {
                if !self.ready_to_init {
                    return DaemonStep { deleted: None, spawned: None };
                }
                if host.tasks.newest_id_reached_limit() {
                    return DaemonStep { deleted: None, spawned: None };
                }
                host.interface.send(SimulatorEvent::RobotCodeRunning);
                let spawned = spawn_global(host, "initialize", "User Initialization (PROS)");
                self.stage = DaemonStage::Initializing;
                self.competition_task = spawned;
                DaemonStep { deleted: None, spawned }
            },
            DaemonStage::Initializing => {
                let finished = match self.competition_task {
                    Some(id) => host.tasks.has_finished(id),
                    None => false,
                };
                if !finished {
                    return DaemonStep { deleted: None, spawned: None };
                }
                self.stage = DaemonStage::Competing;
                self.switch_phase(host)
            },
            DaemonStage::Competing => self.switch_phase(host),
        }
    }

    /// The part of a pass that follows the match state.
    fn switch_phase(&mut self, host: &mut Host) -> (step: DaemonStep)
        requires
            old(host).wf(),
        ensures
            final(host).wf(),
            same_devices(old(host), final(host)),
            same_scheduler(old(host), final(host)),
            final(self).ready_to_init == old(self).ready_to_init,
            final(self).stage == old(self).stage,
            phase_switched(old(self), old(host), final(self), final(host), step),
    {
        let new_status = host.competition_phase;
        let due = next_user_task(self.status, new_status);
        self.status = Some(new_status);
        let task = match due {
            Some(task) => task,
            None => {
                return DaemonStep { deleted: None, spawned: None };
            },
        };
        if host.tasks.newest_id_reached_limit() {
            return DaemonStep { deleted: None, spawned: None };
        }
        let mut deleted: Option<u32> = None;
        if let Some(id) = self.competition_task {
            if let Some(TaskState::Ready) = host.tasks.task_state(id) {
                let _ = host.tasks.delete_task(id);
                deleted = Some(id);
            }
        }
        let spawned = spawn_user_code(host, task);
        self.competition_task = spawned;
        DaemonStep { deleted, spawned }
    }
}

/// Whether the task `id` of `host` is alive and has not begun to run.
pub open spec fn is_waiting(host: &Host, id: u32) -> bool {
    host.tasks.task(id) matches Some(t) && t.state == TaskState::Ready
}

/// What the part of a pass that follows the match state does.
pub open spec fn phase_switched(
    daemon: &SystemDaemon,
    host: &Host,
    daemon_after: &SystemDaemon,
    host_after: &Host,
    step: DaemonStep,
) -> bool {
    &&& daemon_after.status == Some(host.competition_phase)
    &&& match due_user_task(daemon.status, host.competition_phase) {
        Some(task) if host.tasks.newest_id() < u32::MAX => {
            let stale = daemon.competition_task is Some && is_waiting(
                host,
                daemon.competition_task.unwrap(),
            );
            let kept = if stale {
                host.tasks.tasks().remove(
                    index_of(host.tasks.tasks(), daemon.competition_task.unwrap()).unwrap(),
                )
            } else {
                host.tasks.tasks()
            };
            &&& step.deleted == if stale {
                daemon.competition_task
            } else {
                None
            }
            &&& step.spawned == Some((host.tasks.newest_id() + 1) as u32)
            &&& daemon_after.competition_task == step.spawned
            &&& host_after.interface@ == host.interface@ + link_warnings(
                host.linker@,
                host.module.imports@,
            )
            &&& host_after.tasks.newest_id() == host.tasks.newest_id() + 1
            &&& host_after.tasks.tasks().drop_last() == kept
            &&& host_after.tasks.tasks().len() == kept.len() + 1
            &&& is_user_task(
                host_after.tasks.tasks().last(),
                (host.tasks.newest_id() + 1) as u32,
                task.spec_name(),
                task.spec_entrypoint(),
            )
            &&& host_after.tasks.retired() == if stale {
                host.tasks.retired().insert(daemon.competition_task.unwrap(), TaskState::Deleted)
            } else {
                host.tasks.retired()
            }
        },
        _ => {
            &&& step == (DaemonStep { deleted: None, spawned: None })
            &&& daemon_after.competition_task == daemon.competition_task
            &&& host_after.interface == host.interface
            &&& host_after.tasks == host.tasks
        },
    }
}

/// Whether the `initialize` routine that the daemon started has finished.
pub open spec fn initialize_finished(daemon: &SystemDaemon, host: &Host) -> bool {
    daemon.competition_task matches Some(id) && host.tasks.retired().contains_key(id)
        && host.tasks.retired()[id] == TaskState::Finished
}

/// What one pass of the daemon does.
pub open spec fn daemon_pass(
    daemon: &SystemDaemon,
    host: &Host,
    daemon_after: &SystemDaemon,
    host_after: &Host,
    step: DaemonStep,
) -> bool {
    match daemon.stage {
        DaemonStage::AwaitingStart => if daemon.ready_to_init && host.tasks.newest_id() < u32::MAX {
            &&& daemon_after.stage == DaemonStage::Initializing
            &&& daemon_after.status == daemon.status
            &&& step == (DaemonStep {
                deleted: None,
                spawned: Some((host.tasks.newest_id() + 1) as u32),
            })
            &&& daemon_after.competition_task == step.spawned
            &&& host_after.interface@ == host.interface@.push(EventView::RobotCodeRunning)
                + link_warnings(host.linker@, host.module.imports@)
            &&& host_after.tasks.newest_id() == host.tasks.newest_id() + 1
            &&& host_after.tasks.tasks().drop_last() == host.tasks.tasks()
            &&& host_after.tasks.tasks().len() == host.tasks.tasks().len() + 1
            &&& is_user_task(
                host_after.tasks.tasks().last(),
                (host.tasks.newest_id() + 1) as u32,
                "User Initialization (PROS)"@,
                "initialize"@,
            )
            &&& host_after.tasks.retired() == host.tasks.retired()
        } else {
            &&& *daemon_after == *daemon
            &&& step == (DaemonStep { deleted: None, spawned: None })
            &&& host_after.interface == host.interface
            &&& host_after.tasks == host.tasks
        },
        DaemonStage::Initializing => if initialize_finished(daemon, host) {
            &&& daemon_after.stage == DaemonStage::Competing
            &&& phase_switched(daemon, host, daemon_after, host_after, step)
        } else {
            &&& *daemon_after == *daemon
            &&& step == (DaemonStep { deleted: None, spawned: None })
            &&& host_after.interface == host.interface
            &&& host_after.tasks == host.tasks
        },
        DaemonStage::Competing => {
            &&& daemon_after.stage == DaemonStage::Competing
            &&& phase_switched(daemon, host, daemon_after, host_after, step)
        },
    }
}

} // verus!
