//! The state of the simulated brain, and what its host calls hand back to
//! robot code.
pub mod controllers;
pub mod lcd;
pub mod memory;
pub mod multitasking;
pub mod schedule;
pub mod smart_device;
pub mod task;
pub mod thread_local;

use crate::api::{Linker, Module};
use crate::host::controllers::Controllers;
use crate::host::lcd::{blank_lines, Lcd};
use crate::host::memory::{le_bytes, written, CStrError, GuestMemory, OutOfBoundsError};
use crate::host::multitasking::MutexPool;
use crate::host::smart_device::SmartPorts;
use crate::host::task::{index_of, Errno, Task, TaskPool, TaskState};
use crate::interface::{CompetitionPhase, EventView, SimulatorEvent, SimulatorInterface};
use vstd::prelude::*;

verus! {

/// Why a host call could not be carried out at all: not a misuse that
/// `errno` reports, but a fault. Robot code sees a trap, unless the error is
/// fatal.
#[derive(Debug, Clone, Copy, PartialEq, Eq, Structural)]
pub enum HostError {
    /// A range of bytes that robot code named does not lie inside the
    /// memory.
    OutOfBounds,
    /// No string could be read at a pointer that robot code passed.
    BadString(CStrError),
    /// Bytes that robot code wrote to the console are not UTF-8.
    InvalidUtf8,
    /// The scheduler was resumed more often than it was suspended.
    ResumeWithoutSuspend,
    /// The scheduler was suspended more often than can be counted.
    TooManySuspends,
    /// A priority outside `1..=16`.
    InvalidPriority(u32),
    /// Every task handle has been given out.
    OutOfTaskHandles,
    /// No mutex has this index.
    NoSuchMutex(u32),
    /// No living task has this handle.
    NoSuchTask(u32),
    /// A null pointer or a zero interval was passed to `task_delay_until`.
    InvalidDelay,
    /// A name that holds a NUL character.
    InvalidName,
    /// The index of a thread-local slot is out of range.
    StorageIndex(i32),
    /// The current task was asked for while no task is being executed.
    NoCurrentTask,
    /// The allocator of robot code handed out the null pointer.
    AllocationFailed,
}

impl HostError {
    /// Whether the error shows a fault of the simulator rather than of
    /// robot code: the simulator does not go on after such an error.
    pub open spec fn spec_is_fatal(self) -> bool {
        self is StorageIndex || self is NoCurrentTask || self is AllocationFailed
    }

    /// Whether the error shows a fault of the simulator rather than of
    /// robot code: the simulator does not go on after such an error.
    #[verifier::when_used_as_spec(spec_is_fatal)]
    pub fn is_fatal(self) -> (fatal: bool)
        ensures
            fatal == self.spec_is_fatal(),
    {
        match self {
            HostError::StorageIndex(_) => true,
            HostError::NoCurrentTask => true,
            HostError::AllocationFailed => true,
            _ => false,
        }
    }
}

/// What a host call hands back to robot code: the value that the call
/// returns, and the error code, if any, that goes into the `errno` of the
/// calling task before the call returns.
#[derive(Debug, Clone, Copy, PartialEq, Eq)]
pub struct Reply<T> {
    pub value: T,
    pub errno: Option<i32>,
}

/// Turns the result of a device into what the host call hands back: an
/// error code goes to `errno`, and the call returns a fixed value in its
/// place.
pub trait ResultExt<T>: Sized {
    /// The result as a value of the model.
    spec fn outcome(self) -> Result<T, i32>;

    /// Whether the result is `Ok`; the error code, if there is one, is for
    /// `errno`.
    fn unwrap_or_errno(self) -> (reply: Reply<bool>)
        ensures
            reply.value == self.outcome() is Ok,
            reply.errno == match self.outcome() {
                Ok(_) => None,
                Err(code) => Some(code),
            },
    ;

    /// The value of an `Ok`; for an error `error_value`, and the error code
    /// is for `errno`.
    fn unwrap_or_errno_as(self, error_value: T) -> (reply: Reply<T>)
        ensures
            reply.value == match self.outcome() {
                Ok(value) => value,
                Err(_) => error_value,
            },
            reply.errno == match self.outcome() {
                Ok(_) => None,
                Err(code) => Some(code),
            },
    ;
}

impl<T> ResultExt<T> for Result<T, i32> {
    open spec fn outcome(self) -> Result<T, i32> {
        self
    }

    fn unwrap_or_errno(self) -> (reply: Reply<bool>) {
        match self {
            Ok(_) => Reply { value: true, errno: None },
            Err(code) => Reply { value: false, errno: Some(code) },
        }
    }

    fn unwrap_or_errno_as(self, error_value: T) -> (reply: Reply<T>) {
        match self {
            Ok(value) => Reply { value, errno: None },
            Err(code) => Reply { value: error_value, errno: Some(code) },
        }
    }
}

/// A fault that ended the simulation.
#[derive(Debug)]
pub struct Fault {
    pub message: String,
    /// The call stack of robot code at the fault.
    pub backtrace: String,
}

/// What the simulator reports last: the fault that ended the simulation,
/// or that all tasks have finished.
pub open spec fn last_event(fault: Option<Fault>) -> EventView {
    match fault {
        Some(f) => EventView::RobotCodeError { message: f.message@, backtrace: f.backtrace@ },
        None => EventView::AllTasksFinished,
    }
}

/// The simulated brain: the memory that it shares with robot code, its
/// devices, its tasks, and the events that it has reported.
pub struct Host {
    pub memory: GuestMemory,
    /// The robot code that every task runs.
    pub module: Module,
    /// What the simulator offers to robot code.
    pub linker: Linker,
    /// What the simulator has reported and the front end has not collected.
    pub interface: SimulatorInterface,
    pub lcd: Lcd,
    /// The mutexes that robot code has created.
    pub mutexes: MutexPool,
    pub tasks: TaskPool,
    pub controllers: Controllers,
    pub competition_phase: CompetitionPhase,
    pub smart_ports: SmartPorts,
}

impl Host {
    /// What holds of every host: its pool of tasks is well-formed.
    pub open spec fn wf(&self) -> bool {
        self.tasks.wf()
    }

    /// A brain that has just been switched on, sharing `memory` with the
    /// robot code `module` and offering it what `linker` holds: no task, no
    /// mutex, no controller, no device, the LCD off, and nothing reported.
    pub fn new(memory: GuestMemory, linker: Linker, module: Module) -> (host: Self)
        ensures
            host.wf(),
            host.memory == memory,
            host.linker == linker,
            host.module == module,
            host.interface@ == Seq::<EventView>::empty(),
            !host.lcd.initialized(),
            host.lcd.lines() == blank_lines(),
            host.lcd.button_presses() == seq![false, false, false],
            host.lcd.button_callbacks() == seq![None::<u32>, None::<u32>, None::<u32>],
            host.mutexes@ == Map::<usize, crate::host::multitasking::HostMutex>::empty(),
            host.mutexes.next_id() == 0,
            host.tasks.tasks() == Seq::<Task>::empty(),
            (host.tasks.retired() == Map::<u32, TaskState>::empty()),
            host.tasks.newest_id() == 0,
            host.tasks.current_id() is None,
            host.tasks.suspended() == 0,
            !host.tasks.yield_pending(),
            !host.tasks.shutdown_pending(),
            host.controllers.master() is None,
            host.controllers.partner() is None,
            host.competition_phase == (CompetitionPhase {
                autonomous: false,
                enabled: false,
                is_competition: false,
            }),
            host.smart_ports@ == Map::<u32, crate::host::smart_device::SmartDevice>::empty(),
    {
        Host {
            memory,
            module,
            linker,
            interface: SimulatorInterface::new(),
            lcd: Lcd::new(),
            mutexes: MutexPool::new(),
            tasks: TaskPool::new(),
            controllers: Controllers::new(None, None),
            competition_phase: CompetitionPhase::default(),
            smart_ports: SmartPorts::new(),
        }
    }

    /// Reports that robot code is being loaded.
    pub fn loading(&mut self)
        ensures
            final(self).interface@ == old(self).interface@.push(EventView::Loading),
            final(self).memory == old(self).memory,
            final(self).lcd == old(self).lcd,
            final(self).mutexes == old(self).mutexes,
            final(self).tasks == old(self).tasks,
            final(self).controllers == old(self).controllers,
            final(self).competition_phase == old(self).competition_phase,
            final(self).smart_ports == old(self).smart_ports,
            final(self).module == old(self).module,
            final(self).linker == old(self).linker,
    {
        self.interface.send(SimulatorEvent::Loading);
    }

    /// Reports how the simulation ended, once the driver has stopped: with
    /// `fault`, or, where there is none, with all tasks finished.
    pub fn finish(&mut self, fault: Option<Fault>)
        ensures
            final(self).interface@ == old(self).interface@.push(last_event(fault)),
            final(self).memory == old(self).memory,
            final(self).lcd == old(self).lcd,
            final(self).mutexes == old(self).mutexes,
            final(self).tasks == old(self).tasks,
            final(self).controllers == old(self).controllers,
            final(self).competition_phase == old(self).competition_phase,
            final(self).smart_ports == old(self).smart_ports,
            final(self).module == old(self).module,
            final(self).linker == old(self).linker,
    {
        match fault {
            Some(Fault { message, backtrace }) => {
                self.interface.send(SimulatorEvent::RobotCodeError { message, backtrace });
            },
            None => {
                self.interface.send(SimulatorEvent::AllTasksFinished);
            },
        }
    }

    /// Checks a pointer that the allocator of robot code has handed out:
    /// the null pointer says that the allocator has failed, which is fatal.
    pub fn checked_allocation(ptr: u32) -> (checked: Result<u32, HostError>)
        ensures
            checked == if ptr == 0 {
                Err::<u32, HostError>(HostError::AllocationFailed)
            } else {
                Ok::<u32, HostError>(ptr)
            },
    {
        if ptr == 0 {
            Err(HostError::AllocationFailed)
        } else {
            Ok(ptr)
        }
    }

    /// Writes `code` into the `errno` of the current task. A task that has
    /// no `errno` cell yet takes `fresh`. The code goes into the four bytes
    /// of that cell; no other byte of the memory and no other task changes.
    /// An error, and the memory stays as it is, where the cell does not lie
    /// inside the memory.
    pub fn set_errno(&mut self, code: i32, fresh: Errno) -> (done: Result<(), OutOfBoundsError>)
        requires
            old(self).wf(),
            old(self).tasks.has_current(),
        ensures
            final(self).wf(),
            final(self).tasks.has_current(),
            final(self).tasks.current_task().errno == Some(cell_of(old(self).tasks.current_task(), fresh)),
            final(self).tasks.tasks() == old(self).tasks.tasks().update(
                index_of(old(self).tasks.tasks(), old(self).tasks.current_id().unwrap()).unwrap(),
                Task {
                    errno: Some(cell_of(old(self).tasks.current_task(), fresh)),
                    ..old(self).tasks.current_task()
                },
            ),
            final(self).tasks.current_id() == old(self).tasks.current_id(),
            errno_written(old(self), code, fresh, final(self)),
            done is Ok <==> cell_of(old(self).tasks.current_task(), fresh).address() + 4 <= old(self).memory@.len(),
            final(self).memory@ == if done is Ok {
                written(
                    old(self).memory@,
                    cell_of(old(self).tasks.current_task(), fresh).address() as int,
                    le_bytes(code as u32),
                )
            } else {
                old(self).memory@
            },
            final(self).interface == old(self).interface,
            final(self).lcd == old(self).lcd,
            final(self).mutexes == old(self).mutexes,
            final(self).controllers == old(self).controllers,
            final(self).competition_phase == old(self).competition_phase,
            final(self).smart_ports == old(self).smart_ports,
            final(self).module == old(self).module,
            final(self).linker == old(self).linker,
    {
        let cell = self.tasks.errno(fresh);
        cell.set(&mut self.memory, code)
    }
}

impl Host {
    /// Hands the reply of a host call to robot code: the error code of the
    /// reply, if it has one, goes into the `errno` of the current task, and
    /// the value of the reply is what the call returns. A task that has no
    /// `errno` cell yet and needs one takes `fresh`.
    ///
    /// Fails for an error code where no task is being executed, which is
    /// fatal and changes nothing, or where the cell does not lie inside the
    /// memory, which leaves the memory as it is.
    pub fn deliver<T>(&mut self, reply: Reply<T>, fresh: Errno) -> (value: Result<T, HostError>)
        requires
            old(self).wf(),
        ensures
            final(self).wf(),
            old(self).tasks.has_current() ==> final(self).tasks.has_current(),
            final(self).tasks.current_id() == old(self).tasks.current_id(),
            final(self).interface == old(self).interface,
            final(self).lcd == old(self).lcd,
            final(self).mutexes == old(self).mutexes,
            final(self).controllers == old(self).controllers,
            final(self).competition_phase == old(self).competition_phase,
            final(self).smart_ports == old(self).smart_ports,
            final(self).module == old(self).module,
            final(self).linker == old(self).linker,
            match reply.errno {
                None => {
                    &&& value == Ok::<T, HostError>(reply.value)
                    &&& final(self).memory == old(self).memory
                    &&& final(self).tasks == old(self).tasks
                },
                Some(code) => if !old(self).tasks.has_current() {
                    &&& value == Err::<T, HostError>(HostError::NoCurrentTask)
                    &&& final(self).memory == old(self).memory
                    &&& final(self).tasks == old(self).tasks
                } else {
                    let cell = cell_of(old(self).tasks.current_task(), fresh);
                    &&& errno_written(old(self), code, fresh, final(self))
                    &&& final(self).tasks.current_task().errno == Some(cell)
                    &&& final(self).tasks.tasks() == old(self).tasks.tasks().update(
                        index_of(old(self).tasks.tasks(), old(self).tasks.current_id().unwrap()).unwrap(),
                        Task { errno: Some(cell), ..old(self).tasks.current_task() },
                    )
                    &&& if cell.address() + 4 <= old(self).memory@.len() {
                        &&& value == Ok::<T, HostError>(reply.value)
                        &&& final(self).memory@ == written(
                            old(self).memory@,
                            cell.address() as int,
                            le_bytes(code as u32),
                        )
                    } else {
                        &&& value == Err::<T, HostError>(HostError::OutOfBounds)
                        &&& final(self).memory@ == old(self).memory@
                    }
                },
            },
    {
        match reply.errno {
            None => Ok(reply.value),
            Some(code) => {
                if !self.tasks.is_running_task() {
                    return Err(HostError::NoCurrentTask);
                }
                match self.set_errno(code, fresh) {
                    Ok(()) => Ok(reply.value),
                    Err(_) => Err(HostError::OutOfBounds),
                }
            },
        }
    }
}

/// The `errno` cell that `task` uses when it is offered `fresh`: its own, if
/// it has one.
pub open spec fn cell_of(task: Task, fresh: Errno) -> Errno {
    match task.errno {
        Some(cell) => cell,
        None => fresh,
    }
}

/// What becomes of the tasks and the memory when the error code `code` goes
/// into the `errno` of the current task, which takes the cell `fresh` if it
/// has none: the current task has its cell, and the code stands in the four
/// bytes of that cell, if they lie inside the memory.
pub open spec fn errno_written(before: &Host, code: i32, fresh: Errno, after: &Host) -> bool {
    let cell = cell_of(before.tasks.current_task(), fresh);
    &&& after.tasks.current_id() == before.tasks.current_id()
    &&& after.tasks.tasks() == before.tasks.tasks().update(
        index_of(before.tasks.tasks(), before.tasks.current_id().unwrap()).unwrap(),
        Task { errno: Some(cell), ..before.tasks.current_task() },
    )
    &&& after.memory@ == if cell.address() + 4 <= before.memory@.len() {
        written(before.memory@, cell.address() as int, le_bytes(code as u32))
    } else {
        before.memory@
    }
}

/// Writing an error code into the cell at `written_to` leaves the four
/// bytes of a cell at `other` as they were, provided the two cells do not
/// overlap.
pub proof fn lemma_errno_write_is_local(memory: Seq<u8>, written_to: Errno, code: i32, other: Errno)
    requires
        written_to.address() + 4 <= other.address() || other.address() + 4 <= written_to.address(),
        other.address() + 4 <= memory.len(),
    ensures
        written(memory, written_to.address() as int, le_bytes(code as u32)).subrange(
            other.address() as int,
            other.address() + 4,
        ) == memory.subrange(other.address() as int, other.address() + 4),
{
    assert(le_bytes(code as u32).len() == 4);
    assert(written(memory, written_to.address() as int, le_bytes(code as u32)).subrange(
        other.address() as int,
        other.address() + 4,
    ) =~= memory.subrange(other.address() as int, other.address() + 4));
}

/// Errors stay with the task that made them. Each task has an `errno` cell
/// of its own, which the allocator of robot code has placed at a multiple of
/// four. An error code that goes into the cell of one task leaves the cell
/// of every task whose cell is another one as it was: of two such cells at
/// different addresses, writing the one at `written_to` changes no byte of
/// the one at `other`.
pub proof fn lemma_errno_is_local(memory: Seq<u8>, written_to: Errno, code: i32, other: Errno)
    requires
        written_to.aligned(),
        other.aligned(),
        written_to.address() != other.address(),
        other.address() + 4 <= memory.len(),
    ensures
        written(memory, written_to.address() as int, le_bytes(code as u32)).subrange(
            other.address() as int,
            other.address() + 4,
        ) == memory.subrange(other.address() as int, other.address() + 4),
{
    let a = written_to.address() as int;
    let b = other.address() as int;
    assert(a + 4 <= b || b + 4 <= a) by {
        assert(a % 4 == 0 && b % 4 == 0);
        assert(a == 4 * (a / 4) && b == 4 * (b / 4));
    }
    lemma_errno_write_is_local(memory, written_to, code, other);
}

/// An error of the current task never reaches another task. When an error
/// code goes into the `errno` of the current task, every other task keeps
/// its `errno` cell, and that cell holds what it held, provided it is
/// another cell than the one that was written and both lie at multiples of
/// four, where the allocator of robot code places them.
pub proof fn lemma_error_stays_with_its_task(
    before: Host,
    code: i32,
    fresh: Errno,
    after: Host,
    bystander: int,
)
    requires
        before.wf(),
        before.tasks.has_current(),
        errno_written(&before, code, fresh, &after),
        0 <= bystander < before.tasks.tasks().len(),
        before.tasks.tasks()[bystander].id != before.tasks.current_id().unwrap(),
        before.tasks.tasks()[bystander].errno matches Some(other) && other.aligned()
            && other.address() + 4 <= before.memory@.len() && other.address() != cell_of(
            before.tasks.current_task(),
            fresh,
        ).address(),
        cell_of(before.tasks.current_task(), fresh).aligned(),
    ensures
        after.tasks.tasks()[bystander] == before.tasks.tasks()[bystander],
        ({
            let other = before.tasks.tasks()[bystander].errno.unwrap();
            after.memory@.subrange(other.address() as int, other.address() + 4)
                == before.memory@.subrange(other.address() as int, other.address() + 4)
        }),
{
    let cell = cell_of(before.tasks.current_task(), fresh);
    let other = before.tasks.tasks()[bystander].errno.unwrap();
    if cell.address() + 4 <= before.memory@.len() {
        lemma_errno_is_local(before.memory@, cell, code, other);
    }
}

} // verus!
