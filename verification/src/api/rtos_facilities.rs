//! Tasks, mutexes, delays and thread-local storage, as robot code calls
//! them.
use crate::abi::TIMEOUT_MAX;
use crate::api::{
    api_items, distinct_from, env_items, lemma_group_names_are_distinct, link_warnings,
    AlreadyDefinedError, Definition, HostFunction, HostItem, Linker,
};
use crate::host::memory::{from_le_bytes, le_bytes, u32_from_le_bytes, written, SharedMemoryExt};
use crate::host::multitasking::{lock_step, HostMutex, LockStep};
use crate::host::task::{
    default_task_name, index_of, Task, TaskEntry, TaskOptions, TaskState, TASK_PRIORITIES,
};
use crate::host::thread_local::{index_in_bounds, TaskStorage};
use crate::host::{Host, HostError};
use crate::interface::{EventView, SimulatorEvent};
use crate::text::{concat, decimal, decimal_string};
use vstd::prelude::*;
use vstd::slice::slice_to_vec;
use vstd::string::StringExecFns;
use vstd::utf8::encode_utf8;

verus! {

/// The functions of this group, each under the name that robot code
/// imports it by.
pub open spec fn rtos_facilities_items() -> Seq<(&'static str, HostItem)> {
    seq![
        ("mutex_create", HostItem::Function(HostFunction::MutexCreate)),
        ("mutex_delete", HostItem::Function(HostFunction::MutexDelete)),
        ("mutex_give", HostItem::Function(HostFunction::MutexGive)),
        ("mutex_take", HostItem::Function(HostFunction::MutexTake)),
        (
            "pvTaskGetThreadLocalStoragePointer",
            HostItem::Function(HostFunction::TaskGetThreadLocalStoragePointer),
        ),
        (
            "vTaskSetThreadLocalStoragePointer",
            HostItem::Function(HostFunction::TaskSetThreadLocalStoragePointer),
        ),
        ("task_get_current", HostItem::Function(HostFunction::TaskGetCurrent)),
        ("delay", HostItem::Function(HostFunction::Delay)),
        ("task_delay", HostItem::Function(HostFunction::TaskDelay)),
        ("task_delay_until", HostItem::Function(HostFunction::TaskDelayUntil)),
        ("rtos_suspend_all", HostItem::Function(HostFunction::RtosSuspendAll)),
        ("rtos_resume_all", HostItem::Function(HostFunction::RtosResumeAll)),
        ("millis", HostItem::Function(HostFunction::Millis)),
        ("task_create", HostItem::Function(HostFunction::TaskCreate)),
        ("task_delete", HostItem::Function(HostFunction::TaskDelete)),
        ("task_get_name", HostItem::Function(HostFunction::TaskGetName)),
    ]
}

/// The functions of this group, each under the name that robot code
/// imports it by.
pub fn rtos_facilities_api() -> (items: Vec<(&'static str, HostItem)>)
    ensures
        items@ == rtos_facilities_items(),
{
    let mut items: Vec<(&'static str, HostItem)> = Vec::new();
    items.push(("mutex_create", HostItem::Function(HostFunction::MutexCreate)));
    items.push(("mutex_delete", HostItem::Function(HostFunction::MutexDelete)));
    items.push(("mutex_give", HostItem::Function(HostFunction::MutexGive)));
    items.push(("mutex_take", HostItem::Function(HostFunction::MutexTake)));
    items.push(
        (
            "pvTaskGetThreadLocalStoragePointer",
            HostItem::Function(HostFunction::TaskGetThreadLocalStoragePointer),
        ),
    );
    items.push(
        (
            "vTaskSetThreadLocalStoragePointer",
            HostItem::Function(HostFunction::TaskSetThreadLocalStoragePointer),
        ),
    );
    items.push(("task_get_current", HostItem::Function(HostFunction::TaskGetCurrent)));
    items.push(("delay", HostItem::Function(HostFunction::Delay)));
    items.push(("task_delay", HostItem::Function(HostFunction::TaskDelay)));
    items.push(("task_delay_until", HostItem::Function(HostFunction::TaskDelayUntil)));
    items.push(("rtos_suspend_all", HostItem::Function(HostFunction::RtosSuspendAll)));
    items.push(("rtos_resume_all", HostItem::Function(HostFunction::RtosResumeAll)));
    items.push(("millis", HostItem::Function(HostFunction::Millis)));
    items.push(("task_create", HostItem::Function(HostFunction::TaskCreate)));
    items.push(("task_delete", HostItem::Function(HostFunction::TaskDelete)));
    items.push(("task_get_name", HostItem::Function(HostFunction::TaskGetName)));
    assert(items@ =~= rtos_facilities_items());
    items
}

/// Offers the functions of this group to robot code. An error where one of
/// the names is defined already: the functions before that one have been
/// defined. A linker that offers nothing yet takes them all.
pub fn configure_rtos_facilities_api(linker: &mut Linker) -> (done: Result<(), AlreadyDefinedError>)
    ensures
        old(linker)@.len() == 0 ==> done is Ok,
        done is Ok <==> distinct_from(old(linker)@, env_items(rtos_facilities_items())),
        done is Ok ==> final(linker)@ == old(linker)@ + env_items(rtos_facilities_items()),
        done is Err ==> exists|k: int|
            0 <= k < rtos_facilities_items().len() && final(linker)@ == old(linker)@ + env_items(
                rtos_facilities_items().subrange(0, k),
            ),
{
    proof {
        let group = rtos_facilities_items();
        assert(group =~= api_items().subrange(21, 21 + group.len() as int));
        lemma_group_names_are_distinct(group, 21);
        if linker@.len() == 0 {
            assert(linker@ =~= Seq::<Definition>::empty());
        }
    }
    linker.define_all(&rtos_facilities_api())
}

/// What stays as it is when a host call changes the mutexes.
pub open spec fn same_but_mutexes(before: &Host, after: &Host) -> bool {
    &&& after.memory == before.memory
    &&& after.module == before.module
    &&& after.linker == before.linker
    &&& after.lcd == before.lcd
    &&& after.tasks == before.tasks
    &&& after.controllers == before.controllers
    &&& after.competition_phase == before.competition_phase
    &&& after.smart_ports == before.smart_ports
}

/// What stays as it is when a host call starts a task.
pub open spec fn same_but_tasks_and_interface(before: &Host, after: &Host) -> bool {
    &&& after.memory == before.memory
    &&& after.module == before.module
    &&& after.linker == before.linker
    &&& after.lcd == before.lcd
    &&& after.mutexes == before.mutexes
    &&& after.controllers == before.controllers
    &&& after.competition_phase == before.competition_phase
    &&& after.smart_ports == before.smart_ports
}

/// What stays as it is when a host call changes the tasks.
pub open spec fn same_but_tasks(before: &Host, after: &Host) -> bool {
    &&& after.memory == before.memory
    &&& after.module == before.module
    &&& after.linker == before.linker
    &&& after.interface == before.interface
    &&& after.lcd == before.lcd
    &&& after.mutexes == before.mutexes
    &&& after.controllers == before.controllers
    &&& after.competition_phase == before.competition_phase
    &&& after.smart_ports == before.smart_ports
}

/// `mutex_create`: creates a mutex that nobody holds and returns its
/// index, which no living mutex has.
pub fn mutex_create(host: &mut Host) -> (mutex_id: u32)
    ensures
        same_but_mutexes(old(host), final(host)),
        final(host).interface == old(host).interface,
        mutex_id == old(host).mutexes.next_id() as u32,
        !old(host).mutexes@.contains_key(old(host).mutexes.next_id()),
        final(host).mutexes@ == old(host).mutexes@.insert(
            old(host).mutexes.next_id(),
            HostMutex { holder: None },
        ),
{
    host.mutexes.create_mutex() as u32
}

/// The text of the warning about a mutex that is deleted while a task
/// holds it.
pub open spec fn held_mutex_warning(mutex_id: u32, holder: u32) -> Seq<char> {
    "Mutex "@ + decimal(mutex_id as nat) + " deleted while task "@ + decimal(holder as nat)
        + " holds it"@
}

/// `mutex_delete`: deletes the mutex `mutex_id`. A mutex that a task still
/// holds is deleted all the same, and that is warned of. Traps, and
/// nothing happens, where there is no such mutex.
pub fn mutex_delete(host: &mut Host, mutex_id: u32) -> (done: Result<(), HostError>)
    ensures
        same_but_mutexes(old(host), final(host)),
        done == if old(host).mutexes@.contains_key(mutex_id as usize) {
            Ok::<(), HostError>(())
        } else {
            Err::<(), HostError>(HostError::NoSuchMutex(mutex_id))
        },
        final(host).mutexes@ == old(host).mutexes@.remove(mutex_id as usize),
        final(host).mutexes.next_id() == if done is Ok {
            mutex_id as usize
        } else {
            old(host).mutexes.next_id()
        },
        final(host).interface@ == if done is Ok && old(host).mutexes@[mutex_id as usize].holder
            is Some {
            old(host).interface@.push(
                EventView::Warning(
                    held_mutex_warning(mutex_id, old(host).mutexes@[mutex_id as usize].holder.unwrap()),
                ),
            )
        } else {
            old(host).interface@
        },
{
    match host.mutexes.delete_mutex(mutex_id as usize) {
        None => Err(HostError::NoSuchMutex(mutex_id)),
        Some(mutex) => {
            if let Some(holder) = mutex.holder {
                let mut text = concat("Mutex ", decimal_string(mutex_id).as_str());
                text.append(" deleted while task ");
                text.append(decimal_string(holder).as_str());
                text.append(" holds it");
                assert(text@ =~= held_mutex_warning(mutex_id, holder));
                host.interface.send(SimulatorEvent::Warning(text));
            }
            Ok(())
        },
    }
}

/// `mutex_give`: releases the mutex `mutex_id`, whoever holds it, and
/// returns 1. Releasing a mutex that nobody holds changes nothing. Traps,
/// and nothing happens, where there is no such mutex.
pub fn mutex_give(host: &mut Host, mutex_id: u32) -> (value: Result<u32, HostError>)
    ensures
        same_but_mutexes(old(host), final(host)),
        final(host).interface == old(host).interface,
        value == if old(host).mutexes@.contains_key(mutex_id as usize) {
            Ok::<u32, HostError>(1)
        } else {
            Err::<u32, HostError>(HostError::NoSuchMutex(mutex_id))
        },
        final(host).mutexes@ == if value is Ok {
            old(host).mutexes@.insert(mutex_id as usize, HostMutex { holder: None })
        } else {
            old(host).mutexes@
        },
        final(host).mutexes.next_id() == old(host).mutexes.next_id(),
{
    if host.mutexes.unlock(mutex_id as usize) {
        Ok(1)
    } else {
        Err(HostError::NoSuchMutex(mutex_id))
    }
}

/// `later` milliseconds after `now`, on a clock that stops at the largest
/// number it can show.
pub open spec fn time_after(now: u64, later: u64) -> u64 {
    if now + later > u64::MAX {
        u64::MAX
    } else {
        (now + later) as u64
    }
}

/// `later` milliseconds after `now`, on a clock that stops at the largest
/// number it can show.
fn add_time(now: u64, later: u64) -> (time: u64)
    ensures
        time == time_after(now, later),
{
    if now > u64::MAX - later {
        u64::MAX
    } else {
        now + later
    }
}

/// The time at which a `mutex_take` that starts at `now` with the timeout
/// `timeout` gives up: `timeout` milliseconds later, or never where the
/// timeout is [`TIMEOUT_MAX`].
pub fn mutex_take_deadline(timeout: u32, now: u64) -> (deadline: Option<u64>)
    ensures
        deadline == if timeout == TIMEOUT_MAX {
            None
        } else {
            Some(time_after(now, timeout as u64))
        },
{
    if timeout == 0xFFFF_FFFF {
        None
    } else {
        Some(add_time(now, timeout as u64))
    }
}

/// What a step of taking a mutex means to `mutex_take`: 1 is returned for a
/// mutex that was taken, 0 for one that was given up, and nothing yet while
/// the task waits.
pub open spec fn take_step(step: LockStep, mutex_id: u32) -> Result<Option<u32>, HostError> {
    match step {
        LockStep::Locked => Ok(Some(1)),
        LockStep::TimedOut => Ok(Some(0)),
        LockStep::Waiting => Ok(None),
        LockStep::NoSuchMutex => Err(HostError::NoSuchMutex(mutex_id)),
    }
}

/// `mutex_take`: one step of the current task taking the mutex `mutex_id`
/// at the time `now`; `deadline` is where the call gives up.
///
/// `Some(1)`: nobody held the mutex, and the current task holds it now; the
/// call returns 1. `Some(0)`: the mutex is held and the deadline has been
/// reached; the call returns 0, and the mutex stays with its holder.
/// `None`: the mutex is held and the deadline has not been reached; the
/// caller yields and takes the next step when it runs again. A mutex is
/// never taken from the task that holds it. Fails, and nothing happens,
/// where no task is being executed, which is fatal, or where there is no
/// such mutex.
pub fn mutex_take(host: &mut Host, mutex_id: u32, deadline: Option<u64>, now: u64) -> (step: Result<
    Option<u32>,
    HostError,
>)
    requires
        old(host).wf(),
    ensures
        same_but_mutexes(old(host), final(host)),
        final(host).interface == old(host).interface,
        step == if !old(host).tasks.has_current() {
            Err::<Option<u32>, HostError>(HostError::NoCurrentTask)
        } else {
            take_step(lock_step(old(host).mutexes@, mutex_id as usize, deadline, now), mutex_id)
        },
        final(host).mutexes@ == if step == Ok::<Option<u32>, HostError>(Some(1)) {
            old(host).mutexes@.insert(
                mutex_id as usize,
                HostMutex { holder: old(host).tasks.current_id() },
            )
        } else {
            old(host).mutexes@
        },
        final(host).mutexes.next_id() == old(host).mutexes.next_id(),
{
    if !host.tasks.is_running_task() {
        return Err(HostError::NoCurrentTask);
    }
    let task = host.tasks.current().id();
    match host.mutexes.lock(mutex_id as usize, task, deadline, now) {
        LockStep::Locked => Ok(Some(1)),
        LockStep::TimedOut => Ok(Some(0)),
        LockStep::Waiting => Ok(None),
        LockStep::NoSuchMutex => Err(HostError::NoSuchMutex(mutex_id)),
    }
}

/// `pvTaskGetThreadLocalStoragePointer`: the number in the slot
/// `storage_index` of the task `task_handle`; the handle 0 stands for the
/// current task.
///
/// A task that has no block of slots yet takes `fresh`. Fails where no such
/// task is alive; then, where `storage_index` names no slot, which is
/// fatal; then, where the slot does not lie inside the memory.
pub fn task_get_thread_local_storage_pointer(
    host: &mut Host,
    task_handle: u32,
    storage_index: i32,
    fresh: TaskStorage,
) -> (value: Result<u32, HostError>)
    requires
        old(host).wf(),
    ensures
        final(host).wf(),
        same_but_tasks(old(host), final(host)),
        old(host).tasks.has_current() ==> final(host).tasks.has_current(),
        final(host).tasks.current_id() == old(host).tasks.current_id(),
        match old(host).tasks.resolve(task_handle) {
            None => value == Err::<u32, HostError>(HostError::NoSuchTask(task_handle)) && final(host).tasks.tasks() == old(host).tasks.tasks(),
            Some(t) => {
                let storage = storage_of(t, fresh);
                &&& final(host).tasks.tasks() == old(host).tasks.tasks().update(
                    index_of(old(host).tasks.tasks(), t.id).unwrap(),
                    Task { local_storage: Some(storage), ..t },
                )
                &&& value == if !index_in_bounds(storage_index) {
                    Err::<u32, HostError>(HostError::StorageIndex(storage_index))
                } else if storage.address_of(storage_index) + 4 > old(host).memory@.len() {
                    Err::<u32, HostError>(HostError::OutOfBounds)
                } else {
                    Ok::<u32, HostError>(
                        from_le_bytes(
                            old(host).memory@.subrange(
                                storage.address_of(storage_index),
                                storage.address_of(storage_index) + 4,
                            ),
                        ),
                    )
                }
            },
        },
{
    let storage = match host.tasks.local_storage(task_handle, fresh) {
        Some(storage) => storage,
        None => {
            return Err(HostError::NoSuchTask(task_handle));
        },
    };
    if storage_index < 0 || storage_index >= 5 {
        return Err(HostError::StorageIndex(storage_index));
    }
    match storage.get(&host.memory, storage_index) {
        Ok(value) => Ok(value),
        Err(_) => Err(HostError::OutOfBounds),
    }
}

/// The block of slots that `task` uses when it is offered `fresh`: its own,
/// if it has one.
pub open spec fn storage_of(task: Task, fresh: TaskStorage) -> TaskStorage {
    match task.local_storage {
        Some(storage) => storage,
        None => fresh,
    }
}

/// `vTaskSetThreadLocalStoragePointer`: stores `value` in the slot
/// `storage_index` of the task `task_handle`; the handle 0 stands for the
/// current task.
///
/// A task that has no block of slots yet takes `fresh`. Fails, and the
/// memory stays as it is, where no such task is alive; then, where
/// `storage_index` names no slot, which is fatal; then, where the slot does
/// not lie inside the memory.
pub fn task_set_thread_local_storage_pointer(
    host: &mut Host,
    task_handle: u32,
    storage_index: i32,
    value: u32,
    fresh: TaskStorage,
) -> (done: Result<(), HostError>)
    requires
        old(host).wf(),
    ensures
        final(host).wf(),
        final(host).module == old(host).module,
        final(host).linker == old(host).linker,
        final(host).interface == old(host).interface,
        final(host).lcd == old(host).lcd,
        final(host).mutexes == old(host).mutexes,
        final(host).controllers == old(host).controllers,
        final(host).competition_phase == old(host).competition_phase,
        final(host).smart_ports == old(host).smart_ports,
        old(host).tasks.has_current() ==> final(host).tasks.has_current(),
        final(host).tasks.current_id() == old(host).tasks.current_id(),
        done is Err ==> final(host).memory@ == old(host).memory@,
        match old(host).tasks.resolve(task_handle) {
            None => done == Err::<(), HostError>(HostError::NoSuchTask(task_handle)) && final(host).tasks.tasks() == old(host).tasks.tasks(),
            Some(t) => {
                let storage = storage_of(t, fresh);
                &&& final(host).tasks.tasks() == old(host).tasks.tasks().update(
                    index_of(old(host).tasks.tasks(), t.id).unwrap(),
                    Task { local_storage: Some(storage), ..t },
                )
                &&& done == if !index_in_bounds(storage_index) {
                    Err::<(), HostError>(HostError::StorageIndex(storage_index))
                } else if storage.address_of(storage_index) + 4 > old(host).memory@.len() {
                    Err::<(), HostError>(HostError::OutOfBounds)
                } else {
                    Ok::<(), HostError>(())
                }
                &&& done is Ok ==> final(host).memory@ == written(
                    old(host).memory@,
                    storage.address_of(storage_index),
                    le_bytes(value),
                )
            },
        },
{
    let storage = match host.tasks.local_storage(task_handle, fresh) {
        Some(storage) => storage,
        None => {
            return Err(HostError::NoSuchTask(task_handle));
        },
    };
    if storage_index < 0 || storage_index >= 5 {
        return Err(HostError::StorageIndex(storage_index));
    }
    match storage.set(&mut host.memory, storage_index, value) {
        Ok(()) => Ok(()),
        Err(_) => Err(HostError::OutOfBounds),
    }
}

/// `task_get_current`: the handle of the current task. Fails, fatally,
/// where no task is being executed.
pub fn task_get_current(host: &Host) -> (handle: Result<u32, HostError>)
    requires
        host.wf(),
    ensures
        handle == if host.tasks.has_current() {
            Ok::<u32, HostError>(host.tasks.current_id().unwrap())
        } else {
            Err::<u32, HostError>(HostError::NoCurrentTask)
        },
{
    if host.tasks.is_running_task() {
        Ok(host.tasks.current().id())
    } else {
        Err(HostError::NoCurrentTask)
    }
}

/// A task that waits for a point in time. It yields at least once; after
/// that it yields again each time it runs before the time has come.
#[derive(Debug, Clone, Copy, PartialEq, Eq, Structural)]
pub struct Delay {
    deadline: u64,
    yielded: bool,
}

impl Delay {
    /// The time that the task waits for, in milliseconds since the start of
    /// the simulator.
    pub closed spec fn deadline(self) -> u64 {
        self.deadline
    }

    /// Whether the task has yielded since it began to wait.
    pub closed spec fn yielded(self) -> bool {
        self.yielded
    }

    /// Whether the task has to yield once more, now that it runs at the
    /// time `now`: it has not yielded yet, or the time has not come.
    pub fn poll(&mut self, now: u64) -> (pending: bool)
        ensures
            pending == (!old(self).yielded() || now < old(self).deadline()),
            final(self).yielded(),
            final(self).deadline() == old(self).deadline(),
    {
        if !self.yielded {
            self.yielded = true;
            true
        } else {
            now < self.deadline
        }
    }
}

/// `delay` and `task_delay`: the current task waits for `millis`
/// milliseconds from `now` on.
pub fn task_delay(now: u64, millis: u32) -> (delay: Delay)
    ensures
        delay.deadline() == time_after(now, millis as u64),
        !delay.yielded(),
{
    Delay { deadline: add_time(now, millis as u64), yielded: false }
}

/// `task_delay_until`: the current task waits until `delta_ms`
/// milliseconds have passed since the time that is stored, in
/// milliseconds since the start of the simulator, at `prev_time_ptr`.
/// Traps where the pointer is null or the interval is zero, or where the
/// four bytes at the pointer do not lie inside the memory.
pub fn task_delay_until(host: &Host, prev_time_ptr: u32, delta_ms: u32) -> (delay: Result<
    Delay,
    HostError,
>)
    ensures
        prev_time_ptr == 0 || delta_ms == 0 ==> delay == Err::<Delay, HostError>(
            HostError::InvalidDelay,
        ),
        prev_time_ptr != 0 && delta_ms != 0 && prev_time_ptr + 4 > host.memory@.len() ==> delay
            == Err::<Delay, HostError>(HostError::OutOfBounds),
        prev_time_ptr != 0 && delta_ms != 0 && prev_time_ptr + 4 <= host.memory@.len() ==> {
            &&& delay matches Ok(d)
            &&& !d.yielded()
            &&& d.deadline() == from_le_bytes(
                host.memory@.subrange(prev_time_ptr as int, prev_time_ptr + 4),
            ) + delta_ms
        },
{
    if prev_time_ptr == 0 || delta_ms == 0 {
        return Err(HostError::InvalidDelay);
    }
    let bytes = match host.memory.read_relaxed(prev_time_ptr as usize, 4) {
        Ok(bytes) => bytes,
        Err(_) => {
            return Err(HostError::OutOfBounds);
        },
    };
    let prev_time = u32_from_le_bytes(&bytes);
    Ok(Delay { deadline: prev_time as u64 + delta_ms as u64, yielded: false })
}

/// `rtos_suspend_all`: keeps the scheduler from switching tasks until
/// `rtos_resume_all` has been called as often as this. Fails, and nothing
/// changes, where no task is being executed, which is fatal, or where the
/// calls cannot be counted any more.
pub fn rtos_suspend_all(host: &mut Host) -> (done: Result<(), HostError>)
    requires
        old(host).wf(),
    ensures
        final(host).wf(),
        same_but_tasks(old(host), final(host)),
        done == if !old(host).tasks.has_current() {
            Err::<(), HostError>(HostError::NoCurrentTask)
        } else if old(host).tasks.suspended() == u32::MAX {
            Err::<(), HostError>(HostError::TooManySuspends)
        } else {
            Ok::<(), HostError>(())
        },
        final(host).tasks.suspended() == if done is Ok {
            (old(host).tasks.suspended() + 1) as u32
        } else {
            old(host).tasks.suspended()
        },
        final(host).tasks.tasks() == old(host).tasks.tasks(),
        final(host).tasks.retired() == old(host).tasks.retired(),
        final(host).tasks.newest_id() == old(host).tasks.newest_id(),
        final(host).tasks.current_id() == old(host).tasks.current_id(),
        final(host).tasks.yield_pending() == old(host).tasks.yield_pending(),
        final(host).tasks.shutdown_pending() == old(host).tasks.shutdown_pending(),
{
    if !host.tasks.is_running_task() {
        return Err(HostError::NoCurrentTask);
    }
    if host.tasks.suspend_count() == u32::MAX {
        return Err(HostError::TooManySuspends);
    }
    host.tasks.suspend_all();
    Ok(())
}

/// `rtos_resume_all`: takes back one `rtos_suspend_all`. Returns 1 where
/// this was the last one and a switch of tasks became due meanwhile: the
/// caller yields once before the call returns. Returns 0 otherwise. Traps,
/// and nothing changes, where the scheduler is not suspended.
pub fn rtos_resume_all(host: &mut Host) -> (value: Result<i32, HostError>)
    requires
        old(host).wf(),
    ensures
        final(host).wf(),
        same_but_tasks(old(host), final(host)),
        value == if old(host).tasks.suspended() == 0 {
            Err::<i32, HostError>(HostError::ResumeWithoutSuspend)
        } else if old(host).tasks.yield_pending() && old(host).tasks.suspended() == 1 {
            Ok::<i32, HostError>(1)
        } else {
            Ok::<i32, HostError>(0)
        },
        final(host).tasks.suspended() == if old(host).tasks.suspended() == 0 {
            0
        } else {
            old(host).tasks.suspended() - 1
        },
        final(host).tasks.tasks() == old(host).tasks.tasks(),
        final(host).tasks.retired() == old(host).tasks.retired(),
        final(host).tasks.newest_id() == old(host).tasks.newest_id(),
        final(host).tasks.current_id() == old(host).tasks.current_id(),
        final(host).tasks.yield_pending() == old(host).tasks.yield_pending(),
        final(host).tasks.shutdown_pending() == old(host).tasks.shutdown_pending(),
{
    match host.tasks.resume_all() {
        Ok(yields) => Ok(if yields { 1 } else { 0 }),
        Err(_) => Err(HostError::ResumeWithoutSuspend),
    }
}

/// `millis`: the milliseconds since the start of the simulator, as far as
/// 32 bits show them.
pub fn millis(now: u64) -> (value: u32)
    ensures
        value == now % 0x1_0000_0000,
{
    (now % 0x1_0000_0000) as u32
}

/// `task_create`: creates a task that starts at the function `function` of
/// the indirect function table and passes it `parameters`, and returns its
/// handle. Robot code counts priorities from 1; the scheduler counts from
/// 0. The stack depth and the name that robot code passes are not used: the
/// task is named after its handle. The robot code is linked for the task:
/// each import that the simulator does not offer is warned of.
///
/// Traps, and nothing changes, where `priority` is not in `1..=16` or
/// where every handle has been given out.
pub fn task_create(
    host: &mut Host,
    function: u32,
    parameters: u32,
    priority: u32,
    stack_depth: u32,
    name: u32,
) -> (handle: Result<u32, HostError>)
    requires
        old(host).wf(),
    ensures
        final(host).wf(),
        same_but_tasks_and_interface(old(host), final(host)),
        old(host).tasks.has_current() ==> final(host).tasks.has_current(),
        handle == if priority == 0 || priority > TASK_PRIORITIES {
            Err::<u32, HostError>(HostError::InvalidPriority(priority))
        } else if old(host).tasks.newest_id() == u32::MAX {
            Err::<u32, HostError>(HostError::OutOfTaskHandles)
        } else {
            Ok::<u32, HostError>((old(host).tasks.newest_id() + 1) as u32)
        },
        handle is Err ==> final(host).tasks == old(host).tasks && final(host).interface == old(host).interface,
        handle matches Ok(id) ==> {
            &&& final(host).tasks.newest_id() == id
            &&& final(host).interface@ == old(host).interface@ + link_warnings(
                old(host).linker@,
                old(host).module.imports@,
            )
            &&& final(host).tasks.tasks().drop_last() == old(host).tasks.tasks()
            &&& final(host).tasks.tasks().len() == old(host).tasks.tasks().len() + 1
            &&& final(host).tasks.tasks().last().id == id
            &&& final(host).tasks.tasks().last().priority == priority - 1
            &&& final(host).tasks.tasks().last().name@ == default_task_name(id)
            &&& final(host).tasks.tasks().last().entry == (TaskEntry::Extern {
                function,
                argument: parameters,
            })
            &&& final(host).tasks.tasks().last().state == TaskState::Ready
            &&& final(host).tasks.tasks().last().errno is None
            &&& final(host).tasks.tasks().last().local_storage is None
            &&& !final(host).tasks.tasks().last().marked_for_delete
            &&& final(host).tasks.retired() == old(host).tasks.retired()
            &&& final(host).tasks.current_id() == old(host).tasks.current_id()
            &&& final(host).tasks.suspended() == old(host).tasks.suspended()
            &&& final(host).tasks.yield_pending() == old(host).tasks.yield_pending()
            &&& final(host).tasks.shutdown_pending() == old(host).tasks.shutdown_pending()
        },
{
    if priority == 0 || priority > 16 {
        return Err(HostError::InvalidPriority(priority));
    }
    let opts = TaskOptions::new_extern(function, parameters).priority(priority - 1);
    match host.tasks.spawn(opts, &host.linker, &host.module, &mut host.interface) {
        Some(id) => Ok(id),
        None => Err(HostError::OutOfTaskHandles),
    }
}

/// `task_delete`: deletes the task `task_id`, if it is alive, and says
/// whether the caller must yield, never to run again: that is so where the
/// running task deletes itself. Any other task is removed at once.
pub fn task_delete(host: &mut Host, task_id: u32) -> (must_yield: bool)
    requires
        old(host).wf(),
    ensures
        final(host).wf(),
        same_but_tasks(old(host), final(host)),
        old(host).tasks.has_current() ==> final(host).tasks.has_current(),
        final(host).tasks.newest_id() == old(host).tasks.newest_id(),
        final(host).tasks.current_id() == old(host).tasks.current_id(),
        final(host).tasks.suspended() == old(host).tasks.suspended(),
        final(host).tasks.yield_pending() == old(host).tasks.yield_pending(),
        final(host).tasks.shutdown_pending() == old(host).tasks.shutdown_pending(),
        match index_of(old(host).tasks.tasks(), task_id) {
            None => {
                &&& !must_yield
                &&& final(host).tasks.tasks() == old(host).tasks.tasks()
                &&& final(host).tasks.retired() == old(host).tasks.retired()
            },
            Some(i) => if old(host).tasks.tasks()[i].state == TaskState::Running {
                &&& must_yield
                &&& final(host).tasks.tasks() == old(host).tasks.tasks().update(
                    i,
                    Task { marked_for_delete: true, ..old(host).tasks.tasks()[i] },
                )
                &&& final(host).tasks.retired() == old(host).tasks.retired()
            } else {
                &&& !must_yield
                &&& final(host).tasks.tasks() == old(host).tasks.tasks().remove(i)
                &&& final(host).tasks.retired() == old(host).tasks.retired().insert(
                    task_id,
                    TaskState::Deleted,
                )
            },
        },
{
    host.tasks.delete_task(task_id)
}

/// The name `name` as a C string: its UTF-8 encoding and a NUL byte.
pub open spec fn c_string(name: Seq<char>) -> Seq<u8> {
    encode_utf8(name).push(0u8)
}

/// The name of the task `task_id` as a C string, for `task_get_name`; the
/// handle 0 stands for the current task. `None` where no such task is
/// alive. Traps where the name holds a NUL character.
pub fn task_name(host: &Host, task_id: u32) -> (name: Result<Option<Vec<u8>>, HostError>)
    requires
        host.wf(),
    ensures
        match host.tasks.resolve(task_id) {
            None => name == Ok::<Option<Vec<u8>>, HostError>(None),
            Some(t) => if encode_utf8(t.name@).contains(0u8) {
                name == Err::<Option<Vec<u8>>, HostError>(HostError::InvalidName)
            } else {
                name matches Ok(Some(bytes)) && bytes@ == c_string(t.name@)
            },
        },
{
    let task = match host.tasks.by_id(task_id) {
        Some(task) => task,
        None => {
            return Ok(None);
        },
    };
    let mut bytes = slice_to_vec(task.name().as_bytes());
    let ghost encoded = encode_utf8(task.name@);
    assert(bytes@ == encoded);
    let n = bytes.len();
    let mut i: usize = 0;
    while i < n
        invariant
            n == bytes@.len(),
            i <= n,
            bytes@ == encoded,
            encoded == encode_utf8(task.name@),
            host.tasks.resolve(task_id) == Some(*task),
            forall|j: int| 0 <= j < i ==> bytes@[j] != 0,
        decreases n - i,
    {
        if bytes[i] == 0 {
            assert(encoded[i as int] == 0u8);
            return Err(HostError::InvalidName);
        }
        i = i + 1;
    }
    bytes.push(0);
    Ok(Some(bytes))
}

/// `task_get_name`: copies the name of the task `task_id`, as a C string,
/// to `copy_ptr`, which the caller has got from the allocator of robot
/// code for [`task_name`], and returns `copy_ptr`. Returns 0, and nothing
/// changes, where no such task is alive. Traps, and nothing changes, where
/// the name holds a NUL character or the copy does not lie inside the
/// memory.
pub fn task_get_name(host: &mut Host, task_id: u32, copy_ptr: u32) -> (value: Result<u32, HostError>)
    requires
        old(host).wf(),
    ensures
        final(host).module == old(host).module,
        final(host).linker == old(host).linker,
        final(host).interface == old(host).interface,
        final(host).lcd == old(host).lcd,
        final(host).mutexes == old(host).mutexes,
        final(host).tasks == old(host).tasks,
        final(host).controllers == old(host).controllers,
        final(host).competition_phase == old(host).competition_phase,
        final(host).smart_ports == old(host).smart_ports,
        match old(host).tasks.resolve(task_id) {
            None => value == Ok::<u32, HostError>(0) && final(host).memory@ == old(host).memory@,
            Some(t) => if encode_utf8(t.name@).contains(0u8) {
                value == Err::<u32, HostError>(HostError::InvalidName) && final(host).memory@ == old(host).memory@
            } else if copy_ptr + c_string(t.name@).len() > old(host).memory@.len() {
                value == Err::<u32, HostError>(HostError::OutOfBounds) && final(host).memory@ == old(host).memory@
            } else {
                value == Ok::<u32, HostError>(copy_ptr) && final(host).memory@ == written(
                    old(host).memory@,
                    copy_ptr as int,
                    c_string(t.name@),
                )
            },
        },
{
    let bytes = match task_name(host, task_id) {
        Ok(Some(bytes)) => bytes,
        Ok(None) => {
            return Ok(0);
        },
        Err(e) => {
            return Err(e);
        },
    };
    match host.memory.write_relaxed(copy_ptr as usize, bytes.as_slice()) {
        Ok(()) => Ok(copy_ptr),
        Err(_) => Err(HostError::OutOfBounds),
    }
}

} // verus!
